use hyperswitch_card_vault::storage::kv::scheme::KvState;

#[test]
fn applies_allowed_kv_state_transitions() {
    assert_eq!(
        KvState::Disabled.apply_transition(KvState::Enabled, true),
        KvState::Enabled
    );
    assert_eq!(
        KvState::Enabled.apply_transition(KvState::SoftKill, false),
        KvState::SoftKill
    );
    assert_eq!(
        KvState::SoftKill.apply_transition(KvState::Disabled, false),
        KvState::Disabled
    );
}

#[test]
fn ignores_disabled_to_enabled_without_redis() {
    assert_eq!(
        KvState::Disabled.apply_transition(KvState::Enabled, false),
        KvState::Disabled
    );
}

#[test]
fn ignores_unsupported_kv_state_transitions() {
    assert_eq!(
        KvState::Disabled.apply_transition(KvState::SoftKill, true),
        KvState::Disabled
    );
    assert_eq!(
        KvState::Enabled.apply_transition(KvState::Disabled, true),
        KvState::Enabled
    );
    assert_eq!(
        KvState::SoftKill.apply_transition(KvState::Enabled, true),
        KvState::SoftKill
    );
}

#[test]
fn same_state_request_is_a_no_op() {
    for state in [KvState::Disabled, KvState::Enabled, KvState::SoftKill] {
        assert_eq!(state.apply_transition(state, false), state);
        assert!(state.is_valid_transition(state, false));
    }
}

#[test]
fn repeated_request_has_effect_of_one() {
    let once = KvState::Disabled.apply_transition(KvState::Enabled, true);
    let twice = once.apply_transition(KvState::Enabled, true);
    assert_eq!(once, twice);
}

#[test]
fn valid_transition_matches_reached_state() {
    assert!(KvState::Disabled.is_valid_transition(KvState::Enabled, true));
    assert!(!KvState::Disabled.is_valid_transition(KvState::Enabled, false));
    assert!(!KvState::Enabled.is_valid_transition(KvState::Disabled, true));
    assert!(KvState::SoftKill.is_valid_transition(KvState::Disabled, false));
}

#[test]
fn kv_state_names_are_snake_case() {
    assert_eq!(KvState::Disabled.as_str(), "disabled");
    assert_eq!(KvState::Enabled.as_str(), "enabled");
    assert_eq!(KvState::SoftKill.as_str(), "soft_kill");
    assert_eq!(KvState::default(), KvState::Disabled);
}
