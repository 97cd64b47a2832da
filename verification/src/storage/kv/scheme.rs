//! The tri-state KV master switch and its allowed transitions.

use vstd::prelude::*;

verus! {

/// Tri-state KV master switch.
///
/// `ttl_for_kv` must exceed max drainer replay lag — otherwise a KV-only
/// fingerprint can expire in Redis before reaching Postgres.
#[derive(Debug, Clone, Copy, PartialEq, Eq, Structural)]
pub enum KvState {
    Disabled,
    /// Write-through Redis; drainer replays to Postgres.
    Enabled,
    /// Insert to Postgres only; reads prefer Redis.
    SoftKill,
}

impl Default for KvState {
    fn default() -> (r: Self)
        ensures
            r == KvState::Disabled,
    {
        KvState::Disabled
    }
}

/// The state reached when `requested` is asked for in state `current`: a request for the
/// current state changes nothing; the only moves are `Disabled → Enabled` (when a KV
/// backend is reachable), `Enabled → SoftKill` and `SoftKill → Disabled`; any other
/// request leaves the state unchanged.
pub open spec fn kv_transition(current: KvState, requested: KvState, can_enable_kv: bool) -> KvState {
    if current == requested {
        current
    } else if current == KvState::Disabled && requested == KvState::Enabled && can_enable_kv {
        KvState::Enabled
    } else if current == KvState::Enabled && requested == KvState::SoftKill {
        KvState::SoftKill
    } else if current == KvState::SoftKill && requested == KvState::Disabled {
        KvState::Disabled
    } else {
        current
    }
}

/// The snake_case name of a KV state.
pub open spec fn kv_state_name(state: KvState) -> &'static str {
    match state {
        KvState::Disabled => "disabled",
        KvState::Enabled => "enabled",
        KvState::SoftKill => "soft_kill",
    }
}

impl KvState {
    /// The state after asking for `requested`; see [`kv_transition`].
    pub fn apply_transition(self, requested: Self, can_enable_kv: bool) -> (r: Self)
        ensures
            r == kv_transition(self, requested, can_enable_kv),
    {
        match (self, requested) {
            (KvState::Disabled, KvState::Disabled) => KvState::Disabled,
            (KvState::Enabled, KvState::Enabled) => KvState::Enabled,
            (KvState::SoftKill, KvState::SoftKill) => KvState::SoftKill,
            (KvState::Disabled, KvState::Enabled) => if can_enable_kv {
                KvState::Enabled
            } else {
                self
            },
            (KvState::Enabled, KvState::SoftKill) => KvState::SoftKill,
            (KvState::SoftKill, KvState::Disabled) => KvState::Disabled,
            _ => self,
        }
    }

    /// Whether asking for `requested` is honoured, i.e. the transition reaches it.
    pub fn is_valid_transition(self, requested: Self, can_enable_kv: bool) -> (r: bool)
        ensures
            r == (kv_transition(self, requested, can_enable_kv) == requested),
    {
        self.apply_transition(requested, can_enable_kv) == requested
    }

    /// The snake_case name of the state (`disabled`, `enabled`, `soft_kill`).
    pub fn as_str(&self) -> (r: &'static str)
        ensures
            r == kv_state_name(*self),
    {
        match self {
            KvState::Disabled => "disabled",
            KvState::Enabled => "enabled",
            KvState::SoftKill => "soft_kill",
        }
    }
}

/// A transition either stays put or reaches exactly the requested state.
pub proof fn lemma_transition_reaches_current_or_requested(
    current: KvState,
    requested: KvState,
    can_enable_kv: bool,
)
    ensures
        kv_transition(current, requested, can_enable_kv) == current || kv_transition(
            current,
            requested,
            can_enable_kv,
        ) == requested,
{
}

/// Asking for the same state twice has the effect of asking once.
pub proof fn lemma_transition_idempotent(current: KvState, requested: KvState, can_enable_kv: bool)
    ensures
        kv_transition(kv_transition(current, requested, can_enable_kv), requested, can_enable_kv)
            == kv_transition(current, requested, can_enable_kv),
{
}

/// KV is never switched on without a reachable KV backend: from any state other than
/// `Enabled`, the state reached without one is not `Enabled`.
pub proof fn lemma_enable_requires_backend(current: KvState, requested: KvState)
    requires
        current != KvState::Enabled,
    ensures
        kv_transition(current, requested, false) != KvState::Enabled,
{
}

/// Each real change moves one step along the cycle `Disabled → Enabled → SoftKill →
/// Disabled`: KV cannot jump from `Disabled` to `SoftKill` nor from `Enabled` back to
/// `Disabled`.
pub proof fn lemma_transition_follows_cycle(current: KvState, requested: KvState, can_enable_kv: bool)
    ensures
        kv_transition(current, requested, can_enable_kv) != current ==> (match current {
            KvState::Disabled => kv_transition(current, requested, can_enable_kv)
                == KvState::Enabled,
            KvState::Enabled => kv_transition(current, requested, can_enable_kv)
                == KvState::SoftKill,
            KvState::SoftKill => kv_transition(current, requested, can_enable_kv)
                == KvState::Disabled,
        }),
{
}

/// Every move of the cycle is honoured: `Enabled → SoftKill` and `SoftKill → Disabled`
/// whether or not a KV backend is reachable, `Disabled → Enabled` when one is, and a
/// request for the current state keeps it.
pub proof fn lemma_allowed_transitions_are_taken(state: KvState, can_enable_kv: bool)
    ensures
        kv_transition(KvState::Enabled, KvState::SoftKill, can_enable_kv) == KvState::SoftKill,
        kv_transition(KvState::SoftKill, KvState::Disabled, can_enable_kv) == KvState::Disabled,
        kv_transition(KvState::Disabled, KvState::Enabled, true) == KvState::Enabled,
        kv_transition(state, state, can_enable_kv) == state,
{
}

} // verus!
