//! Runtime configuration (`use_replica`, `enable_kv`): admin-key checks, the rules an
//! update must pass, and the status report.

use vstd::prelude::*;

use crate::error::RuntimeConfigError;
use crate::storage::kv::scheme::{kv_state_name, kv_transition, KvState};
use crate::storage::KvRuntimeConfigValues;
use crate::text::{concat, to_owned_string};
use vstd::string::StringExecFns;

verus! {

/// The key identifying the runtime config in both Postgres and Redis.
pub const CONFIG_KEY: &'static str = "runtime_config";

/// Whether runtime configuration is switched on, and with which admin key.
#[derive(Debug, Clone, PartialEq, Eq)]
pub enum RuntimeConfig {
    Enabled { admin_api_key: String },
    Disabled,
}

impl RuntimeConfig {
    pub fn is_enabled(&self) -> (r: bool)
        ensures
            r == (self is Enabled),
    {
        match self {
            RuntimeConfig::Enabled { .. } => true,
            RuntimeConfig::Disabled => false,
        }
    }
}

#[derive(Debug, Clone, Copy, PartialEq, Eq, Structural)]
pub enum RuntimeConfigStatusKind {
    Disabled,
    NotConfigured,
    Available,
    Invalid,
}

/// Status of one runtime config: its kind and, when available, its JSON text.
#[derive(Debug, Clone, PartialEq, Eq)]
pub struct RuntimeConfigStatus {
    pub status: RuntimeConfigStatusKind,
    pub config: Option<String>,
}

/// Whether `text` parses as a JSON document, as `serde_json` reads it.
pub uninterp spec fn is_json_document(text: Seq<char>) -> bool;

/// Wraps `serde_json::from_str::<serde_json::Value>`: whether `text` parses as JSON.
#[verifier::external_body]
fn parses_as_json(text: &str) -> (r: bool)
    ensures
        r == is_json_document(text@),
{
    serde_json::from_str::<serde_json::Value>(text).is_ok()
}

/// Whether two byte strings are equal, in time that depends only on their lengths.
pub fn constant_time_eq(a: &[u8], b: &[u8]) -> (r: bool)
    ensures
        r == (a@ == b@),
{
    if a.len() != b.len() {
        return false;
    }
    let mut diff: u8 = 0;
    let mut i: usize = 0;
    assert(a@.take(0) == b@.take(0));
    while i < a.len()
        invariant
            a@.len() == b@.len(),
            i <= a@.len(),
            (diff == 0) == (a@.take(i as int) == b@.take(i as int)),
        decreases a@.len() - i,
    {
        let x = a[i];
        let y = b[i];
        let next = diff | (x ^ y);
        assert(((diff | (x ^ y)) == 0) == (diff == 0 && x == y)) by (bit_vector);
        assert(a@.take(i + 1) == a@.take(i as int).push(x));
        assert(b@.take(i + 1) == b@.take(i as int).push(y));
        proof {
            if a@.take(i as int) == b@.take(i as int) && x == y {
                assert(a@.take(i + 1) == b@.take(i + 1));
            }
            if a@.take(i + 1) == b@.take(i + 1) {
                assert(a@.take(i + 1).drop_last() == a@.take(i as int));
                assert(b@.take(i + 1).drop_last() == b@.take(i as int));
                assert(a@.take(i + 1)[i as int] == x);
                assert(b@.take(i + 1)[i as int] == y);
            }
        }
        diff = next;
        i = i + 1;
    }
    assert(a@.take(a@.len() as int) == a@);
    assert(b@.take(b@.len() as int) == b@);
    diff == 0
}

/// Manages runtime configuration backed by the per-tenant `configs` table with a
/// read-through per-tenant Redis cache.
#[derive(Debug, Clone, PartialEq, Eq)]
pub struct RuntimeConfigManager {
    pub admin_api_key: String,
}

/// The status of a runtime config from its raw stored text: none stored is
/// `NotConfigured`, valid JSON is `Available` (with the text), anything else `Invalid`.
pub open spec fn runtime_config_status_of(raw: Option<Seq<char>>) -> (RuntimeConfigStatusKind, Option<Seq<char>>) {
    match raw {
        None => (RuntimeConfigStatusKind::NotConfigured, None),
        Some(text) => if is_json_document(text) {
            (RuntimeConfigStatusKind::Available, Some(text))
        } else {
            (RuntimeConfigStatusKind::Invalid, None)
        },
    }
}

/// The error text of a refused KV transition: `<current> -> <requested>`.
pub open spec fn transition_text(current: KvState, requested: KvState) -> Seq<char> {
    kv_state_name(current)@ + " -> "@ + kv_state_name(requested)@
}

/// The next action when validating a `use_replica` request.
#[derive(Debug, Clone, PartialEq, Eq)]
pub enum ReplicaEnablementStep {
    Accepted,
    /// Acquire a replica connection and report whether it succeeded.
    ProbeReplica,
    Rejected(RuntimeConfigError),
}

impl RuntimeConfigManager {
    /// A manager exists only when runtime config is enabled, holding its admin key.
    pub fn new(config: &RuntimeConfig) -> (r: Option<Self>)
        ensures
            match config {
                RuntimeConfig::Enabled { admin_api_key } => r matches Some(m) && m.admin_api_key
                    == admin_api_key,
                RuntimeConfig::Disabled => r is None,
            },
    {
        match config {
            RuntimeConfig::Enabled { admin_api_key } => Some(
                RuntimeConfigManager { admin_api_key: admin_api_key.clone() },
            ),
            RuntimeConfig::Disabled => None,
        }
    }

    /// Constant-time comparison of a candidate API key against the configured admin key.
    pub fn verify_admin_api_key(&self, candidate: &str) -> (r: bool)
        ensures
            r == (self.admin_api_key@ == candidate@),
    {
        let expected = self.admin_api_key.as_str().as_bytes();
        let given = candidate.as_bytes();
        proof {
            vstd::utf8::encode_utf8_decode_utf8(self.admin_api_key@);
            vstd::utf8::encode_utf8_decode_utf8(candidate@);
        }
        constant_time_eq(expected, given)
    }

    /// The current status from the raw stored config text.
    pub fn status_from_raw(raw: Option<String>) -> (r: RuntimeConfigStatus)
        ensures
            (r.status, r.config.deep_view()) == runtime_config_status_of(raw.deep_view()),
    {
        match raw {
            None => RuntimeConfigStatus { status: RuntimeConfigStatusKind::NotConfigured, config: None },
            Some(text) => if parses_as_json(text.as_str()) {
                RuntimeConfigStatus { status: RuntimeConfigStatusKind::Available, config: Some(text) }
            } else {
                RuntimeConfigStatus { status: RuntimeConfigStatusKind::Invalid, config: None }
            },
        }
    }

    /// Rejects an illegal KV state transition against the persisted state (`Disabled`
    /// when none can be read). `Disabled → Enabled` also requires a reachable Redis.
    pub fn validate_kv_transition(
        current: Option<KvState>,
        requested: KvState,
        can_enable_kv: bool,
    ) -> (r: Result<(), RuntimeConfigError>)
        ensures
            ({
                let cur = match current {
                    Some(s) => s,
                    None => KvState::Disabled,
                };
                &&& kv_transition(cur, requested, can_enable_kv) == requested ==> r == Ok::<
                    (),
                    RuntimeConfigError,
                >(())
                &&& kv_transition(cur, requested, can_enable_kv) != requested ==> (r matches Err(
                    RuntimeConfigError::InvalidStateTransition(text),
                ) && text@ == transition_text(cur, requested))
            }),
    {
        let current = match current {
            Some(s) => s,
            None => KvState::Disabled,
        };
        if current.is_valid_transition(requested, can_enable_kv) {
            return Ok(());
        }
        let mut text = concat(current.as_str(), " -> ");
        text.append(requested.as_str());
        Err(RuntimeConfigError::InvalidStateTransition(text))
    }

    /// First step of validating `use_replica`: turning it off is always accepted;
    /// turning it on needs a configured replica, which is then probed.
    pub fn validate_replica_enablement(requested_use_replica: bool, has_replica: bool) -> (r:
        ReplicaEnablementStep)
        ensures
            !requested_use_replica ==> r == ReplicaEnablementStep::Accepted,
            requested_use_replica && !has_replica ==> r == ReplicaEnablementStep::Rejected(
                RuntimeConfigError::NoReplicaConfigured,
            ),
            requested_use_replica && has_replica ==> r == ReplicaEnablementStep::ProbeReplica,
    {
        if !requested_use_replica {
            ReplicaEnablementStep::Accepted
        } else if !has_replica {
            ReplicaEnablementStep::Rejected(RuntimeConfigError::NoReplicaConfigured)
        } else {
            ReplicaEnablementStep::ProbeReplica
        }
    }

    /// Last step of validating `use_replica`: an unreachable replica is refused.
    pub fn replica_probe_result(reachable: bool) -> (r: Result<(), RuntimeConfigError>)
        ensures
            reachable ==> r == Ok::<(), RuntimeConfigError>(()),
            !reachable ==> r == Err::<(), RuntimeConfigError>(RuntimeConfigError::ReplicaUnreachable),
    {
        if reachable {
            Ok(())
        } else {
            Err(RuntimeConfigError::ReplicaUnreachable)
        }
    }
}

/// What remains of an accepted runtime config update before it is persisted.
#[derive(Debug, Clone, Copy, PartialEq, Eq, Structural)]
pub enum UpdateAction {
    /// Upsert the config, then invalidate its cache entry.
    Persist,
    /// Probe the replica (refusing the update when it is unreachable), then persist.
    ProbeReplicaThenPersist,
}

/// The first step of a runtime-config manager's start-up, after looking for a stored
/// config.
#[derive(Debug, Clone, Copy, PartialEq, Eq, Structural)]
pub enum InitStep {
    /// A config is stored: only warm the cache.
    WarmCache,
    /// No config is stored: seed these (fail-closed) values, then warm the cache.
    SeedDefault(KvRuntimeConfigValues),
}

impl RuntimeConfigManager {
    /// Start-up: a missing config is seeded with the defaults (KV disabled, replica off).
    pub fn init_after_find(config_exists: bool) -> (r: InitStep)
        ensures
            config_exists ==> r == InitStep::WarmCache,
            !config_exists ==> r == InitStep::SeedDefault(
                KvRuntimeConfigValues { enable_kv: KvState::Disabled, use_replica: false },
            ),
    {
        if config_exists {
            InitStep::WarmCache
        } else {
            InitStep::SeedDefault(KvRuntimeConfigValues::default())
        }
    }

    /// The checks of an update to `requested`, in order: the KV state transition from
    /// the persisted state (`Disabled` when none can be read), then the replica switch.
    pub fn check_update(
        current: Option<KvState>,
        requested: KvRuntimeConfigValues,
        can_enable_kv: bool,
        has_replica: bool,
    ) -> (r: Result<UpdateAction, RuntimeConfigError>)
        ensures
            ({
                let cur = match current {
                    Some(s) => s,
                    None => KvState::Disabled,
                };
                &&& kv_transition(cur, requested.enable_kv, can_enable_kv) != requested.enable_kv
                    ==> (r matches Err(RuntimeConfigError::InvalidStateTransition(text)) && text@
                    == transition_text(cur, requested.enable_kv))
                &&& kv_transition(cur, requested.enable_kv, can_enable_kv) == requested.enable_kv
                    ==> r == (if !requested.use_replica {
                    Ok::<UpdateAction, RuntimeConfigError>(UpdateAction::Persist)
                } else if !has_replica {
                    Err(RuntimeConfigError::NoReplicaConfigured)
                } else {
                    Ok(UpdateAction::ProbeReplicaThenPersist)
                })
            }),
    {
        match Self::validate_kv_transition(current, requested.enable_kv, can_enable_kv) {
            Err(e) => Err(e),
            Ok(()) => match Self::validate_replica_enablement(requested.use_replica, has_replica) {
                ReplicaEnablementStep::Accepted => Ok(UpdateAction::Persist),
                ReplicaEnablementStep::ProbeReplica => Ok(UpdateAction::ProbeReplicaThenPersist),
                ReplicaEnablementStep::Rejected(e) => Err(e),
            },
        }
    }
}

/// An accepted KV state update leaves the persisted state reachable from the current
/// one by the allowed transitions: the request is honoured exactly when the transition
/// table reaches it.
pub proof fn lemma_accepted_update_is_allowed_transition(
    current: KvState,
    requested: KvState,
    can_enable_kv: bool,
)
    ensures
        kv_transition(current, requested, can_enable_kv) == requested ==> (current == requested || (
        current == KvState::Disabled && requested == KvState::Enabled && can_enable_kv) || (current
            == KvState::Enabled && requested == KvState::SoftKill) || (current == KvState::SoftKill
            && requested == KvState::Disabled)),
{
}

} // verus!
