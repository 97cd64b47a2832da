//! Health and diagnostics reports.

use vstd::prelude::*;

use crate::crypto::keymanager::{keymanager_health, ExternalKeyManagerConfig};
use crate::error::TestDBError;
use crate::text::to_owned_string;

verus! {

#[derive(Debug, Clone, PartialEq, Eq)]
pub struct HealthRespPayload {
    pub message: String,
}

/// The `/health` reply.
pub fn health() -> (r: HealthRespPayload)
    ensures
        r.message@ == "Health is good"@,
{
    HealthRespPayload { message: to_owned_string("Health is good") }
}

#[derive(Debug, Clone, Copy, PartialEq, Eq, Structural)]
pub enum HealthState {
    Working,
    Failing,
    Disabled,
}

impl Default for HealthState {
    fn default() -> (r: Self)
        ensures
            r == HealthState::Failing,
    {
        HealthState::Failing
    }
}

/// Health of each database stage, in the order the self-test runs them.
#[derive(Debug, Clone, Copy, PartialEq, Eq, Structural)]
pub struct DatabaseHealth {
    pub database_connection: HealthState,
    pub database_read: HealthState,
    pub database_write: HealthState,
    pub database_delete: HealthState,
}

impl Default for DatabaseHealth {
    fn default() -> (r: Self)
        ensures
            r == (DatabaseHealth {
                database_connection: HealthState::Failing,
                database_read: HealthState::Failing,
                database_write: HealthState::Failing,
                database_delete: HealthState::Failing,
            }),
    {
        DatabaseHealth {
            database_connection: HealthState::Failing,
            database_read: HealthState::Failing,
            database_write: HealthState::Failing,
            database_delete: HealthState::Failing,
        }
    }
}

#[derive(Debug, Clone, Copy, PartialEq, Eq, Structural)]
pub struct Diagnostics {
    pub key_custodian_locked: bool,
    pub database: DatabaseHealth,
    pub keymanager_status: HealthState,
}

/// The number of self-test stages (connect, read, write, delete) that passed.
pub open spec fn stages_passed(test: Result<(), TestDBError>) -> int {
    match test {
        Ok(()) => 4,
        Err(TestDBError::DBDeleteError) => 3,
        Err(TestDBError::DBWriteError) => 2,
        Err(TestDBError::DBReadError) => 1,
        Err(_) => 0,
    }
}

pub open spec fn state_of_stage(passed: int, stage: int) -> HealthState {
    if stage < passed {
        HealthState::Working
    } else {
        HealthState::Failing
    }
}

/// Database health from the outcome of the self-test: every stage before the failing
/// one works, the failing stage and those after it are failing.
pub fn database_health(test: Result<(), TestDBError>) -> (r: DatabaseHealth)
    ensures
        r.database_connection == state_of_stage(stages_passed(test), 0),
        r.database_read == state_of_stage(stages_passed(test), 1),
        r.database_write == state_of_stage(stages_passed(test), 2),
        r.database_delete == state_of_stage(stages_passed(test), 3),
{
    match test {
        Ok(()) => DatabaseHealth {
            database_connection: HealthState::Working,
            database_read: HealthState::Working,
            database_write: HealthState::Working,
            database_delete: HealthState::Working,
        },
        Err(TestDBError::DBReadError) => DatabaseHealth {
            database_connection: HealthState::Working,
            ..DatabaseHealth::default()
        },
        Err(TestDBError::DBWriteError) => DatabaseHealth {
            database_connection: HealthState::Working,
            database_read: HealthState::Working,
            ..DatabaseHealth::default()
        },
        Err(TestDBError::DBDeleteError) => DatabaseHealth {
            database_connection: HealthState::Working,
            database_write: HealthState::Working,
            database_read: HealthState::Working,
            ..DatabaseHealth::default()
        },
        Err(_) => DatabaseHealth::default(),
    }
}

/// The `/health/diagnostics` report: database health from the self-test outcome; the
/// key manager is `Disabled` without an external key manager, otherwise the state its
/// health check (`keymanager_check`, made only then) reported, or `Failing` when the
/// check itself failed.
pub fn diagnostics(
    db_test: Result<(), TestDBError>,
    keymanager: &ExternalKeyManagerConfig,
    keymanager_check: Option<Result<HealthState, ()>>,
) -> (r: Diagnostics)
    ensures
        r.key_custodian_locked == false,
        r.database.database_connection == state_of_stage(stages_passed(db_test), 0),
        r.database.database_read == state_of_stage(stages_passed(db_test), 1),
        r.database.database_write == state_of_stage(stages_passed(db_test), 2),
        r.database.database_delete == state_of_stage(stages_passed(db_test), 3),
        keymanager is Disabled ==> r.keymanager_status == HealthState::Disabled,
        !(keymanager is Disabled) ==> r.keymanager_status == (match keymanager_check {
            Some(Ok(state)) => state,
            _ => HealthState::Failing,
        }),
{
    Diagnostics {
        key_custodian_locked: false,
        database: database_health(db_test),
        keymanager_status: keymanager_health(keymanager, keymanager_check),
    }
}

/// A later database stage is reported working only when every earlier stage is.
pub proof fn lemma_database_health_monotone(test: Result<(), TestDBError>, earlier: int, later: int)
    requires
        0 <= earlier <= later < 4,
        state_of_stage(stages_passed(test), later) == HealthState::Working,
    ensures
        state_of_stage(stages_passed(test), earlier) == HealthState::Working,
{
}

/// The self-test runs connect, read, write and delete in that order and stops at the
/// first stage that fails: the stage an error names is reported failing together with
/// every later stage, and every earlier stage is reported working; a passing test
/// reports every stage working.
pub proof fn lemma_database_health_names_the_failing_stage(test: Result<(), TestDBError>)
    ensures
        test is Ok ==> (forall|i: int|
            0 <= i < 4 ==> state_of_stage(stages_passed(test), i) == HealthState::Working),
        test == Err::<(), TestDBError>(TestDBError::DBConnectError) ==> (forall|i: int|
            0 <= i < 4 ==> state_of_stage(stages_passed(test), i) == HealthState::Failing),
        test == Err::<(), TestDBError>(TestDBError::DBReadError) ==> (state_of_stage(
            stages_passed(test),
            0,
        ) == HealthState::Working && forall|i: int|
            1 <= i < 4 ==> state_of_stage(stages_passed(test), i) == HealthState::Failing),
        test == Err::<(), TestDBError>(TestDBError::DBWriteError) ==> (forall|i: int|
            0 <= i < 2 ==> state_of_stage(stages_passed(test), i) == HealthState::Working)
            && (forall|i: int|
            2 <= i < 4 ==> state_of_stage(stages_passed(test), i) == HealthState::Failing),
        test == Err::<(), TestDBError>(TestDBError::DBDeleteError) ==> (forall|i: int|
            0 <= i < 3 ==> state_of_stage(stages_passed(test), i) == HealthState::Working)
            && state_of_stage(stages_passed(test), 3) == HealthState::Failing,
        test == Err::<(), TestDBError>(TestDBError::UnknownError) ==> (forall|i: int|
            0 <= i < 4 ==> state_of_stage(stages_passed(test), i) == HealthState::Failing),
{
}

} // verus!
