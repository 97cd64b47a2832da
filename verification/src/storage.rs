//! Storage layer: the storage-scheme and KV routing rules, Redis key derivation, the
//! database connection settings and the row models.

pub mod caching;
pub mod consts;
pub mod kv;
pub mod redis;
pub mod scheme;
pub mod storage_v2;
pub mod types;
pub mod utils;

use vstd::prelude::*;
use vstd::string::StringExecFns;

pub use self::scheme::StorageScheme;
use self::kv::scheme::KvState;
use crate::error::StorageError;
use crate::runtime_config::{
    RuntimeConfig, RuntimeConfigManager, RuntimeConfigStatus, RuntimeConfigStatusKind, CONFIG_KEY,
};
use crate::text::{concat, decimal_string, decimal_text};

verus! {

/// The `kv_config` runtime config: the KV master switch and read-replica routing. Both
/// fail closed when absent.
#[derive(Debug, Clone, Copy, PartialEq, Eq, Structural)]
pub struct KvRuntimeConfigValues {
    pub enable_kv: KvState,
    pub use_replica: bool,
}

impl Default for KvRuntimeConfigValues {
    fn default() -> (r: Self)
        ensures
            r == (KvRuntimeConfigValues { enable_kv: KvState::Disabled, use_replica: false }),
    {
        KvRuntimeConfigValues { enable_kv: KvState::Disabled, use_replica: false }
    }
}

/// Status response for `GET /health/runtime-config`: one entry per registered runtime
/// config, keyed by its config key.
#[derive(Debug, Clone, PartialEq, Eq)]
pub struct StorageRuntimeConfigStatus {
    pub runtime_config: Vec<(&'static str, RuntimeConfigStatus)>,
}

/// The runtime-config health report of a tenant: one entry, under the config key, with
/// the config's status, or `Disabled` when runtime config is switched off (no manager).
pub fn runtime_config_status_report(status: Option<RuntimeConfigStatus>) -> (r:
    StorageRuntimeConfigStatus)
    ensures
        r.runtime_config@.len() == 1,
        r.runtime_config@[0].0 == CONFIG_KEY,
        r.runtime_config@[0].1 == (match status {
            Some(s) => s,
            None => RuntimeConfigStatus { status: RuntimeConfigStatusKind::Disabled, config: None },
        }),
{
    let entry = match status {
        Some(s) => s,
        None => RuntimeConfigStatus { status: RuntimeConfigStatusKind::Disabled, config: None },
    };
    let mut runtime_config: Vec<(&'static str, RuntimeConfigStatus)> = Vec::new();
    runtime_config.push((CONFIG_KEY, entry));
    StorageRuntimeConfigStatus { runtime_config }
}

/// The KV state of a tenant: the configured switch, or `Disabled` when the runtime
/// config cannot be read (fail closed).
pub fn kv_settings(values: Option<KvRuntimeConfigValues>) -> (r: KvState)
    ensures
        r == (match values {
            Some(v) => v.enable_kv,
            None => KvState::Disabled,
        }),
{
    match values {
        Some(v) => v.enable_kv,
        None => KvState::Disabled,
    }
}

/// Whether the runtime config enables replica reads (off when it cannot be read).
pub open spec fn replica_reads_enabled(values: Option<KvRuntimeConfigValues>) -> bool {
    match values {
        Some(v) => v.use_replica,
        None => false,
    }
}

/// Replica reads are used only when a replica pool exists and the runtime config
/// enables them; an unreadable config keeps them off.
pub fn should_use_replica(has_replica: bool, values: Option<KvRuntimeConfigValues>) -> (r: bool)
    ensures
        r == (has_replica && replica_reads_enabled(values)),
{
    has_replica && match values {
        Some(v) => v.use_replica,
        None => false,
    }
}

/// A database connection pool.
#[derive(Debug, Clone, Copy, PartialEq, Eq, Structural)]
pub enum DbPool {
    Primary,
    Replica,
}

impl DbPool {
    /// The metric label of the pool.
    pub fn as_str(&self) -> (r: &'static str)
        ensures
            r == (match self {
                DbPool::Primary => "primary",
                DbPool::Replica => "replica",
            }),
    {
        match self {
            DbPool::Primary => "primary",
            DbPool::Replica => "replica",
        }
    }
}

/// A kind of database query.
#[derive(Debug, Clone, Copy, PartialEq, Eq, Structural)]
pub enum DbOperation {
    Insert,
    Update,
    Delete,
    FindOne,
    Filter,
}

impl DbOperation {
    /// The metric label of the operation.
    pub fn as_str(&self) -> (r: &'static str)
        ensures
            r == (match self {
                DbOperation::Insert => "insert",
                DbOperation::Update => "update",
                DbOperation::Delete => "delete",
                DbOperation::FindOne => "find_one",
                DbOperation::Filter => "filter",
            }),
    {
        match self {
            DbOperation::Insert => "insert",
            DbOperation::Update => "update",
            DbOperation::Delete => "delete",
            DbOperation::FindOne => "find_one",
            DbOperation::Filter => "filter",
        }
    }
}

/// The pool a read is routed to.
pub fn route_pool(use_replica: bool) -> (r: DbPool)
    ensures
        r == (if use_replica {
            DbPool::Replica
        } else {
            DbPool::Primary
        }),
{
    if use_replica {
        DbPool::Replica
    } else {
        DbPool::Primary
    }
}

/// The pool of an explicit replica request: refused when no replica was configured.
pub fn replica_pool(has_replica: bool) -> (r: Result<DbPool, StorageError>)
    ensures
        has_replica ==> r == Ok::<DbPool, StorageError>(DbPool::Replica),
        !has_replica ==> r == Err::<DbPool, StorageError>(StorageError::ReplicaPoolNotConfigured),
{
    if has_replica {
        Ok(DbPool::Replica)
    } else {
        Err(StorageError::ReplicaPoolNotConfigured)
    }
}

/// The runtime-config manager of a new storage handle: one exists only when Redis is
/// configured (the manager is never operated without its read-through cache); runtime
/// config enabled without Redis is a setup error.
pub fn runtime_config_manager_for(has_redis: bool, runtime_config: &RuntimeConfig) -> (r: Result<
    Option<RuntimeConfigManager>,
    StorageError,
>)
    ensures
        has_redis ==> (match runtime_config {
            RuntimeConfig::Enabled { admin_api_key } => r matches Ok(Some(m)) && m.admin_api_key
                == admin_api_key,
            RuntimeConfig::Disabled => r == Ok::<Option<RuntimeConfigManager>, StorageError>(None),
        }),
        !has_redis ==> (if runtime_config is Enabled {
            r == Err::<Option<RuntimeConfigManager>, StorageError>(
                StorageError::InitializationError(
                    "runtime_config is enabled but Redis is not configured",
                ),
            )
        } else {
            r == Ok::<Option<RuntimeConfigManager>, StorageError>(None)
        }),
{
    if has_redis {
        Ok(RuntimeConfigManager::new(runtime_config))
    } else if runtime_config.is_enabled() {
        Err(
            StorageError::InitializationError(
                "runtime_config is enabled but Redis is not configured",
            ),
        )
    } else {
        Ok(None)
    }
}

/// Default maximum lifetime (seconds) of a pooled DB connection
pub const DEFAULT_DB_POOL_MAX_LIFETIME_SECS: u64 = 120;

/// Default minimum number of idle connections maintained in the DB pool
pub const DEFAULT_DB_POOL_MIN_IDLE: u32 = 2;

/// Default idle timeout (seconds) for a pooled DB connection
pub const DEFAULT_DB_POOL_IDLE_TIMEOUT_SECS: u64 = 300;

/// Default timeout (seconds) for acquiring a connection from the DB pool
pub const DEFAULT_DB_POOL_CONNECTION_TIMEOUT_SECS: u64 = 10;

/// Database connection configuration.
#[derive(Debug, Clone, PartialEq, Eq)]
pub struct Database {
    pub username: String,
    pub password: String,
    pub host: String,
    pub port: u16,
    pub dbname: String,
    pub pool_size: Option<u32>,
    pub min_idle: Option<u32>,
    pub max_lifetime: Option<u64>,
    pub idle_timeout: Option<u64>,
    pub connection_timeout: Option<u64>,
}

/// The settings a connection pool is built with.
#[derive(Debug, Clone, Copy, PartialEq, Eq, Structural)]
pub struct PoolSettings {
    pub max_size: Option<u32>,
    pub min_idle: u32,
    pub max_lifetime_secs: u64,
    pub idle_timeout_secs: u64,
    pub connection_timeout_secs: u64,
}

pub open spec fn or_default<T>(value: Option<T>, default: T) -> T {
    match value {
        Some(v) => v,
        None => default,
    }
}

/// The pool settings of a database configuration: the configured size, and each
/// timing option or its default.
pub fn pool_settings(config: &Database) -> (r: PoolSettings)
    ensures
        r == (PoolSettings {
            max_size: config.pool_size,
            min_idle: or_default(config.min_idle, DEFAULT_DB_POOL_MIN_IDLE),
            max_lifetime_secs: or_default(config.max_lifetime, DEFAULT_DB_POOL_MAX_LIFETIME_SECS),
            idle_timeout_secs: or_default(config.idle_timeout, DEFAULT_DB_POOL_IDLE_TIMEOUT_SECS),
            connection_timeout_secs: or_default(
                config.connection_timeout,
                DEFAULT_DB_POOL_CONNECTION_TIMEOUT_SECS,
            ),
        }),
{
    PoolSettings {
        max_size: config.pool_size,
        min_idle: match config.min_idle {
            Some(v) => v,
            None => DEFAULT_DB_POOL_MIN_IDLE,
        },
        max_lifetime_secs: match config.max_lifetime {
            Some(v) => v,
            None => DEFAULT_DB_POOL_MAX_LIFETIME_SECS,
        },
        idle_timeout_secs: match config.idle_timeout {
            Some(v) => v,
            None => DEFAULT_DB_POOL_IDLE_TIMEOUT_SECS,
        },
        connection_timeout_secs: match config.connection_timeout {
            Some(v) => v,
            None => DEFAULT_DB_POOL_CONNECTION_TIMEOUT_SECS,
        },
    }
}

/// The PostgreSQL connection URL of a database configuration whose connections use
/// `schema` as application name and search path.
pub open spec fn database_url_text(config: Database, schema: Seq<char>) -> Seq<char> {
    "postgres://"@ + config.username@ + ":"@ + config.password@ + "@"@ + config.host@ + ":"@
        + decimal_text(config.port as nat) + "/"@ + config.dbname@ + "?application_name="@ + schema
        + "&options=-c search_path%3D"@ + schema
}

/// The PostgreSQL connection URL; see [`database_url_text`].
pub fn database_url(config: &Database, schema: &str) -> (r: String)
    ensures
        r@ == database_url_text(*config, schema@),
{
    let port = decimal_string(config.port as u64);
    let mut url = concat("postgres://", config.username.as_str());
    url.append(":");
    url.append(config.password.as_str());
    url.append("@");
    url.append(config.host.as_str());
    url.append(":");
    url.append(port.as_str());
    url.append("/");
    url.append(config.dbname.as_str());
    url.append("?application_name=");
    url.append(schema);
    url.append("&options=-c search_path%3D");
    url.append(schema);
    url
}

} // verus!

verus! {

/// Cache key and value types of a cached table.
pub trait Cacheable<Table> {
    type Key;
    type Value;
}

} // verus!
