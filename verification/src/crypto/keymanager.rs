//! Configuration of the external key manager.

use vstd::prelude::*;

use crate::routes::health::HealthState;

verus! {

/// Whether data keys are managed by an external key manager, and how it is reached.
#[derive(Debug, Clone, PartialEq, Eq)]
pub enum ExternalKeyManagerConfig {
    Disabled,
    Enabled { url: String },
    EnabledWithMtls { url: String, ca_cert: String },
}

impl Default for ExternalKeyManagerConfig {
    fn default() -> (r: Self)
        ensures
            r is Disabled,
    {
        ExternalKeyManagerConfig::Disabled
    }
}

impl ExternalKeyManagerConfig {
    pub fn is_external(&self) -> (r: bool)
        ensures
            r == !(self is Disabled),
    {
        match self {
            ExternalKeyManagerConfig::Disabled => false,
            _ => true,
        }
    }

    pub fn is_mtls_enabled(&self) -> (r: bool)
        ensures
            r == (self is EnabledWithMtls),
    {
        match self {
            ExternalKeyManagerConfig::EnabledWithMtls { .. } => true,
            _ => false,
        }
    }

    /// The key manager's URL, when one is configured.
    pub fn get_url(&self) -> (r: Option<&str>)
        ensures
            match self {
                ExternalKeyManagerConfig::Disabled => r is None,
                ExternalKeyManagerConfig::Enabled { url } => r matches Some(u) && u@ == url@,
                ExternalKeyManagerConfig::EnabledWithMtls { url, .. } => r matches Some(u) && u@
                    == url@,
            },
    {
        match self {
            ExternalKeyManagerConfig::Disabled => None,
            ExternalKeyManagerConfig::Enabled { url } => Some(url.as_str()),
            ExternalKeyManagerConfig::EnabledWithMtls { url, .. } => Some(url.as_str()),
        }
    }

    /// The CA certificate of the mutual-TLS connection, when configured.
    pub fn get_ca_cert(&self) -> (r: Option<&String>)
        ensures
            match self {
                ExternalKeyManagerConfig::EnabledWithMtls { ca_cert, .. } => r == Some(ca_cert),
                _ => r is None,
            },
    {
        match self {
            ExternalKeyManagerConfig::EnabledWithMtls { ca_cert, .. } => Some(ca_cert),
            _ => None,
        }
    }

    /// A configuration is valid when the enabled modes name a URL and the mutual-TLS
    /// mode also a CA certificate.
    pub fn validate(&self) -> (r: Result<(), &'static str>)
        ensures
            match self {
                ExternalKeyManagerConfig::Disabled => r is Ok,
                ExternalKeyManagerConfig::Enabled { url } => r is Ok <==> url@.len() > 0,
                ExternalKeyManagerConfig::EnabledWithMtls { url, ca_cert } => r is Ok <==> (url@.len()
                    > 0 && ca_cert@.len() > 0),
            },
    {
        match self {
            ExternalKeyManagerConfig::Disabled => Ok(()),
            ExternalKeyManagerConfig::Enabled { url } => if url.as_str().is_empty() {
                Err("key manager url must not be empty")
            } else {
                Ok(())
            },
            ExternalKeyManagerConfig::EnabledWithMtls { url, ca_cert } => if url.as_str().is_empty() {
                Err("key manager url must not be empty")
            } else if ca_cert.as_str().is_empty() {
                Err("key manager ca certificate must not be empty")
            } else {
                Ok(())
            },
        }
    }
}

/// The key-manager part of the diagnostics: `Disabled` without an external key manager;
/// otherwise the health check's state, or `Failing` when the check itself failed.
pub fn keymanager_health(config: &ExternalKeyManagerConfig, check: Option<Result<HealthState, ()>>) -> (r:
    HealthState)
    ensures
        config is Disabled ==> r == HealthState::Disabled,
        !(config is Disabled) ==> r == (match check {
            Some(Ok(state)) => state,
            _ => HealthState::Failing,
        }),
{
    if !config.is_external() {
        return HealthState::Disabled;
    }
    match check {
        Some(Ok(state)) => state,
        _ => HealthState::Failing,
    }
}

} // verus!
