use vstd::prelude::*;
use crate::config::AppConfig;

verus! {

#[derive(Debug, Clone, Copy, PartialEq, Eq, Structural)]
pub enum ValidationError {
    /// `listen_port` is zero.
    InvalidPort,
    /// The heartbeat timeout is not longer than the heartbeat interval.
    InvalidHeartbeatWindow,
}

impl ValidationError {
    /// The message that explains the error.
    pub fn message(&self) -> (m: &'static str)
        ensures
            m@ == match self {
                ValidationError::InvalidPort => "listen_port must be non-zero"@,
                ValidationError::InvalidHeartbeatWindow => "heartbeat timeout must be greater than interval"@,
            },
    {
        match self {
            ValidationError::InvalidPort => "listen_port must be non-zero",
            ValidationError::InvalidHeartbeatWindow => "heartbeat timeout must be greater than interval",
        }
    }
}

/// What `validate_app_config` accepts: a listening port, and a heartbeat
/// timeout longer than the heartbeat interval.
pub open spec fn config_is_valid(config: &AppConfig) -> bool {
    config.network.listen_port != 0 && config.network.heartbeat_timeout_ms
        > config.network.heartbeat_interval_ms
}

/// Accepts a configuration with a listening port and a heartbeat timeout
/// longer than the heartbeat interval; the port is checked first.
pub fn validate_app_config(config: &AppConfig) -> (res: Result<(), ValidationError>)
    ensures
        match res {
            Ok(()) => config_is_valid(config),
            Err(ValidationError::InvalidPort) => config.network.listen_port == 0,
            Err(ValidationError::InvalidHeartbeatWindow) => config.network.listen_port != 0
                && config.network.heartbeat_timeout_ms <= config.network.heartbeat_interval_ms,
        },
{
    if config.network.listen_port == 0 {
        return Err(ValidationError::InvalidPort);
    }
    if config.network.heartbeat_timeout_ms <= config.network.heartbeat_interval_ms {
        return Err(ValidationError::InvalidHeartbeatWindow);
    }
    Ok(())
}

/// The configuration a fresh installation starts from is accepted.
pub proof fn lemma_default_config_is_valid(config: &AppConfig)
    requires
        crate::config::defaults::is_default_config(config),
    ensures
        config_is_valid(config),
{
}

} // verus!
