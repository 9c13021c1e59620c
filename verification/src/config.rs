//! The remote responder configuration: the two flags that gate the headless
//! path, and the error raised when the backing store cannot be read.

use vstd::prelude::*;

verus! {

/// The minimal configuration subset needed to route a pending request: whether
/// the remote responder is enabled, and whether it suppresses the local popup.
/// Loaded fresh for each decision; never cached across invocations.
#[derive(Clone, Copy, PartialEq, Eq, Structural, Debug)]
pub struct RemoteResponderConfig {
    pub enabled: bool,
    pub suppress_local_popup: bool,
}

impl Default for RemoteResponderConfig {
    /// Both flags off: the configuration that an absent store stands for.
    fn default() -> (config: Self)
        ensures
            !config.enabled,
            !config.suppress_local_popup,
    {
        RemoteResponderConfig { enabled: false, suppress_local_popup: false }
    }
}

/// Raised only when the backing store genuinely fails: it is unreadable, or
/// its contents are malformed. An absent store is not an error.
#[derive(Clone, Copy, PartialEq, Eq, Structural, Debug)]
pub enum ConfigError {
    Unreadable,
    Malformed,
}

/// What a raw read of the backing store resolves to: a stored configuration is
/// taken as it is, an absent store yields a configuration with both flags off,
/// and only a genuine read or parse failure stays an error.
pub open spec fn resolve_stored_config_spec(
    stored: Result<Option<RemoteResponderConfig>, ConfigError>,
) -> Result<RemoteResponderConfig, ConfigError> {
    match stored {
        Ok(Some(config)) => Ok(config),
        Ok(None) => Ok(RemoteResponderConfig { enabled: false, suppress_local_popup: false }),
        Err(error) => Err(error),
    }
}

/// Resolves the outcome of a raw store read into the loaded configuration.
///
/// Absence of a stored configuration and a load error are distinct surfaces:
/// absence still produces a valid configuration with both flags off, while a
/// read or parse failure is passed through unchanged.
pub fn resolve_stored_config(stored: Result<Option<RemoteResponderConfig>, ConfigError>) -> (loaded:
    Result<RemoteResponderConfig, ConfigError>)
    ensures
        loaded == resolve_stored_config_spec(stored),
{
    match stored {
        Ok(Some(config)) => Ok(config),
        Ok(None) => Ok(RemoteResponderConfig { enabled: false, suppress_local_popup: false }),
        Err(error) => Err(error),
    }
}

} // verus!
