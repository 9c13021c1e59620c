//! Mode selection and request dispatch for a review/approval tool that runs
//! either as an interactive desktop popup or as a headless responder to
//! asynchronous review requests.
//!
//! The library decides, for one process invocation, exactly what that
//! invocation will do: the process arguments are classified into an
//! [`intent::Intent`], a pending request consults the remote responder
//! configuration, and [`mode::select`] chooses exactly one
//! [`mode::ExecutionMode`], falling back to the interactive path whenever the
//! configuration cannot be read, so that no request is ever dropped silently.

pub mod config;
pub mod dispatch;
pub mod intent;
pub mod mode;

pub use config::ConfigError;
pub use config::RemoteResponderConfig;
pub use config::resolve_stored_config;
pub use dispatch::ExitOutcome;
pub use dispatch::HeadlessRequestError;
pub use dispatch::exit_code;
pub use dispatch::headless_exit;
pub use dispatch::help_text;
pub use dispatch::version_text;
pub use intent::Intent;
pub use intent::classify;
pub use mode::ExecutionMode;
pub use mode::needs_config;
pub use mode::select;
