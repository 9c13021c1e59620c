use cunzhi_core::ConfigError;
use cunzhi_core::ExecutionMode;
use cunzhi_core::Intent;
use cunzhi_core::RemoteResponderConfig;
use cunzhi_core::needs_config;
use cunzhi_core::select;

fn request(path: &str) -> Intent {
    Intent::HandleRequest { request_path: path.to_string() }
}

fn config(enabled: bool, suppress_local_popup: bool) -> RemoteResponderConfig {
    RemoteResponderConfig { enabled, suppress_local_popup }
}

#[test]
fn unreadable_config_falls_open_to_interactive() {
    let mode = select(request("/tmp/req.json"), Err(ConfigError::Unreadable));
    assert_eq!(
        mode,
        ExecutionMode::InteractiveApp { pending_request: Some("/tmp/req.json".to_string()) }
    );
}

#[test]
fn malformed_config_falls_open_to_interactive() {
    let mode = select(request("/tmp/req.json"), Err(ConfigError::Malformed));
    assert_eq!(
        mode,
        ExecutionMode::InteractiveApp { pending_request: Some("/tmp/req.json".to_string()) }
    );
}

#[test]
fn enabled_and_suppressed_selects_headless() {
    let mode = select(request("/tmp/req.json"), Ok(config(true, true)));
    assert_eq!(mode, ExecutionMode::HeadlessRespond { request_path: "/tmp/req.json".to_string() });
}

#[test]
fn enabled_without_suppression_keeps_interactive() {
    let mode = select(request("/tmp/req.json"), Ok(config(true, false)));
    assert_eq!(
        mode,
        ExecutionMode::InteractiveApp { pending_request: Some("/tmp/req.json".to_string()) }
    );
}

#[test]
fn disabled_with_suppression_keeps_interactive() {
    let mode = select(request("/tmp/req.json"), Ok(config(false, true)));
    assert_eq!(
        mode,
        ExecutionMode::InteractiveApp { pending_request: Some("/tmp/req.json".to_string()) }
    );
}

#[test]
fn disabled_without_suppression_keeps_interactive() {
    let mode = select(request("/tmp/req.json"), Ok(config(false, false)));
    assert_eq!(
        mode,
        ExecutionMode::InteractiveApp { pending_request: Some("/tmp/req.json".to_string()) }
    );
}

#[test]
fn show_help_maps_to_print_help() {
    let mode = select(Intent::ShowHelp, Ok(config(true, true)));
    assert_eq!(mode, ExecutionMode::PrintHelp);
}

#[test]
fn show_version_maps_to_print_version() {
    let mode = select(Intent::ShowVersion, Ok(config(true, true)));
    assert_eq!(mode, ExecutionMode::PrintVersion);
}

#[test]
fn start_interactive_maps_to_interactive_without_pending_request() {
    let mode = select(Intent::StartInteractive, Ok(config(true, true)));
    assert_eq!(mode, ExecutionMode::InteractiveApp { pending_request: None });
}

#[test]
fn config_outcome_is_ignored_for_informational_intents() {
    assert_eq!(select(Intent::ShowHelp, Err(ConfigError::Unreadable)), ExecutionMode::PrintHelp);
    assert_eq!(
        select(Intent::ShowVersion, Err(ConfigError::Malformed)),
        ExecutionMode::PrintVersion
    );
    assert_eq!(
        select(Intent::StartInteractive, Err(ConfigError::Unreadable)),
        ExecutionMode::InteractiveApp { pending_request: None }
    );
}

#[test]
fn only_a_pending_request_needs_the_config() {
    assert!(needs_config(&request("/tmp/req.json")));
    assert!(!needs_config(&Intent::ShowHelp));
    assert!(!needs_config(&Intent::ShowVersion));
    assert!(!needs_config(&Intent::StartInteractive));
}
