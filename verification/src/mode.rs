//! Selection of the one execution mode that an invocation will run.

use vstd::prelude::*;
use crate::config::ConfigError;
use crate::config::RemoteResponderConfig;
use crate::intent::Intent;
use crate::intent::IntentView;

verus! {

/// The concrete action the process takes this run: answer the pending request
/// headlessly, start the interactive application (optionally pre-seeded with a
/// pending request), or print one of the fixed informational texts.
#[derive(Debug, PartialEq, Eq)]
pub enum ExecutionMode {
    HeadlessRespond { request_path: String },
    InteractiveApp { pending_request: Option<String> },
    PrintHelp,
    PrintVersion,
}

/// The mathematical model of an [`ExecutionMode`]: the same variants over
/// sequences of characters instead of owned strings.
pub enum ModeView {
    HeadlessRespond { request_path: Seq<char> },
    InteractiveApp { pending_request: Option<Seq<char>> },
    PrintHelp,
    PrintVersion,
}

impl View for ExecutionMode {
    type V = ModeView;

    open spec fn view(&self) -> ModeView {
        match self {
            ExecutionMode::HeadlessRespond { request_path } => ModeView::HeadlessRespond {
                request_path: request_path@,
            },
            ExecutionMode::InteractiveApp { pending_request } => ModeView::InteractiveApp {
                pending_request: match pending_request {
                    Some(path) => Some(path@),
                    None => None,
                },
            },
            ExecutionMode::PrintHelp => ModeView::PrintHelp,
            ExecutionMode::PrintVersion => ModeView::PrintVersion,
        }
    }
}

/// The full decision table of the mode selector. The informational intents
/// and the interactive default map to their modes directly; a pending request
/// runs headlessly exactly when the loaded configuration has both flags set,
/// and falls back to the interactive application — with the request still
/// pending — on every other configuration outcome, a load error included.
/// The fallback never points toward the headless path: the interactive path
/// is the one assumed always able to surface a request to a human.
pub open spec fn select_spec(
    intent: IntentView,
    config: Result<RemoteResponderConfig, ConfigError>,
) -> ModeView {
    match intent {
        IntentView::ShowHelp => ModeView::PrintHelp,
        IntentView::ShowVersion => ModeView::PrintVersion,
        IntentView::StartInteractive => ModeView::InteractiveApp { pending_request: None },
        IntentView::HandleRequest { request_path } => match config {
            Ok(loaded) => if loaded.enabled && loaded.suppress_local_popup {
                ModeView::HeadlessRespond { request_path }
            } else {
                ModeView::InteractiveApp { pending_request: Some(request_path) }
            },
            Err(_) => ModeView::InteractiveApp { pending_request: Some(request_path) },
        },
    }
}

/// True exactly when selecting a mode for this intent consults the remote
/// responder configuration: only a pending request needs the two flags.
pub fn needs_config(intent: &Intent) -> (needed: bool)
    ensures
        needed == (intent@ is HandleRequest),
{
    match intent {
        Intent::HandleRequest { .. } => true,
        _ => false,
    }
}

/// Selects the one execution mode for this invocation.
///
/// The configuration outcome matters only for a pending request; for every
/// other intent the mapping is the identity on the decision table and the
/// outcome is ignored. Selection itself never fails: a configuration load
/// error is absorbed into the fallback toward the interactive application.
pub fn select(intent: Intent, config: Result<RemoteResponderConfig, ConfigError>) -> (mode:
    ExecutionMode)
    ensures
        mode@ == select_spec(intent@, config),
{
    match intent {
        Intent::ShowHelp => ExecutionMode::PrintHelp,
        Intent::ShowVersion => ExecutionMode::PrintVersion,
        Intent::StartInteractive => ExecutionMode::InteractiveApp { pending_request: None },
        Intent::HandleRequest { request_path } => match config {
            Ok(loaded) => if loaded.enabled && loaded.suppress_local_popup {
                ExecutionMode::HeadlessRespond { request_path }
            } else {
                ExecutionMode::InteractiveApp { pending_request: Some(request_path) }
            },
            Err(_) => ExecutionMode::InteractiveApp { pending_request: Some(request_path) },
        },
    }
}

/// Law: a configuration load error fails open toward the interactive path.
/// For every error and every request path, the selected mode is the
/// interactive application with the request still pending — never the
/// headless responder — so a failed load can never strand a request behind a
/// responder that is not known to be enabled.
pub proof fn lemma_select_fail_open(request_path: Seq<char>, error: ConfigError)
    ensures
        select_spec(IntentView::HandleRequest { request_path }, Err(error))
            == (ModeView::InteractiveApp { pending_request: Some(request_path) }),
        !(select_spec(IntentView::HandleRequest { request_path }, Err(error))
            is HeadlessRespond),
{
}

/// Law: a pending request runs headlessly exactly when the loaded
/// configuration has `enabled` and `suppress_local_popup` both set; each of
/// the three other flag combinations selects the interactive application with
/// the request pending.
pub proof fn lemma_select_headless_iff(request_path: Seq<char>, loaded: RemoteResponderConfig)
    ensures
        (select_spec(IntentView::HandleRequest { request_path }, Ok(loaded))
            == (ModeView::HeadlessRespond { request_path }))
            <==> (loaded.enabled && loaded.suppress_local_popup),
        !(loaded.enabled && loaded.suppress_local_popup)
            ==> select_spec(IntentView::HandleRequest { request_path }, Ok(loaded))
                == (ModeView::InteractiveApp { pending_request: Some(request_path) }),
{
}

} // verus!
