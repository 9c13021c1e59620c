//! The dispatch layer: the fixed informational texts, the exit-code policy,
//! and the guarantee that every mode selects exactly one dispatch branch.

use vstd::prelude::*;
use vstd::string::StringExecFns;
use crate::mode::ExecutionMode;

verus! {

/// The error surfaced when the headless handler fails to process a pending
/// request. The dispatch layer never inspects it beyond its presence; the
/// message carries the handler's own description for the diagnostic log.
pub struct HeadlessRequestError {
    pub message: String,
}

/// How one invocation ends: normally, or as a process-level failure.
#[derive(Clone, Copy, PartialEq, Eq, Structural, Debug)]
pub enum ExitOutcome {
    Success,
    Failure,
}

/// The process exit status that each outcome stands for: zero on success, one
/// on a failed headless run — the only failure this layer ever surfaces.
pub open spec fn spec_exit_code(outcome: ExitOutcome) -> int {
    match outcome {
        ExitOutcome::Success => 0,
        ExitOutcome::Failure => 1,
    }
}

/// Maps the headless handler's result to the outcome of the invocation: the
/// invocation succeeds exactly when the handler did. A handler failure is the
/// one condition that turns into a process-level failure; it is never retried
/// here and never falls back to the interactive path.
pub fn headless_exit(handled: &Result<(), HeadlessRequestError>) -> (outcome: ExitOutcome)
    ensures
        (outcome == ExitOutcome::Success) <==> handled is Ok,
        (outcome == ExitOutcome::Failure) <==> handled is Err,
{
    match handled {
        Ok(_) => ExitOutcome::Success,
        Err(_) => ExitOutcome::Failure,
    }
}

/// The numeric process exit status for an outcome.
pub fn exit_code(outcome: ExitOutcome) -> (code: i32)
    ensures
        code == spec_exit_code(outcome),
{
    match outcome {
        ExitOutcome::Success => 0,
        ExitOutcome::Failure => 1,
    }
}

/// The fixed help text, one trailing newline per line.
pub open spec fn help_text_spec() -> Seq<char> {
    "寸止 - 智能代码审查工具\n\n用法:\n  等一下                    启动设置界面\n  等一下 --mcp-request <文件>  处理 MCP 请求\n  等一下 --help             显示此帮助信息\n  等一下 --version          显示版本信息\n"@
}

/// The fixed informational text that the help mode emits.
pub fn help_text() -> (text: String)
    ensures
        text@ == help_text_spec(),
{
    let text: String =
        "寸止 - 智能代码审查工具\n\n用法:\n  等一下                    启动设置界面\n  等一下 --mcp-request <文件>  处理 MCP 请求\n  等一下 --help             显示此帮助信息\n  等一下 --version          显示版本信息\n".to_owned();
    text
}

/// The fixed informational text that the version mode emits, for a given
/// version string.
pub fn version_text(version: &str) -> (text: String)
    ensures
        text@ == "寸止 v"@ + version@,
{
    let mut text: String = "寸止 v".to_owned();
    text.append(version);
    text
}

/// Law: dispatch is mutually exclusive. For any single invocation the
/// selected mode names exactly one of the four dispatch branches — print
/// help, print version, respond headlessly, start the interactive
/// application — never zero and never more than one.
pub proof fn lemma_dispatch_exclusive(mode: ExecutionMode)
    ensures
        ({
            let branches: int = (if mode@ is PrintHelp { 1int } else { 0int })
                + (if mode@ is PrintVersion { 1int } else { 0int })
                + (if mode@ is HeadlessRespond { 1int } else { 0int })
                + (if mode@ is InteractiveApp { 1int } else { 0int });
            branches == 1
        }),
{
}

} // verus!
