//! Classification of the process arguments into the intent of one invocation.

use vstd::prelude::*;

verus! {

/// The classified purpose of a single process invocation, derived purely from
/// its argument vector. Classification is total: every argument vector maps to
/// exactly one variant, with `StartInteractive` as the exhaustive default.
#[derive(Debug, PartialEq, Eq)]
pub enum Intent {
    ShowHelp,
    ShowVersion,
    HandleRequest { request_path: String },
    StartInteractive,
}

/// The mathematical model of an [`Intent`]: the same variants over a sequence
/// of characters instead of an owned string.
pub enum IntentView {
    ShowHelp,
    ShowVersion,
    HandleRequest { request_path: Seq<char> },
    StartInteractive,
}

impl View for Intent {
    type V = IntentView;

    open spec fn view(&self) -> IntentView {
        match self {
            Intent::ShowHelp => IntentView::ShowHelp,
            Intent::ShowVersion => IntentView::ShowVersion,
            Intent::HandleRequest { request_path } => IntentView::HandleRequest {
                request_path: request_path@,
            },
            Intent::StartInteractive => IntentView::StartInteractive,
        }
    }
}

/// What any argument vector classifies to. The first argument is the program
/// name, so the flags are read from position 1 onward. A `--mcp-request` flag
/// without a following path is deliberately not an error: it falls through to
/// the interactive default, exactly as an unrecognized argument does.
pub open spec fn classify_spec(args: Seq<Seq<char>>) -> IntentView {
    if args.len() >= 3 && args[1] == "--mcp-request"@ {
        IntentView::HandleRequest { request_path: args[2] }
    } else if args.len() >= 2 && (args[1] == "--help"@ || args[1] == "-h"@) {
        IntentView::ShowHelp
    } else if args.len() >= 2 && (args[1] == "--version"@ || args[1] == "-v"@) {
        IntentView::ShowVersion
    } else {
        IntentView::StartInteractive
    }
}

/// Compares one argument against a flag literal.
fn arg_eq(arg: &String, flag: &str) -> (equal: bool)
    ensures
        equal == (arg@ == flag@),
{
    let flag_owned: String = flag.to_owned();
    *arg == flag_owned
}

/// Classifies an argument vector into the intent of this invocation.
///
/// Total over any argument vector, including the empty one; it performs no
/// side effects and has no failure mode.
pub fn classify(args: &Vec<String>) -> (intent: Intent)
    ensures
        intent@ == classify_spec(args.deep_view()),
{
    proof {
        assert(forall|i: int|
            0 <= i < args@.len() ==> #[trigger] args.deep_view()[i] == args@[i]@);
    }
    let n = args.len();
    if n >= 3 && arg_eq(&args[1], "--mcp-request") {
        Intent::HandleRequest { request_path: args[2].clone() }
    } else if n >= 2 && (arg_eq(&args[1], "--help") || arg_eq(&args[1], "-h")) {
        Intent::ShowHelp
    } else if n >= 2 && (arg_eq(&args[1], "--version") || arg_eq(&args[1], "-v")) {
        Intent::ShowVersion
    } else {
        Intent::StartInteractive
    }
}

/// Law: every argument vector whose second entry is `--mcp-request` followed
/// by a further entry classifies as a request to handle, carrying exactly that
/// further entry as the request path.
pub proof fn lemma_classify_mcp_request(args: Seq<Seq<char>>)
    requires
        args.len() >= 3,
        args[1] == "--mcp-request"@,
    ensures
        classify_spec(args) == (IntentView::HandleRequest { request_path: args[2] }),
{
}

/// Law: every argument vector that matches neither the help flags, nor the
/// version flags, nor `--mcp-request` with a following path, classifies as the
/// interactive default; in particular a bare `--mcp-request` with no path, and
/// an argument vector with no flags at all.
pub proof fn lemma_classify_default(args: Seq<Seq<char>>)
    requires
        !(args.len() >= 3 && args[1] == "--mcp-request"@),
        !(args.len() >= 2 && (args[1] == "--help"@ || args[1] == "-h"@)),
        !(args.len() >= 2 && (args[1] == "--version"@ || args[1] == "-v"@)),
    ensures
        classify_spec(args) == IntentView::StartInteractive,
{
}

/// Law: classification is a pure function of the argument vector, so any two
/// classifications of identical input are identical.
pub proof fn lemma_classify_deterministic(
    args: Seq<Seq<char>>,
    first: IntentView,
    second: IntentView,
)
    requires
        first == classify_spec(args),
        second == classify_spec(args),
    ensures
        first == second,
{
}

} // verus!
