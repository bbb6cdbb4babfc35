//! Building the delegated invocation and mapping its outcome.
//!
//! After resolution the launcher pre-checks the interpreter, builds one
//! launch specification per run, and, once the delegate has terminated,
//! exits with the delegate's own code.

use vstd::prelude::*;
use crate::search::{first_true, lemma_first_true_least};

verus! {

/// The interpreter that runs the delegate module.
pub open spec fn interpreter_name() -> Seq<char> {
    "node"@
}

/// The program the launcher spawns: for the version pre-check and for the
/// delegated run alike.
pub fn interpreter_program() -> (r: String)
    ensures
        r@ == interpreter_name(),
{
    "node".to_owned()
}

/// One delegated invocation, constructed once per run and immutable
/// afterwards: the resolved module path, the forwarded arguments in their
/// original order, and the override variable's value for the child
/// process, set only when the caller's environment held none.  Standard
/// streams are inherited, so they are no data here.
pub struct LaunchSpec {
    pub module: String,
    pub args: Vec<String>,
    pub inject_override: Option<String>,
}

/// The override value set on the child process: nothing when the caller's
/// environment already held the variable, else whatever was inferred.
pub open spec fn injected_override(
    caller_has_override: bool,
    inferred: Option<Seq<char>>,
) -> Option<Seq<char>> {
    if caller_has_override {
        None
    } else {
        inferred
    }
}

/// The override value the child process observes: a value injected on the
/// child wins, else the child inherits whatever the caller's environment
/// held.
pub open spec fn child_sees(
    caller: Option<Seq<char>>,
    injected: Option<Seq<char>>,
) -> Option<Seq<char>> {
    match injected {
        Some(v) => Some(v),
        None => caller,
    }
}

/// Environment inference is strictly additive: whatever was inferred, a
/// caller that set the override variable is never overridden — the child
/// observes the caller's own value, unchanged.
pub proof fn lemma_inference_additive(caller: Seq<char>, inferred: Option<Seq<char>>)
    ensures
        child_sees(Some(caller), injected_override(true, inferred)) == Some(caller),
        injected_override(true, inferred) is None,
{
}

/// Builds the launch specification: the module path and the arguments are
/// taken over unchanged and in order, and the inferred install root is
/// handed to the child only when the caller's environment had no
/// override.
pub fn build_launch_spec(
    module: String,
    args: Vec<String>,
    caller_has_override: bool,
    inferred: Option<String>,
) -> (s: LaunchSpec)
    ensures
        s.module == module,
        s.args == args,
        s.inject_override.deep_view() == injected_override(
            caller_has_override,
            inferred.deep_view(),
        ),
        !caller_has_override ==> s.inject_override == inferred,
        caller_has_override ==> s.inject_override is None,
{
    LaunchSpec {
        module,
        args,
        inject_override: if caller_has_override {
            None
        } else {
            inferred
        },
    }
}

/// The argument list handed to the interpreter: the resolved module path
/// first, then every forwarded argument, byte for byte unchanged and in
/// the original order.
pub fn delegate_argv(s: &LaunchSpec) -> (r: Vec<String>)
    ensures
        r@ == seq![s.module] + s.args@,
{
    let mut r: Vec<String> = Vec::new();
    r.push(s.module.clone());
    let mut i: usize = 0;
    while i < s.args.len()
        invariant
            i <= s.args.len(),
            r@ == seq![s.module] + s.args@.take(i as int),
        decreases s.args.len() - i,
    {
        r.push(s.args[i].clone());
        proof {
            assert(r@ =~= seq![s.module] + s.args@.take(i as int + 1));
        }
        i = i + 1;
    }
    proof {
        assert(r@ =~= seq![s.module] + s.args@);
    }
    r
}

/// What the launcher does once searching and the interpreter pre-check
/// are done.
#[derive(PartialEq, Eq, Structural, Clone, Copy, Debug)]
pub enum LaunchDecision {
    /// No tier matched: report remediation and exit with the failure
    /// code; nothing is spawned.
    ReportNotFound,
    /// A module was resolved but the interpreter pre-check failed: report
    /// install guidance and exit with the failure code; the delegate is
    /// never attempted.
    ReportInterpreterMissing,
    /// Spawn the interpreter on the resolved module and propagate its
    /// exit code.
    Delegate,
}

/// The decision taken after searching: a missing module is reported
/// before anything else, an unavailable interpreter next, and delegation
/// happens exactly when a module was resolved and the interpreter
/// answered its pre-check.
pub open spec fn decision_of(resolved: bool, interpreter_ok: bool) -> LaunchDecision {
    if !resolved {
        LaunchDecision::ReportNotFound
    } else if !interpreter_ok {
        LaunchDecision::ReportInterpreterMissing
    } else {
        LaunchDecision::Delegate
    }
}

/// Decides the step after searching, as `decision_of` fixes it.
pub fn decide_launch(resolved: bool, interpreter_ok: bool) -> (d: LaunchDecision)
    ensures
        d == decision_of(resolved, interpreter_ok),
        d is Delegate <==> resolved && interpreter_ok,
{
    if !resolved {
        LaunchDecision::ReportNotFound
    } else if !interpreter_ok {
        LaunchDecision::ReportInterpreterMissing
    } else {
        LaunchDecision::Delegate
    }
}

/// When no candidate location matches, resolution selects nothing, and
/// whatever the interpreter pre-check would have answered, the decision
/// is to report and exit: no process is ever spawned on a failed
/// resolution.
pub proof fn lemma_no_match_no_spawn(flags: Seq<bool>, interpreter_ok: bool)
    requires
        forall|j: int| 0 <= j < flags.len() ==> !flags[j],
    ensures
        first_true(flags) is None,
        decision_of(false, interpreter_ok) == LaunchDecision::ReportNotFound,
        decision_of(false, interpreter_ok) !is Delegate,
{
    lemma_first_true_least(flags);
}

/// The exit code of a run that failed before delegation: module not
/// found, interpreter unavailable, or spawn failure.
pub fn failure_exit_code() -> (r: i32)
    ensures
        r == 1,
{
    1
}

/// Maps the delegate's outcome to the launcher's own exit code: the
/// delegate's code is propagated unchanged, and only where none is
/// available (the delegate was terminated by a signal) does the launcher
/// substitute the fixed failure code — the one case where the launcher's
/// code is its own.
pub fn launcher_exit_code(delegate_code: Option<i32>) -> (r: i32)
    ensures
        delegate_code matches Some(c) ==> r == c,
        delegate_code is None ==> r == 1,
{
    match delegate_code {
        Some(c) => c,
        None => 1,
    }
}

} // verus!
