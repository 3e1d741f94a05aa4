//! The single-shot lifecycle: the process-wide execution guard that lets
//! the runtime be started at most once, and the translation of what the
//! foreign start and stop calls report into structured errors.

use crate::error::NodeError;
use vstd::prelude::*;
use vstd::string::StringExecFns;

verus! {

/// The guard flag after a start attempt in the given state: an attempt
/// always leaves the guard executed, whether the start succeeded or
/// failed, so the guard is strictly forward-only.
pub open spec fn guard_after_attempt(executed_before: bool) -> bool {
    true
}

/// Whether a start attempt made in the given guard state is rejected
/// before the foreign boundary is reached.
pub open spec fn attempt_rejected(executed_before: bool) -> bool {
    executed_before
}

/// The error a rejected start attempt carries.
pub open spec fn is_rejection_error(e: NodeError) -> bool {
    e.spec_message() == "Node.js is already running"@ && e.spec_code() == 1
}

/// After any first start attempt, successful or failed, a second attempt
/// is rejected by the guard alone: the foreign boundary is never reached
/// again.
pub proof fn lemma_second_attempt_rejected(executed_before: bool)
    ensures
        attempt_rejected(guard_after_attempt(executed_before)),
{
}

/// The process-wide flag enforcing that the embedded runtime is started
/// at most once. Once it reads executed it is never reset: there is no
/// way back to the unexecuted state.
pub struct ExecutionGuard {
    executed: bool,
}

impl ExecutionGuard {
    /// Whether a start attempt has already been made.
    pub closed spec fn spec_executed(&self) -> bool {
        self.executed
    }

    /// A fresh guard: no start attempt has been made yet.
    pub fn new() -> (r: Self)
        ensures
            !r.spec_executed(),
    {
        Self { executed: false }
    }

    /// Whether a start attempt has already been made.
    pub fn executed(&self) -> (r: bool)
        ensures
            r == self.spec_executed(),
    {
        self.executed
    }
}

/// Dispatches a start attempt through the guard: if a start was already
/// attempted in this process the attempt fails at once with the rejection
/// error and `f` is never run; otherwise the guard is set to executed
/// before `f` (the raw start call) runs, so that even a failed start
/// leaves the guard set, and the attempt returns whatever `f` returns.
pub fn run_inner<F: FnOnce() -> Result<(), NodeError>>(
    guard: &mut ExecutionGuard,
    f: F,
) -> (r: Result<(), NodeError>)
    requires
        !old(guard).spec_executed() ==> call_requires(f, ()),
    ensures
        final(guard).spec_executed() == guard_after_attempt(old(guard).spec_executed()),
        attempt_rejected(old(guard).spec_executed()) ==> (r matches Err(e)
            && is_rejection_error(e)),
        !attempt_rejected(old(guard).spec_executed()) ==> call_ensures(f, (), r),
{
    if guard.executed {
        Err(NodeError::new(String::from_str("Node.js is already running"), 1))
    } else {
        guard.executed = true;
        f()
    }
}

/// What the foreign start call reports when the event loop has exited:
/// an optional owned error message, and an exit code.
///
/// Translates the report into the start call's result: an explicit
/// message yields an error preserving the message and the code verbatim;
/// a bare non-zero exit code yields a synthesized error carrying that
/// code; a zero exit code without a message is success.
pub fn interpret_run_result(error: Option<String>, exit_code: i32) -> (r: Result<
    (),
    NodeError,
>)
    ensures
        r is Ok <==> (error is None && exit_code == 0),
        error matches Some(m) ==> (r matches Err(e) && e.spec_message() == m@
            && e.spec_code() == exit_code as int),
        error is None && exit_code != 0 ==> (r matches Err(e)
            && e.spec_message() == "Node.js exited with a non-zero exit code"@
            && e.spec_code() == exit_code as int),
{
    match error {
        Some(message) => Err(NodeError::new(message, exit_code)),
        None => {
            if exit_code != 0 {
                Err(
                    NodeError::new(
                        String::from_str("Node.js exited with a non-zero exit code"),
                        exit_code,
                    ),
                )
            } else {
                Ok(())
            }
        },
    }
}

/// Translates the code the foreign stop call returns into the stop
/// result: zero is success; `-1` means no runtime is currently running
/// and names that in the message; any other code yields the generic stop
/// failure carrying that code.
pub fn interpret_stop_code(code: i32) -> (r: Result<(), NodeError>)
    ensures
        r is Ok <==> code == 0,
        code == -1 ==> (r matches Err(e)
            && e.spec_message() == "Node.js failed to stop: Node.js is not running"@
            && e.spec_code() == -1),
        code != 0 && code != -1 ==> (r matches Err(e)
            && e.spec_message() == "Node.js failed to stop"@ && e.spec_code() == code as int),
{
    if code == 0 {
        Ok(())
    } else if code == -1 {
        Err(
            NodeError::new(
                String::from_str("Node.js failed to stop: Node.js is not running"),
                code,
            ),
        )
    } else {
        Err(NodeError::new(String::from_str("Node.js failed to stop"), code))
    }
}

} // verus!
