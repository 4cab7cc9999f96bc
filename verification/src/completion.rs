//! What a workload handler hands back, and the exit code it comes to.
//!
//! A handler may return nothing, an exit code, or a result that wraps
//! either of these or another result. A handler that never returns has no
//! value to hand back, so no variant stands for it; a handler whose value
//! is still being computed is driven to its end by the caller, and what it
//! yields is resolved like any other value.

use vstd::prelude::*;
use vstd::string::*;

verus! {

/// The exit code of a handler that failed.
pub const FAILURE_EXIT_CODE: i32 = 137;

/// What a workload handler returned.
#[derive(Debug, PartialEq, Eq)]
pub enum Completion {
    /// Nothing: the workload succeeded.
    Unit,
    /// The workload's own exit code.
    Code(i32),
    /// A result: another completion, or the description of an error.
    Nested(Result<Box<Completion>, String>),
}

/// The end of a resolution: the exit code for the process, and the line to
/// log where an error was met on the way.
#[derive(Debug, PartialEq, Eq)]
pub struct Resolution {
    pub code: i32,
    pub log: Option<String>,
}

/// What a handler answered when asked whether it can run a workload.
#[derive(Debug, PartialEq, Eq)]
pub enum CanHandle {
    /// Nothing: it can.
    Unit,
    /// Whether it can.
    Flag(bool),
    /// A result: another answer, or the description of an error.
    Nested(Result<Box<CanHandle>, String>),
}

/// The line logged for a handler's error.
pub open spec fn failure_log(cause: Seq<char>) -> Seq<char> {
    "error: "@ + cause
}

/// The part of an exit code that the operating system hands on: its low
/// eight bits.
pub open spec fn visible_part(code: int) -> int {
    code % 256
}

/// Whether `res` is what `value` resolves to: its exit code, and the log
/// line for the error that it ends in, if it ends in one.
pub open spec fn resolves_to(value: Completion, res: Resolution) -> bool {
    &&& res.code == value.exit_code()
    &&& match value.failure() {
        Some(cause) => res.log matches Some(line) && line@ == failure_log(cause),
        None => res.log is None,
    }
}

impl Completion {
    /// The exit code that the value resolves to: 0 for nothing, a code as
    /// it is, a successful result as what it wraps, and 137 for an error.
    pub open spec fn exit_code(self) -> int
        decreases self,
    {
        match self {
            Completion::Unit => 0,
            Completion::Code(code) => code as int,
            Completion::Nested(Ok(inner)) => inner.exit_code(),
            Completion::Nested(Err(_)) => FAILURE_EXIT_CODE as int,
        }
    }

    /// The description of the error that resolution ends in, if it does.
    pub open spec fn failure(self) -> Option<Seq<char>>
        decreases self,
    {
        match self {
            Completion::Unit => None,
            Completion::Code(_) => None,
            Completion::Nested(Ok(inner)) => inner.failure(),
            Completion::Nested(Err(cause)) => Some(cause@),
        }
    }

    /// Resolves the value to the exit code of the process.
    pub fn resolve(&self) -> (res: Resolution)
        ensures
            resolves_to(*self, res),
        decreases self,
    {
        match self {
            Completion::Unit => Resolution { code: 0, log: None },
            Completion::Code(code) => Resolution { code: *code, log: None },
            Completion::Nested(Ok(inner)) => inner.resolve(),
            Completion::Nested(Err(cause)) => {
                let mut line = String::from_str("error: ");
                line.append(cause.as_str());
                Resolution { code: FAILURE_EXIT_CODE, log: Some(line) }
            },
        }
    }
}

impl CanHandle {
    /// Why the handler cannot run the workload, if it cannot.
    pub open spec fn refusal(self) -> Option<Seq<char>>
        decreases self,
    {
        match self {
            CanHandle::Unit => None,
            CanHandle::Flag(can) => if can {
                None
            } else {
                Some("can't handle workflow"@)
            },
            CanHandle::Nested(Ok(inner)) => inner.refusal(),
            CanHandle::Nested(Err(cause)) => Some(cause@),
        }
    }
}

/// Reports whether the handler can run the workload: `Ok` unless its
/// answer is `false` or an error at any depth, and then the reason.
pub fn validate(answer: &CanHandle) -> (res: Result<(), String>)
    ensures
        match answer.refusal() {
            None => res is Ok,
            Some(reason) => res matches Err(text) && text@ == reason,
        },
    decreases answer,
{
    match answer {
        CanHandle::Unit => Ok(()),
        CanHandle::Flag(can) => {
            if *can {
                Ok(())
            } else {
                Err(String::from_str("can't handle workflow"))
            }
        },
        CanHandle::Nested(Ok(inner)) => validate(inner),
        CanHandle::Nested(Err(cause)) => Err(cause.clone()),
    }
}

/// Resolves a value that is still being computed: `drive` brings it to its
/// end, once and before anything is decided, and what it yields is
/// resolved.
pub fn resolve_deferred<D, B: FnOnce(D) -> Completion>(deferred: D, drive: B) -> (res: Resolution)
    requires
        call_requires(drive, (deferred,)),
    ensures
        exists|value: Completion| #[trigger]
            call_ensures(drive, (deferred,), value) && resolves_to(value, res),
{
    let value = drive(deferred);
    value.resolve()
}

/// The part of `code` that a parent process gets to see.
pub fn visible_exit_code(code: i32) -> (seen: u8)
    ensures
        seen == visible_part(code as int),
        0 <= code <= 255 ==> seen == code,
{
    if code >= 0 {
        (code % 256) as u8
    } else {
        let below: i32 = (-(code + 1)) % 256;
        (255 - below) as u8
    }
}

} // verus!
