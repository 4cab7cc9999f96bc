//! Exit statuses and how the termination of a watched process maps to one.

use vstd::prelude::*;

verus! {

/// Exit code published when the real outcome of the workload is unknown.
pub const FALLBACK_EXIT_CODE: u32 = 137;

/// Added to a signal's number to form the exit code of a process that the
/// signal terminated.
pub const SIGNAL_EXIT_BASE: u32 = 128;

/// A point in time: whole seconds since the Unix epoch and the nanoseconds
/// past that second.
#[derive(Clone, Copy, Debug, PartialEq, Eq, Structural)]
pub struct Timestamp {
    pub secs: i64,
    pub nanos: u32,
}

/// The terminal status of a workload: its exit code and when it was recorded.
#[derive(Clone, Copy, Debug, PartialEq, Eq, Structural)]
pub struct ExitStatus {
    pub code: u32,
    pub at: Timestamp,
}

/// What watching a process until it terminated has yielded.
#[derive(Clone, Copy, Debug, PartialEq, Eq, Structural)]
pub enum WaitOutcome {
    /// The process exited by itself with this status.
    Exited { status: i32 },
    /// A signal with this number terminated the process.
    Signaled { signal: i32 },
    /// The wait returned something other than a termination.
    Unexpected,
    /// The wait itself failed.
    Failed,
}

/// The value of `x` in 32-bit two's complement, read as an unsigned number.
pub open spec fn low_32_bits(x: int) -> int {
    x % 0x1_0000_0000
}

/// The status published when nothing better is known, recorded at `at`.
pub open spec fn fallback_status(at: Timestamp) -> ExitStatus {
    ExitStatus { code: FALLBACK_EXIT_CODE, at }
}

impl WaitOutcome {
    /// The exit code that stands for this outcome: the status of a normal
    /// exit, 128 plus the signal's number after a signal, and the fallback
    /// code for everything else.
    pub open spec fn exit_code(self) -> int {
        match self {
            WaitOutcome::Exited { status } => low_32_bits(status as int),
            WaitOutcome::Signaled { signal } => low_32_bits(SIGNAL_EXIT_BASE + signal),
            WaitOutcome::Unexpected => FALLBACK_EXIT_CODE as int,
            WaitOutcome::Failed => FALLBACK_EXIT_CODE as int,
        }
    }

    /// Computes the exit code of this outcome.
    pub fn to_exit_code(self) -> (code: u32)
        ensures
            code == self.exit_code(),
            self matches WaitOutcome::Exited { status } ==> (status >= 0 ==> code == status),
            self matches WaitOutcome::Signaled { signal } ==> (0 <= signal <= i32::MAX - 128
                ==> code == 128 + signal),
    {
        match self {
            WaitOutcome::Exited { status } => unsigned_of(status),
            WaitOutcome::Signaled { signal } => {
                let raw: u32 = unsigned_of(signal);
                if raw <= u32::MAX - SIGNAL_EXIT_BASE {
                    raw + SIGNAL_EXIT_BASE
                } else {
                    raw - (u32::MAX - SIGNAL_EXIT_BASE) - 1
                }
            },
            WaitOutcome::Unexpected => FALLBACK_EXIT_CODE,
            WaitOutcome::Failed => FALLBACK_EXIT_CODE,
        }
    }

    /// The status to publish for this outcome when it is observed at `at`.
    pub open spec fn status_at(self, at: Timestamp) -> ExitStatus {
        ExitStatus { code: self.exit_code() as u32, at }
    }

    /// Builds the status to publish for this outcome, observed at `at`.
    pub fn to_status(self, at: Timestamp) -> (status: ExitStatus)
        ensures
            status == self.status_at(at),
            status.code == self.exit_code(),
            status.at == at,
    {
        ExitStatus { code: self.to_exit_code(), at }
    }
}

/// Reads a signed 32-bit number as the unsigned number with the same bits.
pub fn unsigned_of(x: i32) -> (r: u32)
    ensures
        r == low_32_bits(x as int),
        x >= 0 ==> r == x,
        x < 0 ==> r == x + 0x1_0000_0000,
{
    if x >= 0 {
        x as u32
    } else {
        let below: u32 = (-(x + 1)) as u32;
        u32::MAX - below
    }
}

/// Reads an unsigned 32-bit number as the signed number with the same bits.
pub fn signed_of(x: u32) -> (r: i32)
    ensures
        low_32_bits(r as int) == x,
        x <= i32::MAX ==> r == x,
        x > i32::MAX ==> r == x - 0x1_0000_0000,
{
    if x <= 0x7fff_ffff {
        x as i32
    } else {
        let below: u32 = u32::MAX - x;
        -(below as i32) - 1
    }
}

/// Builds the status published when nothing better is known.
pub fn fallback_at(at: Timestamp) -> (status: ExitStatus)
    ensures
        status == fallback_status(at),
{
    ExitStatus { code: FALLBACK_EXIT_CODE, at }
}

} // verus!
