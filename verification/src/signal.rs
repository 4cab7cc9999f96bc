//! Signal numbers and their validation.

use vstd::prelude::*;

verus! {

/// Whether `n` is the number of a signal. This is the generic Linux
/// numbering, which x86, x86-64, ARM, AArch64, RISC-V, PowerPC, s390x and
/// LoongArch share: every number from 1 to 31 is a signal's and no other
/// is. It is not the numbering of MIPS or SPARC, for which this library is
/// not meant.
pub open spec fn is_signal_number(n: int) -> bool {
    1 <= n <= 31
}

/// The character of one decimal digit.
pub open spec fn digit_char(d: int) -> char {
    if d == 0 {
        '0'
    } else if d == 1 {
        '1'
    } else if d == 2 {
        '2'
    } else if d == 3 {
        '3'
    } else if d == 4 {
        '4'
    } else if d == 5 {
        '5'
    } else if d == 6 {
        '6'
    } else if d == 7 {
        '7'
    } else if d == 8 {
        '8'
    } else {
        '9'
    }
}

/// The decimal digits of `n`, most significant first.
pub open spec fn digits(n: nat) -> Seq<char>
    decreases n,
{
    if n < 10 {
        seq![digit_char(n as int)]
    } else {
        digits(n / 10).push(digit_char((n % 10) as int))
    }
}

/// `n` written in decimal, with a minus sign if it is negative.
pub open spec fn decimal(n: int) -> Seq<char> {
    if n < 0 {
        seq!['-'] + digits((-n) as nat)
    } else {
        digits(n as nat)
    }
}

/// What the sandbox runtime says of a number that is no signal's.
pub open spec fn signal_rejection(n: int) -> Seq<char> {
    "invalid signal: "@ + decimal(n)
}

/// Looks `n` up with `libcontainer::signal::Signal::try_from(i32)` and
/// drops the signal that is found.
///
/// Trusted, on Linux targets with the generic signal numbering (see
/// `is_signal_number`): the lookup succeeds exactly for the numbers 1 to
/// 31, and for any other number fails with an error that prints as
/// `invalid signal: ` followed by the number in decimal.
#[verifier::external_body]
pub(crate) fn signal_from_number(n: i32) -> (res: Result<(), String>)
    ensures
        res is Ok <==> is_signal_number(n as int),
        res matches Err(text) ==> text@ == signal_rejection(n as int),
{
    match libcontainer::signal::Signal::try_from(n) {
        Ok(_) => Ok(()),
        Err(err) => Err(format!("{}", err)),
    }
}

} // verus!
