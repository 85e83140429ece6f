//! The status word of FreeBSD, OpenBSD, DragonFly and NetBSD.
//!
//! The low seven bits decide as on Darwin: zero is an exit, whose code
//! stands in bits 8 to 15; all set is a stop, whose signal stands above the
//! low byte. A continuation is the one word `0x13`. Any other value of the
//! low seven bits is the signal that ended the process. Bit 7 tells of a
//! core dump.

use crate::error::WaitError;
use crate::signal::Signal;
use crate::word::{
    above_low_byte, core_flag, exit_word, lemma_above_low_byte, lemma_core_flag, lemma_low_seven,
    lemma_signed_byte, low_seven, second_byte, signed_byte,
};
use vstd::prelude::*;

verus! {

/// The bit that marks a core dump.
pub const WCOREFLAG: i32 = 0x80;

/// The value of the low seven bits that marks a stop.
pub const WSTOPPED: i32 = 0x7f;

/// The word that reports a continued child.
pub const CONTINUED: i32 = 0x13;

/// The primary discriminant: the low seven bits.
pub open spec fn spec_wstatus(status: i32) -> int {
    low_seven(status)
}

/// The discriminant is the stop marker.
pub open spec fn spec_stopped(status: i32) -> bool {
    spec_wstatus(status) == WSTOPPED
}

/// The signal whose number is everything above the low byte.
pub open spec fn spec_stop_signal(status: i32) -> Result<Signal, WaitError> {
    Signal::of_bsd(above_low_byte(status))
}

/// The discriminant is neither zero nor the stop marker, and the word is
/// not the one that reports a continuation.
pub open spec fn spec_signaled(status: i32) -> bool {
    spec_wstatus(status) != WSTOPPED && spec_wstatus(status) != 0 && status != CONTINUED
}

/// The signal whose number is the discriminant itself.
pub open spec fn spec_term_signal(status: i32) -> Result<Signal, WaitError> {
    Signal::of_bsd(spec_wstatus(status))
}

/// The discriminant is zero.
pub open spec fn spec_exited(status: i32) -> bool {
    spec_wstatus(status) == 0
}

/// Bits 8 to 15, read as a signed byte.
pub open spec fn spec_exit_status(status: i32) -> int {
    signed_byte(second_byte(status))
}

/// The word is `0x13`.
pub open spec fn spec_continued(status: i32) -> bool {
    status == CONTINUED
}

/// Bit 7 is set.
pub open spec fn spec_dumped_core(status: i32) -> bool {
    core_flag(status)
}

/// The primary discriminant: the low seven bits.
pub fn wstatus(status: i32) -> (r: i32)
    ensures
        r == spec_wstatus(status),
        0 <= r < 128,
{
    proof {
        lemma_low_seven(status);
    }
    status & 0x7F
}

/// Whether the process is stopped.
pub fn stopped(status: i32) -> (r: bool)
    ensures
        r == spec_stopped(status),
{
    wstatus(status) == WSTOPPED
}

/// The signal that stopped the process, where it is stopped.
pub fn stop_signal(status: i32) -> (r: Result<Signal, WaitError>)
    ensures
        r == spec_stop_signal(status),
        r is Ok <==> 1 <= above_low_byte(status) <= 31,
        r matches Ok(signal) ==> signal.bsd_number() == Some(above_low_byte(status)),
        r matches Err(error) ==> error == WaitError::UnrecognizedSignal,
{
    proof {
        lemma_above_low_byte(status);
    }
    Signal::from_bsd(status >> 8)
}

/// Whether a signal ended the process.
pub fn signaled(status: i32) -> (r: bool)
    ensures
        r == spec_signaled(status),
{
    wstatus(status) != WSTOPPED && wstatus(status) != 0 && status != 0x13
}

/// The signal that ended the process, where one did.
pub fn term_signal(status: i32) -> (r: Result<Signal, WaitError>)
    ensures
        r == spec_term_signal(status),
        r is Ok <==> 1 <= low_seven(status) <= 31,
        r matches Ok(signal) ==> signal.bsd_number() == Some(low_seven(status)),
        r matches Err(error) ==> error == WaitError::UnrecognizedSignal,
{
    Signal::from_bsd(wstatus(status))
}

/// Whether the process exited.
pub fn exited(status: i32) -> (r: bool)
    ensures
        r == spec_exited(status),
{
    wstatus(status) == 0
}

/// The exit code, where the process exited.
pub fn exit_status(status: i32) -> (code: i8)
    ensures
        code == spec_exit_status(status),
{
    proof {
        lemma_signed_byte(status);
    }
    #[verifier::truncate]
    ((status >> 8) as i8)
}

/// Whether the process continued.
pub fn continued(status: i32) -> (r: bool)
    ensures
        r == spec_continued(status),
{
    status == 0x13
}

/// Whether the process left a core dump.
pub fn dumped_core(status: i32) -> (r: bool)
    ensures
        r == spec_dumped_core(status),
{
    proof {
        lemma_core_flag(status);
    }
    (status & WCOREFLAG) != 0
}

/// Every word matches exactly one of the four tests.
pub proof fn lemma_exactly_one(status: i32)
    ensures
        !(spec_exited(status) && spec_signaled(status)),
        !(spec_exited(status) && spec_stopped(status)),
        !(spec_exited(status) && spec_continued(status)),
        !(spec_signaled(status) && spec_stopped(status)),
        !(spec_signaled(status) && spec_continued(status)),
        !(spec_stopped(status) && spec_continued(status)),
        spec_exited(status) || spec_signaled(status) || spec_stopped(status) || spec_continued(
            status,
        ),
{
}

/// A word that holds nothing but an exit code is an exit with that code.
pub proof fn lemma_exit_code_placed(code: i8)
    ensures
        0 <= exit_word(code) <= 0xFF00,
        spec_exited(exit_word(code) as i32),
        spec_exit_status(exit_word(code) as i32) == code,
{
}

} // verus!
