//! The status word of the Darwin family.
//!
//! The low seven bits decide: zero is an exit, whose code stands in bits 8
//! to 15; all set is a stop or a continuation, which only the signal above
//! the low byte tells apart; any other value is the signal that ended the
//! process. Bit 7 tells of a core dump.

use crate::error::WaitError;
use crate::signal::{lemma_bsd_lookup_inverts_number, Signal};
use crate::word::{
    above_low_byte, core_flag, exit_word, lemma_above_low_byte, lemma_core_flag, lemma_low_seven,
    lemma_signed_byte, low_seven, second_byte, signed_byte,
};
use vstd::prelude::*;

verus! {

/// The bit that marks a core dump.
pub const WCOREFLAG: i32 = 0x80;

/// The value of the low seven bits that marks a stop or a continuation.
pub const WSTOPPED: i32 = 0x7f;

/// The number of the signal that continues a stopped process.
pub const SIGCONT: i32 = 19;

/// The primary discriminant: the low seven bits.
pub open spec fn spec_wstatus(status: i32) -> int {
    low_seven(status)
}

/// Bits 8 to 15, read as a signed byte.
pub open spec fn spec_exit_status(status: i32) -> int {
    signed_byte(second_byte(status))
}

/// The signal whose number is everything above the low byte.
pub open spec fn spec_stop_signal(status: i32) -> Result<Signal, WaitError> {
    Signal::of_bsd(above_low_byte(status))
}

/// The discriminant is the stop marker and the signal is `SIGCONT`.
pub open spec fn spec_continued(status: i32) -> bool {
    spec_wstatus(status) == WSTOPPED && spec_stop_signal(status) == Ok::<Signal, WaitError>(
        Signal::SIGCONT,
    )
}

/// The discriminant is the stop marker and the signal is not `SIGCONT`.
pub open spec fn spec_stopped(status: i32) -> bool {
    spec_wstatus(status) == WSTOPPED && spec_stop_signal(status) != Ok::<Signal, WaitError>(
        Signal::SIGCONT,
    )
}

/// The discriminant is zero.
pub open spec fn spec_exited(status: i32) -> bool {
    spec_wstatus(status) == 0
}

/// The discriminant is neither zero nor the stop marker.
pub open spec fn spec_signaled(status: i32) -> bool {
    spec_wstatus(status) != WSTOPPED && spec_wstatus(status) != 0
}

/// The signal whose number is the discriminant itself.
pub open spec fn spec_term_signal(status: i32) -> Result<Signal, WaitError> {
    Signal::of_bsd(spec_wstatus(status))
}

/// Bit 7 is set.
pub open spec fn spec_dumped_core(status: i32) -> bool {
    core_flag(status)
}

/// The primary discriminant: the low seven bits.
pub fn wstatus(status: i32) -> (r: i32)
    ensures
        r == spec_wstatus(status),
        0 <= r < 128,
{
    proof {
        lemma_low_seven(status);
    }
    status & 0x7F
}

/// The exit code, where the process exited.
pub fn exit_status(status: i32) -> (code: i8)
    ensures
        code == spec_exit_status(status),
{
    proof {
        lemma_signed_byte(status);
    }
    #[verifier::truncate]
    (((status >> 8) & 0xFF) as i8)
}

/// The signal that stopped or continued the process, where it is stopped
/// or continued.
pub fn stop_signal(status: i32) -> (r: Result<Signal, WaitError>)
    ensures
        r == spec_stop_signal(status),
        r is Ok <==> 1 <= above_low_byte(status) <= 31,
        r matches Ok(signal) ==> signal.bsd_number() == Some(above_low_byte(status)),
        r matches Err(error) ==> error == WaitError::UnrecognizedSignal,
{
    proof {
        lemma_above_low_byte(status);
    }
    Signal::from_bsd(status >> 8)
}

/// Whether the process continued.
pub fn continued(status: i32) -> (r: bool)
    ensures
        r == spec_continued(status),
{
    wstatus(status) == WSTOPPED && matches!(stop_signal(status), Ok(Signal::SIGCONT))
}

/// Whether the process is stopped.
pub fn stopped(status: i32) -> (r: bool)
    ensures
        r == spec_stopped(status),
{
    wstatus(status) == WSTOPPED && !matches!(stop_signal(status), Ok(Signal::SIGCONT))
}

/// Whether the process exited.
pub fn exited(status: i32) -> (r: bool)
    ensures
        r == spec_exited(status),
{
    wstatus(status) == 0
}

/// Whether a signal ended the process.
pub fn signaled(status: i32) -> (r: bool)
    ensures
        r == spec_signaled(status),
{
    wstatus(status) != WSTOPPED && wstatus(status) != 0
}

/// The signal that ended the process, where one did.
pub fn term_signal(status: i32) -> (r: Result<Signal, WaitError>)
    ensures
        r == spec_term_signal(status),
        r is Ok <==> 1 <= low_seven(status) <= 31,
        r matches Ok(signal) ==> signal.bsd_number() == Some(low_seven(status)),
        r matches Err(error) ==> error == WaitError::UnrecognizedSignal,
{
    Signal::from_bsd(wstatus(status))
}

/// Whether the process left a core dump.
pub fn dumped_core(status: i32) -> (r: bool)
    ensures
        r == spec_dumped_core(status),
{
    proof {
        lemma_core_flag(status);
    }
    (status & WCOREFLAG) != 0
}

/// The signal above the low byte is the continuing one exactly where its
/// number is that of `SIGCONT`.
pub proof fn lemma_stop_signal_is_sigcont(status: i32)
    ensures
        spec_stop_signal(status) == Ok::<Signal, WaitError>(Signal::SIGCONT) <==> above_low_byte(
            status,
        ) == SIGCONT,
{
    lemma_bsd_lookup_inverts_number(Signal::SIGCONT);
    if spec_stop_signal(status) == Ok::<Signal, WaitError>(Signal::SIGCONT) {
        let signum = above_low_byte(status);
        assert(Signal::bsd_knows(signum));
        let found = choose|signal: Signal| signal.bsd_number() == Some(signum);
        assert(found == Signal::SIGCONT);
    }
}

/// Every word matches exactly one of the four tests.
pub proof fn lemma_exactly_one(status: i32)
    ensures
        !(spec_exited(status) && spec_signaled(status)),
        !(spec_exited(status) && spec_stopped(status)),
        !(spec_exited(status) && spec_continued(status)),
        !(spec_signaled(status) && spec_stopped(status)),
        !(spec_signaled(status) && spec_continued(status)),
        !(spec_stopped(status) && spec_continued(status)),
        spec_exited(status) || spec_signaled(status) || spec_stopped(status) || spec_continued(
            status,
        ),
{
}

/// A word with the stop marker in its low seven bits and the number of
/// `SIGCONT` above its low byte is a continuation and no stop.
pub proof fn lemma_sigcont_continues(status: i32)
    requires
        low_seven(status) == WSTOPPED,
        above_low_byte(status) == SIGCONT,
    ensures
        spec_continued(status),
        !spec_stopped(status),
{
    lemma_stop_signal_is_sigcont(status);
}

/// A word that holds nothing but an exit code is an exit with that code.
pub proof fn lemma_exit_code_placed(code: i8)
    ensures
        0 <= exit_word(code) <= 0xFF00,
        spec_exited(exit_word(code) as i32),
        spec_exit_status(exit_word(code) as i32) == code,
{
}

} // verus!
