//! The status word of Linux and Android.
//!
//! The low seven bits are zero for an exit, whose code stands in bits 8 to
//! 15. They are all set for a stop, with bit 7 clear: the stop signal stands
//! in bits 8 to 15, and bits 16 and up carry the trace event, if there is
//! one. Any other value of the low seven bits is the signal that ended the
//! process, and bit 7 tells of a core dump. The word `0xFFFF` alone means
//! that the child continued.

use crate::error::WaitError;
use crate::signal::Signal;
use crate::word::{
    core_flag, exit_word, lemma_core_flag, lemma_low_byte, lemma_low_byte_split, lemma_low_seven,
    lemma_second_byte, lemma_signed_byte, lemma_upper_half, low_byte, low_seven, second_byte,
    signed_byte, upper_half,
};
use vstd::prelude::*;

verus! {

/// The word that reports a continued child.
pub const CONTINUED: i32 = 0xFFFF;

/// The low seven bits are zero.
pub open spec fn spec_exited(status: i32) -> bool {
    low_seven(status) == 0
}

/// Bits 8 to 15, read as a signed byte.
pub open spec fn spec_exit_status(status: i32) -> int {
    signed_byte(second_byte(status))
}

/// The low seven bits name a signal: they are neither zero, which is an
/// exit, nor all set, which is a stop or a continuation.
pub open spec fn spec_signaled(status: i32) -> bool {
    1 <= low_seven(status) <= 126
}

/// The signal whose number stands in the low seven bits.
pub open spec fn spec_term_signal(status: i32) -> Result<Signal, WaitError> {
    Signal::of_linux(low_seven(status))
}

/// Bit 7 is set.
pub open spec fn spec_dumped_core(status: i32) -> bool {
    core_flag(status)
}

/// The low byte is `0x7f`: the low seven bits are set and bit 7 is clear.
pub open spec fn spec_stopped(status: i32) -> bool {
    low_byte(status) == 0x7f
}

/// The signal whose number stands in bits 8 to 15.
pub open spec fn spec_stop_signal(status: i32) -> Result<Signal, WaitError> {
    Signal::of_linux(second_byte(status))
}

/// Bits 16 and up, as a signed value.
pub open spec fn spec_stop_additional(status: i32) -> int {
    upper_half(status)
}

/// The word is `0xFFFF`.
pub open spec fn spec_continued(status: i32) -> bool {
    status == CONTINUED
}

/// Whether the word is one that the layout can produce: the low byte is not
/// all set, unless the word is the one that reports a continuation.
pub open spec fn spec_well_formed(status: i32) -> bool {
    low_byte(status) != 0xff || status == CONTINUED
}

/// Whether the process exited.
pub fn exited(status: i32) -> (r: bool)
    ensures
        r == spec_exited(status),
{
    proof {
        lemma_low_seven(status);
    }
    (status & 0x7F) == 0
}

/// The exit code, where the process exited.
pub fn exit_status(status: i32) -> (code: i8)
    ensures
        code == spec_exit_status(status),
{
    proof {
        lemma_signed_byte(status);
    }
    #[verifier::truncate]
    (((status & 0xFF00) >> 8) as i8)
}

/// Whether a signal ended the process.
pub fn signaled(status: i32) -> (r: bool)
    ensures
        r == spec_signaled(status),
{
    proof {
        lemma_low_seven(status);
    }
    let low = status & 0x7f;
    low != 0 && low != 0x7f
}

/// The signal that ended the process, where one did.
pub fn term_signal(status: i32) -> (r: Result<Signal, WaitError>)
    ensures
        r == spec_term_signal(status),
        r is Ok <==> 1 <= low_seven(status) <= 31,
        r matches Ok(signal) ==> signal.linux_number() == Some(low_seven(status)),
        r matches Err(error) ==> error == WaitError::UnrecognizedSignal,
{
    proof {
        lemma_low_seven(status);
    }
    Signal::from_linux(status & 0x7f)
}

/// Whether the process left a core dump.
pub fn dumped_core(status: i32) -> (r: bool)
    ensures
        r == spec_dumped_core(status),
{
    proof {
        lemma_core_flag(status);
    }
    (status & 0x80) != 0
}

/// Whether the process is stopped.
pub fn stopped(status: i32) -> (r: bool)
    ensures
        r == spec_stopped(status),
{
    proof {
        lemma_low_byte(status);
    }
    (status & 0xff) == 0x7f
}

/// The signal that stopped the process, where it is stopped.
pub fn stop_signal(status: i32) -> (r: Result<Signal, WaitError>)
    ensures
        r == spec_stop_signal(status),
        r is Ok <==> 1 <= second_byte(status) <= 31,
        r matches Ok(signal) ==> signal.linux_number() == Some(second_byte(status)),
        r matches Err(error) ==> error == WaitError::UnrecognizedSignal,
{
    proof {
        lemma_second_byte(status);
    }
    Signal::from_linux((status & 0xFF00) >> 8)
}

/// The trace event of a stop: zero where the stop is an ordinary one.
pub fn stop_additional(status: i32) -> (r: i32)
    ensures
        r == spec_stop_additional(status),
        -0x8000 <= r < 0x8000,
{
    proof {
        lemma_upper_half(status);
    }
    status >> 16
}

/// Whether the process continued.
pub fn continued(status: i32) -> (r: bool)
    ensures
        r == spec_continued(status),
{
    status == 0xFFFF
}

/// No word matches two of the four tests, and the words that match one are
/// the well-formed ones.
pub proof fn lemma_exactly_one(status: i32)
    ensures
        !(spec_exited(status) && spec_signaled(status)),
        !(spec_exited(status) && spec_stopped(status)),
        !(spec_exited(status) && spec_continued(status)),
        !(spec_signaled(status) && spec_stopped(status)),
        !(spec_signaled(status) && spec_continued(status)),
        !(spec_stopped(status) && spec_continued(status)),
        spec_well_formed(status) <==> (spec_exited(status) || spec_signaled(status)
            || spec_stopped(status) || spec_continued(status)),
{
    lemma_low_byte_split(status);
}

/// The test that reads the low seven bits plus one as a signed byte, and
/// asks whether half of it is positive, decides the same as the plain range
/// test.
pub proof fn lemma_signaled_by_shift(status: i32)
    ensures
        ((((status & 0x7f) + 1) as i8) >> 1) > 0 <==> spec_signaled(status),
{
    assert(((((status & 0x7f) + 1) as i8) >> 1) > 0 <==> 1 <= status % 128 <= 126)
        by (bit_vector);
}

/// A word that holds nothing but an exit code is an exit with that code.
pub proof fn lemma_exit_code_placed(code: i8)
    ensures
        0 <= exit_word(code) <= 0xFF00,
        spec_exited(exit_word(code) as i32),
        spec_exit_status(exit_word(code) as i32) == code,
{
}

} // verus!
