//! The decoded status of a child, and the decoder that builds it.

use crate::bsd;
use crate::darwin;
use crate::error::WaitError;
use crate::linux;
use crate::pid::Pid;
use crate::platform::{Bsd, Darwin, Linux, Platform};
use crate::signal::{lemma_linux_lookup_inverts_number, Signal};
use crate::word::{above_low_byte, exit_word, low_byte, low_seven, second_byte, upper_half};
use vstd::prelude::*;

verus! {

/// Why a child's state changed, as a wait reports it.
#[derive(Clone, Copy, Debug, PartialEq, Eq, Structural)]
pub enum WaitStatus {
    /// The process exited, with the given exit code.
    Exited(Pid, i8),
    /// The process was ended by the given signal; the flag tells whether it
    /// left a core dump.
    Signaled(Pid, Signal, bool),
    /// The process was stopped by the given signal.
    Stopped(Pid, Signal),
    /// The process was stopped by a trace event of the given kind. Linux and
    /// Android only.
    PtraceEvent(Pid, Signal, i32),
    /// The process was resumed by `SIGCONT`.
    Continued(Pid),
    /// No child has changed state; reported only where the wait was asked
    /// not to block.
    StillAlive,
}

/// What a word that reports a signal-ended process decodes to.
pub open spec fn spec_decode_signaled<P: Platform>(pid: Pid, status: i32) -> Result<
    WaitStatus,
    WaitError,
> {
    match P::spec_term_signal(status) {
        Ok(signal) => Ok(WaitStatus::Signaled(pid, signal, P::spec_dumped_core(status))),
        Err(error) => Err(error),
    }
}

/// What a word that reports a stop decodes to: an ordinary stop where the
/// trace event is zero, a trace event otherwise.
pub open spec fn spec_decode_stopped<P: Platform>(pid: Pid, status: i32) -> Result<
    WaitStatus,
    WaitError,
> {
    match P::spec_stop_signal(status) {
        Ok(signal) => if P::spec_stop_additional(status) == 0 {
            Ok(WaitStatus::Stopped(pid, signal))
        } else {
            Ok(WaitStatus::PtraceEvent(pid, signal, P::spec_stop_additional(status)))
        },
        Err(error) => Err(error),
    }
}

/// What the word `status`, reported for the process `pid`, decodes to. The
/// four tests are tried in a fixed order and the first that matches decides.
pub open spec fn spec_decode<P: Platform>(pid: Pid, status: i32) -> Result<WaitStatus, WaitError> {
    if P::spec_exited(status) {
        Ok(WaitStatus::Exited(pid, P::spec_exit_status(status)))
    } else if P::spec_signaled(status) {
        spec_decode_signaled::<P>(pid, status)
    } else if P::spec_stopped(status) {
        spec_decode_stopped::<P>(pid, status)
    } else if P::spec_continued(status) {
        Ok(WaitStatus::Continued(pid))
    } else {
        Err(WaitError::ContractViolation)
    }
}

/// Decodes a stop: an ordinary one, or a trace event where the family
/// encodes one in the word.
pub fn decode_stopped<P: Platform>(pid: Pid, status: i32) -> (r: Result<WaitStatus, WaitError>)
    ensures
        r == spec_decode_stopped::<P>(pid, status),
{
    let status_additional = P::stop_additional(status);
    match P::stop_signal(status) {
        Ok(signal) => {
            if status_additional == 0 {
                Ok(WaitStatus::Stopped(pid, signal))
            } else {
                Ok(WaitStatus::PtraceEvent(pid, signal, status_additional))
            }
        },
        Err(error) => Err(error),
    }
}

/// Decodes the status word that a wait reported for the process `pid`.
///
/// The result names exactly one reason. A word that matches none of the
/// family's tests is a `ContractViolation`; a word whose signal the family's
/// table lacks is an `UnrecognizedSignal`. No other error occurs.
pub fn decode<P: Platform>(pid: Pid, status: i32) -> (r: Result<WaitStatus, WaitError>)
    ensures
        r == spec_decode::<P>(pid, status),
        r matches Ok(WaitStatus::Exited(p, code)) ==> p == pid && P::spec_exited(status) && code
            == P::spec_exit_status(status),
        r matches Ok(WaitStatus::Signaled(p, signal, core)) ==> p == pid && P::spec_signaled(
            status,
        ) && P::spec_term_signal(status) == Ok::<Signal, WaitError>(signal) && core
            == P::spec_dumped_core(status),
        r matches Ok(WaitStatus::Stopped(p, signal)) ==> p == pid && P::spec_stopped(status)
            && P::spec_stop_signal(status) == Ok::<Signal, WaitError>(signal)
            && P::spec_stop_additional(status) == 0,
        r matches Ok(WaitStatus::PtraceEvent(p, signal, event)) ==> p == pid && P::spec_stopped(
            status,
        ) && P::spec_stop_signal(status) == Ok::<Signal, WaitError>(signal) && event
            == P::spec_stop_additional(status) && event != 0,
        r matches Ok(WaitStatus::Continued(p)) ==> p == pid && P::spec_continued(status),
        r != Ok::<WaitStatus, WaitError>(WaitStatus::StillAlive),
        r == Err::<WaitStatus, WaitError>(WaitError::ContractViolation) <==> !(P::spec_exited(
            status,
        ) || P::spec_signaled(status) || P::spec_stopped(status) || P::spec_continued(status)),
        r matches Err(error) ==> error == WaitError::ContractViolation || error
            == WaitError::UnrecognizedSignal,
{
    proof {
        P::lemma_signal_errors(status);
    }
    if P::exited(status) {
        Ok(WaitStatus::Exited(pid, P::exit_status(status)))
    } else if P::signaled(status) {
        match P::term_signal(status) {
            Ok(signal) => Ok(WaitStatus::Signaled(pid, signal, P::dumped_core(status))),
            Err(error) => Err(error),
        }
    } else if P::stopped(status) {
        decode_stopped::<P>(pid, status)
    } else if P::continued(status) {
        Ok(WaitStatus::Continued(pid))
    } else {
        Err(WaitError::ContractViolation)
    }
}

/// Which test a word matches decides what it decodes to, whatever the order
/// in which the tests are tried.
pub proof fn lemma_decode_by_test<P: Platform>(pid: Pid, status: i32)
    ensures
        P::spec_exited(status) ==> spec_decode::<P>(pid, status) == Ok::<WaitStatus, WaitError>(
            WaitStatus::Exited(pid, P::spec_exit_status(status)),
        ),
        P::spec_signaled(status) ==> spec_decode::<P>(pid, status) == spec_decode_signaled::<P>(
            pid,
            status,
        ),
        P::spec_stopped(status) ==> spec_decode::<P>(pid, status) == spec_decode_stopped::<P>(
            pid,
            status,
        ),
        P::spec_continued(status) ==> spec_decode::<P>(pid, status) == Ok::<WaitStatus, WaitError>(
            WaitStatus::Continued(pid),
        ),
{
    P::lemma_at_most_one(status);
}

/// On every family, a word that holds nothing but the exit code `code`
/// decodes to an exit with that code.
pub proof fn lemma_decode_exit_code(pid: Pid, code: i8)
    ensures
        spec_decode::<Linux>(pid, exit_word(code) as i32) == Ok::<
            WaitStatus,
            WaitError,
        >(WaitStatus::Exited(pid, code)),
        spec_decode::<Darwin>(pid, exit_word(code) as i32) == Ok::<
            WaitStatus,
            WaitError,
        >(WaitStatus::Exited(pid, code)),
        spec_decode::<Bsd>(pid, exit_word(code) as i32) == Ok::<WaitStatus, WaitError>(
            WaitStatus::Exited(pid, code),
        ),
{
    linux::lemma_exit_code_placed(code);
}

/// Reading the exit code is idempotent: the word that holds nothing but the
/// code read from `status` yields that code again, on every family.
pub proof fn lemma_exit_code_idempotent(status: i32)
    ensures
        Linux::spec_exit_status(exit_word(Linux::spec_exit_status(status)) as i32)
            == Linux::spec_exit_status(status),
        Darwin::spec_exit_status(exit_word(Darwin::spec_exit_status(status)) as i32)
            == Darwin::spec_exit_status(status),
        Bsd::spec_exit_status(exit_word(Bsd::spec_exit_status(status)) as i32)
            == Bsd::spec_exit_status(status),
{
    linux::lemma_exit_code_placed(Linux::spec_exit_status(status));
    darwin::lemma_exit_code_placed(Darwin::spec_exit_status(status));
    bsd::lemma_exit_code_placed(Bsd::spec_exit_status(status));
}

/// A decoded status names the test that its word matches: an exit only for
/// an exit word, a continuation only for a continuation word, and so on.
pub proof fn lemma_decode_names_the_test<P: Platform>(pid: Pid, status: i32)
    ensures
        spec_decode::<P>(pid, status) matches Ok(WaitStatus::Exited(_, _)) <==> P::spec_exited(
            status,
        ),
        spec_decode::<P>(pid, status) matches Ok(WaitStatus::Signaled(_, _, _))
            ==> P::spec_signaled(status),
        spec_decode::<P>(pid, status) matches Ok(WaitStatus::Stopped(_, _)) ==> P::spec_stopped(
            status,
        ) && P::spec_stop_additional(status) == 0,
        spec_decode::<P>(pid, status) matches Ok(WaitStatus::PtraceEvent(_, _, _))
            ==> P::spec_stopped(status) && P::spec_stop_additional(status) != 0,
        spec_decode::<P>(pid, status) matches Ok(WaitStatus::Continued(_)) <==> P::spec_continued(
            status,
        ),
        spec_decode::<P>(pid, status) != Ok::<WaitStatus, WaitError>(WaitStatus::StillAlive),
{
    P::lemma_at_most_one(status);
}

/// On Linux and Android a well-formed word never decodes to a
/// `ContractViolation`, and an ill-formed one always does.
pub proof fn lemma_linux_contract(pid: Pid, status: i32)
    ensures
        spec_decode::<Linux>(pid, status) == Err::<WaitStatus, WaitError>(
            WaitError::ContractViolation,
        ) <==> !linux::spec_well_formed(status),
{
    linux::lemma_exactly_one(status);
    Linux::lemma_signal_errors(status);
}

/// On the Darwin family and on the BSD systems no word decodes to a
/// `ContractViolation`.
pub proof fn lemma_bsd_contract(pid: Pid, status: i32)
    ensures
        spec_decode::<Darwin>(pid, status) != Err::<WaitStatus, WaitError>(
            WaitError::ContractViolation,
        ),
        spec_decode::<Bsd>(pid, status) != Err::<WaitStatus, WaitError>(
            WaitError::ContractViolation,
        ),
{
    Darwin::lemma_signal_errors(status);
    Bsd::lemma_signal_errors(status);
}

/// On Linux and Android, a stop by a known signal is an ordinary stop where
/// the upper half of the word is zero and a trace event of that kind
/// otherwise.
pub proof fn lemma_linux_stop(pid: Pid, status: i32, signal: Signal)
    requires
        low_byte(status) == 0x7f,
        signal.linux_number() == Some(second_byte(status)),
    ensures
        upper_half(status) == 0 ==> spec_decode::<Linux>(pid, status) == Ok::<
            WaitStatus,
            WaitError,
        >(WaitStatus::Stopped(pid, signal)),
        upper_half(status) != 0 ==> spec_decode::<Linux>(pid, status) == Ok::<
            WaitStatus,
            WaitError,
        >(WaitStatus::PtraceEvent(pid, signal, upper_half(status) as i32)),
{
    linux::lemma_exactly_one(status);
    lemma_linux_lookup_inverts_number(signal);
}

/// On the Darwin family, a word with the stop marker in its low seven bits
/// and the number of `SIGCONT` above its low byte decodes to a continuation,
/// never to a stop.
pub proof fn lemma_darwin_sigcont(pid: Pid, status: i32)
    requires
        low_seven(status) == darwin::WSTOPPED,
        above_low_byte(status) == darwin::SIGCONT,
    ensures
        spec_decode::<Darwin>(pid, status) == Ok::<WaitStatus, WaitError>(
            WaitStatus::Continued(pid),
        ),
{
    darwin::lemma_sigcont_continues(status);
}

} // verus!
