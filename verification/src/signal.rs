//! Signals by name, and the two numberings that the supported platforms use.
//!
//! Linux and Android share one numbering (the one of most architectures;
//! the few that number differently are not covered). Darwin and the other
//! BSD systems share another. A few signals exist in one numbering only.

use crate::error::WaitError;
use vstd::prelude::*;

verus! {

/// A signal, by its symbolic name.
#[derive(Clone, Copy, Debug, PartialEq, Eq, Hash, Structural)]
pub enum Signal {
    SIGHUP,
    SIGINT,
    SIGQUIT,
    SIGILL,
    SIGTRAP,
    SIGABRT,
    SIGBUS,
    SIGFPE,
    SIGKILL,
    SIGUSR1,
    SIGSEGV,
    SIGUSR2,
    SIGPIPE,
    SIGALRM,
    SIGTERM,
    /// Linux and Android only.
    SIGSTKFLT,
    SIGCHLD,
    SIGCONT,
    SIGSTOP,
    SIGTSTP,
    SIGTTIN,
    SIGTTOU,
    SIGURG,
    SIGXCPU,
    SIGXFSZ,
    SIGVTALRM,
    SIGPROF,
    SIGWINCH,
    SIGIO,
    /// Linux and Android only.
    SIGPWR,
    SIGSYS,
    /// Darwin and the BSD systems only.
    SIGEMT,
    /// Darwin and the BSD systems only.
    SIGINFO,
}

impl Signal {
    /// The number of this signal on Linux and Android, where it has one.
    pub open spec fn linux_number(self) -> Option<int> {
        match self {
            Signal::SIGHUP => Some(1),
            Signal::SIGINT => Some(2),
            Signal::SIGQUIT => Some(3),
            Signal::SIGILL => Some(4),
            Signal::SIGTRAP => Some(5),
            Signal::SIGABRT => Some(6),
            Signal::SIGBUS => Some(7),
            Signal::SIGFPE => Some(8),
            Signal::SIGKILL => Some(9),
            Signal::SIGUSR1 => Some(10),
            Signal::SIGSEGV => Some(11),
            Signal::SIGUSR2 => Some(12),
            Signal::SIGPIPE => Some(13),
            Signal::SIGALRM => Some(14),
            Signal::SIGTERM => Some(15),
            Signal::SIGSTKFLT => Some(16),
            Signal::SIGCHLD => Some(17),
            Signal::SIGCONT => Some(18),
            Signal::SIGSTOP => Some(19),
            Signal::SIGTSTP => Some(20),
            Signal::SIGTTIN => Some(21),
            Signal::SIGTTOU => Some(22),
            Signal::SIGURG => Some(23),
            Signal::SIGXCPU => Some(24),
            Signal::SIGXFSZ => Some(25),
            Signal::SIGVTALRM => Some(26),
            Signal::SIGPROF => Some(27),
            Signal::SIGWINCH => Some(28),
            Signal::SIGIO => Some(29),
            Signal::SIGPWR => Some(30),
            Signal::SIGSYS => Some(31),
            Signal::SIGEMT => None,
            Signal::SIGINFO => None,
        }
    }

    /// The number of this signal on Darwin and the BSD systems, where it has
    /// one.
    pub open spec fn bsd_number(self) -> Option<int> {
        match self {
            Signal::SIGHUP => Some(1),
            Signal::SIGINT => Some(2),
            Signal::SIGQUIT => Some(3),
            Signal::SIGILL => Some(4),
            Signal::SIGTRAP => Some(5),
            Signal::SIGABRT => Some(6),
            Signal::SIGEMT => Some(7),
            Signal::SIGFPE => Some(8),
            Signal::SIGKILL => Some(9),
            Signal::SIGBUS => Some(10),
            Signal::SIGSEGV => Some(11),
            Signal::SIGSYS => Some(12),
            Signal::SIGPIPE => Some(13),
            Signal::SIGALRM => Some(14),
            Signal::SIGTERM => Some(15),
            Signal::SIGURG => Some(16),
            Signal::SIGSTOP => Some(17),
            Signal::SIGTSTP => Some(18),
            Signal::SIGCONT => Some(19),
            Signal::SIGCHLD => Some(20),
            Signal::SIGTTIN => Some(21),
            Signal::SIGTTOU => Some(22),
            Signal::SIGIO => Some(23),
            Signal::SIGXCPU => Some(24),
            Signal::SIGXFSZ => Some(25),
            Signal::SIGVTALRM => Some(26),
            Signal::SIGPROF => Some(27),
            Signal::SIGWINCH => Some(28),
            Signal::SIGINFO => Some(29),
            Signal::SIGUSR1 => Some(30),
            Signal::SIGUSR2 => Some(31),
            Signal::SIGSTKFLT => None,
            Signal::SIGPWR => None,
        }
    }

    /// Whether some signal has the number `signum` on Linux and Android.
    pub open spec fn linux_knows(signum: int) -> bool {
        exists|signal: Signal| signal.linux_number() == Some(signum)
    }

    /// Whether some signal has the number `signum` on Darwin and the BSD
    /// systems.
    pub open spec fn bsd_knows(signum: int) -> bool {
        exists|signal: Signal| signal.bsd_number() == Some(signum)
    }

    /// The signal with the number `signum` on Linux and Android.
    pub open spec fn of_linux(signum: int) -> Result<Signal, WaitError> {
        if Self::linux_knows(signum) {
            Ok(choose|signal: Signal| signal.linux_number() == Some(signum))
        } else {
            Err(WaitError::UnrecognizedSignal)
        }
    }

    /// The signal with the number `signum` on Darwin and the BSD systems.
    pub open spec fn of_bsd(signum: int) -> Result<Signal, WaitError> {
        if Self::bsd_knows(signum) {
            Ok(choose|signal: Signal| signal.bsd_number() == Some(signum))
        } else {
            Err(WaitError::UnrecognizedSignal)
        }
    }

    /// Looks the number `signum` up in the numbering of Linux and Android.
    pub fn from_linux(signum: i32) -> (found: Result<Signal, WaitError>)
        ensures
            found == Self::of_linux(signum as int),
            found matches Ok(signal) ==> signal.linux_number() == Some(signum as int),
            found is Ok <==> 1 <= signum <= 31,
    {
        let found = match signum {
            1 => Ok(Signal::SIGHUP),
            2 => Ok(Signal::SIGINT),
            3 => Ok(Signal::SIGQUIT),
            4 => Ok(Signal::SIGILL),
            5 => Ok(Signal::SIGTRAP),
            6 => Ok(Signal::SIGABRT),
            7 => Ok(Signal::SIGBUS),
            8 => Ok(Signal::SIGFPE),
            9 => Ok(Signal::SIGKILL),
            10 => Ok(Signal::SIGUSR1),
            11 => Ok(Signal::SIGSEGV),
            12 => Ok(Signal::SIGUSR2),
            13 => Ok(Signal::SIGPIPE),
            14 => Ok(Signal::SIGALRM),
            15 => Ok(Signal::SIGTERM),
            16 => Ok(Signal::SIGSTKFLT),
            17 => Ok(Signal::SIGCHLD),
            18 => Ok(Signal::SIGCONT),
            19 => Ok(Signal::SIGSTOP),
            20 => Ok(Signal::SIGTSTP),
            21 => Ok(Signal::SIGTTIN),
            22 => Ok(Signal::SIGTTOU),
            23 => Ok(Signal::SIGURG),
            24 => Ok(Signal::SIGXCPU),
            25 => Ok(Signal::SIGXFSZ),
            26 => Ok(Signal::SIGVTALRM),
            27 => Ok(Signal::SIGPROF),
            28 => Ok(Signal::SIGWINCH),
            29 => Ok(Signal::SIGIO),
            30 => Ok(Signal::SIGPWR),
            31 => Ok(Signal::SIGSYS),
            _ => Err(WaitError::UnrecognizedSignal),
        };
        proof {
            if let Ok(signal) = found {
                assert(signal.linux_number() == Some(signum as int));
                lemma_linux_numbers_differ(
                    signal,
                    choose|other: Signal| other.linux_number() == Some(signum as int),
                );
            } else {
                assert forall|signal: Signal| signal.linux_number() != Some(signum as int) by {
                    lemma_linux_number_range(signal);
                }
            }
        }
        found
    }

    /// Looks the number `signum` up in the numbering of Darwin and the BSD
    /// systems.
    pub fn from_bsd(signum: i32) -> (found: Result<Signal, WaitError>)
        ensures
            found == Self::of_bsd(signum as int),
            found matches Ok(signal) ==> signal.bsd_number() == Some(signum as int),
            found is Ok <==> 1 <= signum <= 31,
    {
        let found = match signum {
            1 => Ok(Signal::SIGHUP),
            2 => Ok(Signal::SIGINT),
            3 => Ok(Signal::SIGQUIT),
            4 => Ok(Signal::SIGILL),
            5 => Ok(Signal::SIGTRAP),
            6 => Ok(Signal::SIGABRT),
            7 => Ok(Signal::SIGEMT),
            8 => Ok(Signal::SIGFPE),
            9 => Ok(Signal::SIGKILL),
            10 => Ok(Signal::SIGBUS),
            11 => Ok(Signal::SIGSEGV),
            12 => Ok(Signal::SIGSYS),
            13 => Ok(Signal::SIGPIPE),
            14 => Ok(Signal::SIGALRM),
            15 => Ok(Signal::SIGTERM),
            16 => Ok(Signal::SIGURG),
            17 => Ok(Signal::SIGSTOP),
            18 => Ok(Signal::SIGTSTP),
            19 => Ok(Signal::SIGCONT),
            20 => Ok(Signal::SIGCHLD),
            21 => Ok(Signal::SIGTTIN),
            22 => Ok(Signal::SIGTTOU),
            23 => Ok(Signal::SIGIO),
            24 => Ok(Signal::SIGXCPU),
            25 => Ok(Signal::SIGXFSZ),
            26 => Ok(Signal::SIGVTALRM),
            27 => Ok(Signal::SIGPROF),
            28 => Ok(Signal::SIGWINCH),
            29 => Ok(Signal::SIGINFO),
            30 => Ok(Signal::SIGUSR1),
            31 => Ok(Signal::SIGUSR2),
            _ => Err(WaitError::UnrecognizedSignal),
        };
        proof {
            if let Ok(signal) = found {
                assert(signal.bsd_number() == Some(signum as int));
                lemma_bsd_numbers_differ(
                    signal,
                    choose|other: Signal| other.bsd_number() == Some(signum as int),
                );
            } else {
                assert forall|signal: Signal| signal.bsd_number() != Some(signum as int) by {
                    lemma_bsd_number_range(signal);
                }
            }
        }
        found
    }
}

/// On Linux and Android every number that a signal has lies in 1 to 31.
pub proof fn lemma_linux_number_range(signal: Signal)
    ensures
        signal.linux_number() matches Some(signum) ==> 1 <= signum <= 31,
{
}

/// On Darwin and the BSD systems every number that a signal has lies in 1 to
/// 31.
pub proof fn lemma_bsd_number_range(signal: Signal)
    ensures
        signal.bsd_number() matches Some(signum) ==> 1 <= signum <= 31,
{
}

/// On Linux and Android no two signals share a number.
pub proof fn lemma_linux_numbers_differ(first: Signal, second: Signal)
    requires
        first.linux_number() is Some,
        first.linux_number() == second.linux_number(),
    ensures
        first == second,
{
}

/// On Darwin and the BSD systems no two signals share a number.
pub proof fn lemma_bsd_numbers_differ(first: Signal, second: Signal)
    requires
        first.bsd_number() is Some,
        first.bsd_number() == second.bsd_number(),
    ensures
        first == second,
{
}

/// A signal that Linux and Android number is found again under its number.
pub proof fn lemma_linux_lookup_inverts_number(signal: Signal)
    requires
        signal.linux_number() is Some,
    ensures
        Signal::of_linux(signal.linux_number().unwrap()) == Ok::<Signal, WaitError>(signal),
{
    let signum = signal.linux_number().unwrap();
    lemma_linux_numbers_differ(
        signal,
        choose|other: Signal| other.linux_number() == Some(signum),
    );
}

/// A signal that Darwin and the BSD systems number is found again under its
/// number.
pub proof fn lemma_bsd_lookup_inverts_number(signal: Signal)
    requires
        signal.bsd_number() is Some,
    ensures
        Signal::of_bsd(signal.bsd_number().unwrap()) == Ok::<Signal, WaitError>(signal),
{
    let signum = signal.bsd_number().unwrap();
    lemma_bsd_numbers_differ(
        signal,
        choose|other: Signal| other.bsd_number() == Some(signum),
    );
}

} // verus!
