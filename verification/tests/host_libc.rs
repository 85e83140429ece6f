// The tables for Linux, held against the C library of a Linux host.

use waitstatus::error::{ECHILD, EINTR, EINVAL};
use waitstatus::flags::{
    WALL, WCLONE, WCONTINUED, WEXITED, WNOHANG, WNOTHREAD, WNOWAIT, WUNTRACED,
};
use waitstatus::linux;
use waitstatus::signal::Signal;

#[test]
fn linux_option_bits_are_those_of_libc() {
    assert_eq!(WNOHANG, libc::WNOHANG);
    assert_eq!(WUNTRACED, libc::WUNTRACED);
    assert_eq!(WEXITED, libc::WEXITED);
    assert_eq!(WCONTINUED, libc::WCONTINUED);
    assert_eq!(WNOWAIT, libc::WNOWAIT);
    assert_eq!(WNOTHREAD, libc::__WNOTHREAD);
    assert_eq!(WALL, libc::__WALL);
    assert_eq!(WCLONE, libc::__WCLONE);
}

#[test]
fn error_codes_are_those_of_libc() {
    assert_eq!(ECHILD, libc::ECHILD);
    assert_eq!(EINTR, libc::EINTR);
    assert_eq!(EINVAL, libc::EINVAL);
}

#[test]
fn linux_signal_numbers_are_those_of_libc() {
    let table = [
        (libc::SIGHUP, Signal::SIGHUP),
        (libc::SIGINT, Signal::SIGINT),
        (libc::SIGQUIT, Signal::SIGQUIT),
        (libc::SIGILL, Signal::SIGILL),
        (libc::SIGTRAP, Signal::SIGTRAP),
        (libc::SIGABRT, Signal::SIGABRT),
        (libc::SIGBUS, Signal::SIGBUS),
        (libc::SIGFPE, Signal::SIGFPE),
        (libc::SIGKILL, Signal::SIGKILL),
        (libc::SIGUSR1, Signal::SIGUSR1),
        (libc::SIGSEGV, Signal::SIGSEGV),
        (libc::SIGUSR2, Signal::SIGUSR2),
        (libc::SIGPIPE, Signal::SIGPIPE),
        (libc::SIGALRM, Signal::SIGALRM),
        (libc::SIGTERM, Signal::SIGTERM),
        (libc::SIGSTKFLT, Signal::SIGSTKFLT),
        (libc::SIGCHLD, Signal::SIGCHLD),
        (libc::SIGCONT, Signal::SIGCONT),
        (libc::SIGSTOP, Signal::SIGSTOP),
        (libc::SIGTSTP, Signal::SIGTSTP),
        (libc::SIGTTIN, Signal::SIGTTIN),
        (libc::SIGTTOU, Signal::SIGTTOU),
        (libc::SIGURG, Signal::SIGURG),
        (libc::SIGXCPU, Signal::SIGXCPU),
        (libc::SIGXFSZ, Signal::SIGXFSZ),
        (libc::SIGVTALRM, Signal::SIGVTALRM),
        (libc::SIGPROF, Signal::SIGPROF),
        (libc::SIGWINCH, Signal::SIGWINCH),
        (libc::SIGIO, Signal::SIGIO),
        (libc::SIGPWR, Signal::SIGPWR),
        (libc::SIGSYS, Signal::SIGSYS),
    ];
    for (number, signal) in table {
        assert_eq!(Signal::from_linux(number), Ok(signal));
    }
}

#[test]
fn linux_tests_agree_with_libc() {
    let mut words: Vec<i32> = (-0x2_0000..0x2_0000).collect();
    words.extend([i32::MIN, i32::MIN + 1, i32::MAX - 1, i32::MAX, 0x7fff_137f, 0x0100_ffff]);
    for status in words {
        assert_eq!(linux::exited(status), libc::WIFEXITED(status));
        assert_eq!(linux::signaled(status), libc::WIFSIGNALED(status));
        assert_eq!(linux::stopped(status), libc::WIFSTOPPED(status));
        assert_eq!(linux::continued(status), libc::WIFCONTINUED(status));
        assert_eq!(linux::dumped_core(status), libc::WCOREDUMP(status));
        assert_eq!(linux::exit_status(status), libc::WEXITSTATUS(status) as i8);
        assert_eq!(
            linux::term_signal(status),
            Signal::from_linux(libc::WTERMSIG(status))
        );
        assert_eq!(
            linux::stop_signal(status),
            Signal::from_linux(libc::WSTOPSIG(status))
        );
    }
}
