use waitstatus::bsd;
use waitstatus::error::WaitError;
use waitstatus::pid::Pid;
use waitstatus::platform::Bsd;
use waitstatus::signal::Signal;
use waitstatus::status::{decode, WaitStatus};

#[test]
fn bsd_exit_code_42() {
    let pid = Pid::from_raw(1234);
    let status = 42 << 8;
    assert_eq!(bsd::wstatus(status), 0);
    assert!(bsd::exited(status));
    assert_eq!(bsd::exit_status(status), 42);
    assert_eq!(decode::<Bsd>(pid, status), Ok(WaitStatus::Exited(pid, 42)));
}

#[test]
fn bsd_exit_code_is_a_signed_byte() {
    let pid = Pid::from_raw(1);
    for code in i8::MIN..=i8::MAX {
        let status = ((code as u8) as i32) << 8;
        assert_eq!(bsd::exit_status(status), code);
        assert_eq!(decode::<Bsd>(pid, status), Ok(WaitStatus::Exited(pid, code)));
    }
    assert_eq!(bsd::exit_status(0x0001_ff00), -1);
}

#[test]
fn bsd_continued_is_one_word() {
    let pid = Pid::from_raw(3);
    assert!(bsd::continued(0x13));
    assert!(!bsd::signaled(0x13));
    assert!(!bsd::continued(0x0113));
    assert_eq!(decode::<Bsd>(pid, 0x13), Ok(WaitStatus::Continued(pid)));
    assert_eq!(decode::<Bsd>(pid, 0x0113), Ok(WaitStatus::Signaled(pid, Signal::SIGCONT, false)));
}

#[test]
fn bsd_stopped() {
    let pid = Pid::from_raw(3);
    let status = (17 << 8) | 0x7f;
    assert!(bsd::stopped(status));
    assert_eq!(bsd::stop_signal(status), Ok(Signal::SIGSTOP));
    assert_eq!(decode::<Bsd>(pid, status), Ok(WaitStatus::Stopped(pid, Signal::SIGSTOP)));
    let by_cont = (19 << 8) | 0x7f;
    assert!(bsd::stopped(by_cont));
    assert_eq!(decode::<Bsd>(pid, by_cont), Ok(WaitStatus::Stopped(pid, Signal::SIGCONT)));
    assert_eq!(decode::<Bsd>(pid, 0x7f), Err(WaitError::UnrecognizedSignal));
    assert_eq!(decode::<Bsd>(pid, 0x0001_117f), Err(WaitError::UnrecognizedSignal));
}

#[test]
fn bsd_killed_by_signal() {
    let pid = Pid::from_raw(3);
    assert!(bsd::signaled(15));
    assert_eq!(bsd::term_signal(15), Ok(Signal::SIGTERM));
    assert_eq!(decode::<Bsd>(pid, 15), Ok(WaitStatus::Signaled(pid, Signal::SIGTERM, false)));
    assert!(bsd::dumped_core(0x80 | 6));
    assert_eq!(decode::<Bsd>(pid, 0x80 | 6), Ok(WaitStatus::Signaled(pid, Signal::SIGABRT, true)));
    assert_eq!(decode::<Bsd>(pid, 0x80 | 0x13), Ok(WaitStatus::Signaled(pid, Signal::SIGCONT, true)));
    assert_eq!(decode::<Bsd>(pid, 100), Err(WaitError::UnrecognizedSignal));
}

#[test]
fn bsd_exactly_one_test_matches_every_word() {
    let mut status: i64 = i32::MIN as i64;
    while status <= i32::MAX as i64 {
        let word = status as i32;
        let tests =
            [bsd::exited(word), bsd::signaled(word), bsd::stopped(word), bsd::continued(word)];
        assert_eq!(tests.iter().filter(|matched| **matched).count(), 1);
        assert_ne!(decode::<Bsd>(Pid::from_raw(1), word), Err(WaitError::ContractViolation));
        status += 8191;
    }
    for word in 0..0x2_0000 {
        let tests =
            [bsd::exited(word), bsd::signaled(word), bsd::stopped(word), bsd::continued(word)];
        assert_eq!(tests.iter().filter(|matched| **matched).count(), 1);
    }
}
