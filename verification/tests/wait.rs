use waitstatus::error::{WaitError, ECHILD, EINTR, EINVAL};
use waitstatus::flags::WaitPidFlag;
use waitstatus::pid::{Pid, PidGroup};
use waitstatus::platform::{Bsd, Darwin, Linux};
use waitstatus::signal::Signal;
use waitstatus::status::WaitStatus;
use waitstatus::wait::{conclude, prepare, WaitCall};

#[test]
fn error_codes_map_to_errors() {
    assert_eq!(WaitError::from_errno(10), WaitError::NoSuchChild);
    assert_eq!(WaitError::from_errno(4), WaitError::Interrupted);
    assert_eq!(WaitError::from_errno(22), WaitError::InvalidArgument);
    assert_eq!(WaitError::from_errno(ECHILD), WaitError::NoSuchChild);
    assert_eq!(WaitError::from_errno(EINTR), WaitError::Interrupted);
    assert_eq!(WaitError::from_errno(EINVAL), WaitError::InvalidArgument);
    assert_eq!(WaitError::from_errno(12), WaitError::Other(12));
    assert_eq!(WaitError::from_errno(0), WaitError::Other(0));
    assert_eq!(WaitError::from_errno(-1), WaitError::Other(-1));
}

#[test]
fn wait_for_any_child_without_options() {
    let expected = Ok(WaitCall { pid: -1, options: 0 });
    assert_eq!(prepare::<Linux>(PidGroup::AnyChild, None), expected);
    assert_eq!(prepare::<Darwin>(PidGroup::AnyChild, None), expected);
    assert_eq!(prepare::<Bsd>(PidGroup::AnyChild, None), expected);
}

#[test]
fn prepare_resolves_target_and_options() {
    let flags = WaitPidFlag { nohang: true, untraced: true, ..WaitPidFlag::empty() };
    assert_eq!(
        prepare::<Linux>(PidGroup::ProcessID(4242), Some(flags)),
        Ok(WaitCall { pid: 4242, options: 3 })
    );
    assert_eq!(
        prepare::<Darwin>(PidGroup::ProcessGroupID(4242), Some(flags)),
        Ok(WaitCall { pid: -4242, options: 3 })
    );
    assert_eq!(
        prepare::<Bsd>(PidGroup::AnyGroupChild, Some(WaitPidFlag::empty())),
        Ok(WaitCall { pid: 0, options: 0 })
    );
    let traced = WaitPidFlag { all: true, nohang: true, ..WaitPidFlag::empty() };
    assert_eq!(
        prepare::<Linux>(PidGroup::AnyChild, Some(traced)),
        Ok(WaitCall { pid: -1, options: 0x4000_0001 })
    );
}

#[test]
fn prepare_turns_down_options_the_platform_lacks() {
    let flags = WaitPidFlag { continued: true, ..WaitPidFlag::empty() };
    assert_eq!(prepare::<Darwin>(PidGroup::AnyChild, Some(flags)), Err(WaitError::InvalidArgument));
    assert_eq!(prepare::<Bsd>(PidGroup::AnyChild, Some(flags)), Err(WaitError::InvalidArgument));
    assert_eq!(
        prepare::<Linux>(PidGroup::AnyChild, Some(flags)),
        Ok(WaitCall { pid: -1, options: 8 })
    );
}

#[test]
fn no_state_change_is_still_alive() {
    assert_eq!(conclude::<Linux>(0, 0, 0), Ok(WaitStatus::StillAlive));
    assert_eq!(conclude::<Darwin>(0, 0, 0), Ok(WaitStatus::StillAlive));
    assert_eq!(conclude::<Bsd>(0, 0, 0), Ok(WaitStatus::StillAlive));
    for status in [0x2a00, 9, 0x137f, 0xffff, 0x13, -1, i32::MIN] {
        for errno in [0, ECHILD, EINTR, EINVAL] {
            assert_eq!(conclude::<Linux>(0, errno, status), Ok(WaitStatus::StillAlive));
            assert_eq!(conclude::<Darwin>(0, errno, status), Ok(WaitStatus::StillAlive));
            assert_eq!(conclude::<Bsd>(0, errno, status), Ok(WaitStatus::StillAlive));
        }
    }
}

#[test]
fn no_matching_child_is_an_error() {
    assert_eq!(conclude::<Linux>(-1, ECHILD, 0), Err(WaitError::NoSuchChild));
    assert_eq!(conclude::<Darwin>(-1, ECHILD, 0), Err(WaitError::NoSuchChild));
    assert_eq!(conclude::<Bsd>(-1, ECHILD, 0), Err(WaitError::NoSuchChild));
    assert_eq!(conclude::<Linux>(-1, ECHILD, 0x2a00), Err(WaitError::NoSuchChild));
}

#[test]
fn interrupted_and_invalid_are_errors() {
    assert_eq!(conclude::<Linux>(-1, EINTR, 0), Err(WaitError::Interrupted));
    assert_eq!(conclude::<Linux>(-1, EINVAL, 0), Err(WaitError::InvalidArgument));
    assert_eq!(conclude::<Bsd>(-1, 5, 0), Err(WaitError::Other(5)));
    assert_eq!(conclude::<Darwin>(i32::MIN, EINTR, 0x2a00), Err(WaitError::Interrupted));
}

#[test]
fn positive_result_is_decoded() {
    let pid = Pid::from_raw(4242);
    assert_eq!(conclude::<Linux>(4242, 0, 42 << 8), Ok(WaitStatus::Exited(pid, 42)));
    assert_eq!(conclude::<Darwin>(4242, 0, 42 << 8), Ok(WaitStatus::Exited(pid, 42)));
    assert_eq!(conclude::<Bsd>(4242, 0, 42 << 8), Ok(WaitStatus::Exited(pid, 42)));
    assert_eq!(
        conclude::<Linux>(4242, ECHILD, 0x137f),
        Ok(WaitStatus::Stopped(pid, Signal::SIGSTOP))
    );
    assert_eq!(conclude::<Darwin>(4242, 0, 0x137f), Ok(WaitStatus::Continued(pid)));
    assert_eq!(conclude::<Bsd>(4242, 0, 0x137f), Ok(WaitStatus::Stopped(pid, Signal::SIGCONT)));
    assert_eq!(conclude::<Linux>(4242, 0, 0x1ff), Err(WaitError::ContractViolation));
    assert_eq!(conclude::<Linux>(4242, 0, 40), Err(WaitError::UnrecognizedSignal));
}
