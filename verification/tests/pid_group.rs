use waitstatus::pid::{Pid, PidGroup};

#[test]
fn positive_integer_is_a_process() {
    assert_eq!(PidGroup::from(1), PidGroup::ProcessID(1));
    assert_eq!(PidGroup::from(4242), PidGroup::ProcessID(4242));
    assert_eq!(PidGroup::from(i32::MAX), PidGroup::ProcessID(0x7fff_ffff));
}

#[test]
fn integer_below_minus_one_is_a_group() {
    assert_eq!(PidGroup::from(-2), PidGroup::ProcessGroupID(2));
    assert_eq!(PidGroup::from(-4242), PidGroup::ProcessGroupID(4242));
    assert_eq!(PidGroup::from(i32::MIN), PidGroup::ProcessGroupID(0x8000_0000));
}

#[test]
fn zero_and_minus_one_are_the_targets_without_identifier() {
    assert_eq!(PidGroup::from(0), PidGroup::AnyGroupChild);
    assert_eq!(PidGroup::from(-1), PidGroup::AnyChild);
}

#[test]
fn pid_reads_as_its_raw_value() {
    assert_eq!(Pid::from_raw(17).as_raw(), 17);
    assert_eq!(PidGroup::from(Pid::from_raw(17)), PidGroup::ProcessID(17));
    assert_eq!(PidGroup::from(Pid::from_raw(-17)), PidGroup::ProcessGroupID(17));
    assert_eq!(PidGroup::from(Pid::from_raw(0)), PidGroup::AnyGroupChild);
    assert_eq!(PidGroup::from(Pid::from_raw(-1)), PidGroup::AnyChild);
}

#[test]
fn target_writes_as_signed_integer() {
    let process: i32 = PidGroup::ProcessID(4242).into();
    let group: i32 = PidGroup::ProcessGroupID(4242).into();
    let any_in_group: i32 = PidGroup::AnyGroupChild.into();
    let any: i32 = PidGroup::AnyChild.into();
    assert_eq!(process, 4242);
    assert_eq!(group, -4242);
    assert_eq!(any_in_group, 0);
    assert_eq!(any, -1);
    assert_eq!(PidGroup::ProcessGroupID(0x8000_0000).to_raw(), i32::MIN);
}

#[test]
fn faithful_targets_round_trip() {
    let targets = [
        PidGroup::ProcessID(1),
        PidGroup::ProcessID(31337),
        PidGroup::ProcessID(0x7fff_ffff),
        PidGroup::ProcessGroupID(2),
        PidGroup::ProcessGroupID(31337),
        PidGroup::ProcessGroupID(0x8000_0000),
        PidGroup::AnyGroupChild,
        PidGroup::AnyChild,
    ];
    for target in targets {
        assert_eq!(PidGroup::from(target.to_raw()), target);
    }
}

#[test]
fn every_integer_round_trips() {
    let mut raw: i64 = i32::MIN as i64;
    while raw <= i32::MAX as i64 {
        let value = raw as i32;
        assert_eq!(PidGroup::from(value).to_raw(), value);
        raw += 65_521;
    }
    for value in [i32::MIN, -2, -1, 0, 1, 2, i32::MAX] {
        assert_eq!(PidGroup::from(value).to_raw(), value);
    }
}

#[test]
fn zero_and_one_collapse_into_the_dedicated_targets() {
    assert_eq!(PidGroup::from(PidGroup::ProcessID(0).to_raw()), PidGroup::AnyGroupChild);
    assert_eq!(PidGroup::from(PidGroup::ProcessGroupID(0).to_raw()), PidGroup::AnyGroupChild);
    assert_eq!(PidGroup::from(PidGroup::ProcessGroupID(1).to_raw()), PidGroup::AnyChild);
}

#[test]
fn oversized_magnitudes_fold() {
    assert_eq!(PidGroup::ProcessID(0x8000_0000).to_raw(), i32::MIN);
    assert_eq!(PidGroup::ProcessID(u32::MAX).to_raw(), -1);
    assert_eq!(PidGroup::ProcessGroupID(0x8000_0001).to_raw(), i32::MAX);
    assert_eq!(PidGroup::ProcessGroupID(u32::MAX).to_raw(), 1);
}
