//! Process identifiers and wait targets.
//!
//! A wait call names its target by one signed integer: a positive value is a
//! single process, a value below minus one is a process group (by absolute
//! value), zero is "any child in the caller's group" and minus one is "any
//! child". [`PidGroup`] spells those four cases out.

use vstd::prelude::*;
use vstd::std_specs::convert::{FromSpecImpl, IntoSpecImpl};

verus! {

/// A process identifier as the kernel reports it.
#[derive(Clone, Copy, Debug, PartialEq, Eq, Hash, Structural)]
pub struct Pid(pub i32);

impl Pid {
    /// Wraps a raw identifier.
    pub fn from_raw(raw: i32) -> (pid: Pid)
        ensures
            pid == Pid(raw),
    {
        Pid(raw)
    }

    /// The raw identifier.
    pub fn as_raw(self) -> (raw: i32)
        ensures
            raw == self.0,
    {
        self.0
    }
}

/// Designates whether a wait is for a process, for a process group, for any
/// child in the caller's process group, or for any child at all.
#[derive(Clone, Copy, Debug, PartialEq, Eq, Hash, Structural)]
pub enum PidGroup {
    ProcessID(u32),
    ProcessGroupID(u32),
    AnyGroupChild,
    AnyChild,
}

/// The value of `x` once it is stored in 32 signed bits: values within one
/// period above or below the range fold back into it.
pub open spec fn fold_i32(x: int) -> int {
    if x > i32::MAX {
        x - 0x1_0000_0000
    } else if x < i32::MIN {
        x + 0x1_0000_0000
    } else {
        x
    }
}

/// The target that the signed integer `pid` designates.
pub open spec fn group_of(pid: int) -> PidGroup {
    if pid > 0 {
        PidGroup::ProcessID(pid as u32)
    } else if pid < -1 {
        PidGroup::ProcessGroupID((-pid) as u32)
    } else if pid == 0 {
        PidGroup::AnyGroupChild
    } else {
        PidGroup::AnyChild
    }
}

impl PidGroup {
    /// The signed integer that designates this target in a wait call.
    ///
    /// A process keeps its identifier and a group is negated. A magnitude
    /// that does not fit in 32 signed bits folds as the machine would fold it.
    pub open spec fn raw(self) -> int {
        match self {
            PidGroup::ProcessID(pid) => fold_i32(pid as int),
            PidGroup::ProcessGroupID(pid) => fold_i32(-(pid as int)),
            PidGroup::AnyGroupChild => 0,
            PidGroup::AnyChild => -1,
        }
    }

    /// Whether the target survives the passage through its integer: the
    /// magnitude fits and does not coincide with zero or minus one, which
    /// belong to the two targets without an identifier.
    pub open spec fn is_faithful(self) -> bool {
        match self {
            PidGroup::ProcessID(pid) => 1 <= pid <= i32::MAX,
            PidGroup::ProcessGroupID(pid) => 2 <= pid <= 0x8000_0000,
            PidGroup::AnyGroupChild => true,
            PidGroup::AnyChild => true,
        }
    }

    /// Computes the signed integer that designates this target.
    pub fn to_raw(self) -> (raw: i32)
        ensures
            raw == self.raw(),
    {
        match self {
            PidGroup::ProcessID(pid) => {
                if pid <= 0x7fff_ffff {
                    pid as i32
                } else {
                    (pid as i64 - 0x1_0000_0000) as i32
                }
            },
            PidGroup::ProcessGroupID(pid) => {
                if pid <= 0x8000_0000 {
                    (-(pid as i64)) as i32
                } else {
                    (0x1_0000_0000 - pid as i64) as i32
                }
            },
            PidGroup::AnyGroupChild => 0,
            PidGroup::AnyChild => -1,
        }
    }
}

impl From<i32> for PidGroup {
    fn from(pid: i32) -> (group: PidGroup) {
        if pid > 0 {
            PidGroup::ProcessID(pid as u32)
        } else if pid < -1 {
            PidGroup::ProcessGroupID((-(pid as i64)) as u32)
        } else if pid == 0 {
            PidGroup::AnyGroupChild
        } else {
            PidGroup::AnyChild
        }
    }
}

impl FromSpecImpl<i32> for PidGroup {
    open spec fn obeys_from_spec() -> bool {
        true
    }

    open spec fn from_spec(pid: i32) -> PidGroup {
        group_of(pid as int)
    }
}

impl From<Pid> for PidGroup {
    fn from(pid: Pid) -> (group: PidGroup) {
        PidGroup::from(pid.0)
    }
}

impl FromSpecImpl<Pid> for PidGroup {
    open spec fn obeys_from_spec() -> bool {
        true
    }

    open spec fn from_spec(pid: Pid) -> PidGroup {
        group_of(pid.0 as int)
    }
}

impl Into<i32> for PidGroup {
    fn into(self) -> (raw: i32) {
        self.to_raw()
    }
}

impl IntoSpecImpl<i32> for PidGroup {
    open spec fn obeys_into_spec() -> bool {
        true
    }

    open spec fn into_spec(self) -> i32 {
        self.raw() as i32
    }
}


/// Every signed integer comes back unchanged when it is read as a target and
/// the target is written as an integer again.
pub proof fn lemma_raw_round_trip(pid: i32)
    ensures
        group_of(pid as int).raw() == pid,
        group_of(pid as int).is_faithful(),
{
}

/// A faithful target comes back unchanged when it is written as an integer
/// and the integer is read as a target again.
pub proof fn lemma_group_round_trip(group: PidGroup)
    requires
        group.is_faithful(),
    ensures
        i32::MIN <= group.raw() <= i32::MAX,
        group_of(group.raw()) == group,
{
}

/// Where an identifier of zero or a group of one is written down, it reads
/// back as the target without an identifier that owns that integer.
pub proof fn lemma_group_collapse()
    ensures
        group_of(PidGroup::ProcessID(0).raw()) == PidGroup::AnyGroupChild,
        group_of(PidGroup::ProcessGroupID(0).raw()) == PidGroup::AnyGroupChild,
        group_of(PidGroup::ProcessGroupID(1).raw()) == PidGroup::AnyChild,
{
}

/// The targets that come back unchanged are exactly the faithful ones.
pub proof fn lemma_faithful_is_exact(group: PidGroup)
    ensures
        group_of(group.raw()) == group <==> group.is_faithful(),
{
}

} // verus!
