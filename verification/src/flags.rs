//! The options of a wait, as a set of named switches.
//!
//! Two switches exist on every supported platform. The other six are known
//! to Linux and Android only; elsewhere a set that holds one of them has no
//! bit representation and is turned down before any call is made.

use crate::error::WaitError;
use vstd::prelude::*;

verus! {

/// Return at once if no child has changed state.
pub const WNOHANG: i32 = 0x0000_0001;

/// Report children that are stopped but not traced.
pub const WUNTRACED: i32 = 0x0000_0002;

/// Report children that have terminated. Linux and Android only.
pub const WEXITED: i32 = 0x0000_0004;

/// Report stopped children that were resumed. Linux and Android only.
pub const WCONTINUED: i32 = 0x0000_0008;

/// Leave the child waitable for a later call. Linux and Android only.
pub const WNOWAIT: i32 = 0x0100_0000;

/// Do not wait for children of other threads. Linux and Android only.
pub const WNOTHREAD: i32 = 0x2000_0000;

/// Wait for children of every kind. Linux and Android only.
pub const WALL: i32 = 0x4000_0000;

/// Wait for clone children only. Linux and Android only. The bit is the
/// sign bit of the option word.
pub const WCLONE: i32 = -0x8000_0000;

/// The options of a wait.
#[derive(Clone, Copy, Debug, PartialEq, Eq, Hash, Structural)]
pub struct WaitPidFlag {
    /// Return at once if no child has changed state.
    pub nohang: bool,
    /// Report children that are stopped but not traced.
    pub untraced: bool,
    /// Report children that have terminated.
    pub exited: bool,
    /// Report stopped children that were resumed.
    pub continued: bool,
    /// Leave the child waitable for a later call.
    pub nowait: bool,
    /// Do not wait for children of other threads.
    pub nothread: bool,
    /// Wait for children of every kind.
    pub all: bool,
    /// Wait for clone children only.
    pub clone: bool,
}

/// The contribution of one switch to the option word.
pub open spec fn weight(set: bool, bit: i32) -> int {
    if set {
        bit as int
    } else {
        0
    }
}

impl WaitPidFlag {
    /// Whether the set holds only switches that every platform knows.
    pub open spec fn is_portable(self) -> bool {
        !self.exited && !self.continued && !self.nowait && !self.nothread && !self.all
            && !self.clone
    }

    /// The option word of the two portable switches.
    pub open spec fn portable_word(self) -> int {
        weight(self.nohang, WNOHANG) + weight(self.untraced, WUNTRACED)
    }

    /// The option word on Linux and Android: each switch that is set adds its
    /// bit.
    pub open spec fn linux_word(self) -> int {
        self.portable_word() + weight(self.exited, WEXITED) + weight(self.continued, WCONTINUED)
            + weight(self.nowait, WNOWAIT) + weight(self.nothread, WNOTHREAD) + weight(
            self.all,
            WALL,
        ) + weight(self.clone, WCLONE)
    }

    /// The option word where only the portable switches exist.
    pub open spec fn portable_bits(self) -> Result<i32, WaitError> {
        if self.is_portable() {
            Ok(self.portable_word() as i32)
        } else {
            Err(WaitError::InvalidArgument)
        }
    }

    /// The set with no switch on.
    pub fn empty() -> (flags: WaitPidFlag)
        ensures
            flags == (WaitPidFlag {
                nohang: false,
                untraced: false,
                exited: false,
                continued: false,
                nowait: false,
                nothread: false,
                all: false,
                clone: false,
            }),
            flags.is_portable(),
            flags.linux_word() == 0,
    {
        WaitPidFlag {
            nohang: false,
            untraced: false,
            exited: false,
            continued: false,
            nowait: false,
            nothread: false,
            all: false,
            clone: false,
        }
    }

    /// Computes the option word of the two portable switches.
    fn low_bits(self) -> (bits: i32)
        ensures
            bits == self.portable_word(),
            0 <= bits < 4,
    {
        let mut bits: i32 = 0;
        if self.nohang {
            bits = bits | WNOHANG;
            assert(bits == 1) by (bit_vector)
                requires
                    bits == 0i32 | 1i32,
            ;
        }
        if self.untraced {
            let ghost before = bits;
            bits = bits | WUNTRACED;
            assert(bits == before + 2) by (bit_vector)
                requires
                    0 <= before < 2,
                    bits == before | 2i32,
            ;
        }
        bits
    }

    /// Computes the option word for Linux and Android, where every set is
    /// valid.
    pub fn to_linux_bits(self) -> (bits: i32)
        ensures
            bits == self.linux_word(),
    {
        let mut bits: i32 = self.low_bits();
        if self.exited {
            let ghost before = bits;
            bits = bits | WEXITED;
            assert(bits == before + 4) by (bit_vector)
                requires
                    0 <= before < 4,
                    bits == before | 4i32,
            ;
        }
        if self.continued {
            let ghost before = bits;
            bits = bits | WCONTINUED;
            assert(bits == before + 8) by (bit_vector)
                requires
                    0 <= before < 8,
                    bits == before | 8i32,
            ;
        }
        if self.nowait {
            let ghost before = bits;
            bits = bits | WNOWAIT;
            assert(bits == before + 0x0100_0000) by (bit_vector)
                requires
                    0 <= before < 0x0100_0000,
                    bits == before | 0x0100_0000i32,
            ;
        }
        if self.nothread {
            let ghost before = bits;
            bits = bits | WNOTHREAD;
            assert(bits == before + 0x2000_0000) by (bit_vector)
                requires
                    0 <= before < 0x2000_0000,
                    bits == before | 0x2000_0000i32,
            ;
        }
        if self.all {
            let ghost before = bits;
            bits = bits | WALL;
            assert(bits == before + 0x4000_0000) by (bit_vector)
                requires
                    0 <= before < 0x4000_0000,
                    bits == before | 0x4000_0000i32,
            ;
        }
        if self.clone {
            let ghost before = bits;
            bits = bits | WCLONE;
            assert(bits == before - 0x8000_0000) by (bit_vector)
                requires
                    0 <= before,
                    bits == before | (-0x8000_0000i32),
            ;
        }
        bits
    }

    /// Computes the option word for a platform that knows the two portable
    /// switches only, and turns down a set that holds any other.
    pub fn to_portable_bits(self) -> (bits: Result<i32, WaitError>)
        ensures
            bits == self.portable_bits(),
            bits is Ok <==> self.is_portable(),
            bits matches Ok(word) ==> word == self.linux_word(),
    {
        if self.exited || self.continued || self.nowait || self.nothread || self.all || self.clone {
            return Err(WaitError::InvalidArgument);
        }
        Ok(self.low_bits())
    }
}

} // verus!
