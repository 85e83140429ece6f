//! The two halves of a wait that lie around the call into the kernel.
//!
//! [`prepare`] turns the target and the options into the two integers that
//! the call takes. [`conclude`] turns what the call handed back (its return
//! value, the error code and the status word) into the decoded status. The
//! call itself is the caller's to make.

use crate::error::WaitError;
use crate::flags::WaitPidFlag;
use crate::pid::{Pid, PidGroup};
use crate::platform::Platform;
use crate::status::{decode, spec_decode, WaitStatus};
use vstd::prelude::*;

verus! {

/// The arguments of the call: the target and the option word.
#[derive(Clone, Copy, Debug, PartialEq, Eq, Structural)]
pub struct WaitCall {
    pub pid: i32,
    pub options: i32,
}

/// The arguments that stand for the target `pid` and the options `options`.
/// No options at all make the option word zero.
pub open spec fn spec_prepare<P: Platform>(pid: PidGroup, options: Option<WaitPidFlag>) -> Result<
    WaitCall,
    WaitError,
> {
    match options {
        None => Ok(WaitCall { pid: pid.raw() as i32, options: 0 }),
        Some(flags) => match P::spec_option_bits(flags) {
            Ok(bits) => Ok(WaitCall { pid: pid.raw() as i32, options: bits }),
            Err(error) => Err(error),
        },
    }
}

/// What a wait reports when the call returned `res`, left the error code
/// `errno` and filled in the status word `status`.
pub open spec fn spec_conclude<P: Platform>(res: i32, errno: i32, status: i32) -> Result<
    WaitStatus,
    WaitError,
> {
    if res < 0 {
        Err(WaitError::of_errno(errno))
    } else if res == 0 {
        Ok(WaitStatus::StillAlive)
    } else {
        spec_decode::<P>(Pid(res), status)
    }
}

/// Resolves the target and the options into the arguments of the call.
///
/// Fails with `InvalidArgument`, and in no other way, where the options
/// hold a switch that the platform does not know.
pub fn prepare<P: Platform>(pid: PidGroup, options: Option<WaitPidFlag>) -> (r: Result<
    WaitCall,
    WaitError,
>)
    ensures
        r == spec_prepare::<P>(pid, options),
        r matches Ok(call) ==> call.pid == pid.raw(),
        r matches Err(error) ==> error == WaitError::InvalidArgument,
        options is None ==> r is Ok,
        options matches Some(flags) ==> (flags.is_portable() ==> r == Ok::<WaitCall, WaitError>(
            WaitCall { pid: pid.raw() as i32, options: flags.portable_word() as i32 },
        )),
{
    let bits = match options {
        None => 0,
        Some(flags) => {
            proof {
                P::lemma_option_errors(flags);
            }
            match P::option_bits(flags) {
                Ok(bits) => bits,
                Err(error) => {
                    return Err(error);
                },
            }
        },
    };
    Ok(WaitCall { pid: pid.to_raw(), options: bits })
}

/// Interprets what the call handed back.
///
/// A negative return value is the failure that the error code names. Zero
/// means that no child has changed state. A positive return value is the
/// process that the status word is about.
pub fn conclude<P: Platform>(res: i32, errno: i32, status: i32) -> (r: Result<
    WaitStatus,
    WaitError,
>)
    ensures
        r == spec_conclude::<P>(res, errno, status),
        res < 0 ==> r == Err::<WaitStatus, WaitError>(WaitError::of_errno(errno)),
        res == 0 ==> r == Ok::<WaitStatus, WaitError>(WaitStatus::StillAlive),
        res > 0 ==> r == spec_decode::<P>(Pid(res), status),
        r == Ok::<WaitStatus, WaitError>(WaitStatus::StillAlive) <==> res == 0,
{
    if res < 0 {
        Err(WaitError::from_errno(errno))
    } else if res == 0 {
        Ok(WaitStatus::StillAlive)
    } else {
        decode::<P>(Pid::from_raw(res), status)
    }
}

/// A wait for any child with no options takes the target minus one and the
/// option word zero, on every platform.
pub proof fn lemma_prepare_any_child<P: Platform>()
    ensures
        spec_prepare::<P>(PidGroup::AnyChild, None) == Ok::<WaitCall, WaitError>(
            WaitCall { pid: -1i32, options: 0 },
        ),
{
}

/// A call that returned zero concludes as `StillAlive`, whatever the error
/// code and the status word hold; no other return value does.
pub proof fn lemma_still_alive<P: Platform>(res: i32, errno: i32, status: i32)
    ensures
        spec_conclude::<P>(res, errno, status) == Ok::<WaitStatus, WaitError>(
            WaitStatus::StillAlive,
        ) <==> res == 0,
{
    P::lemma_signal_errors(status);
}

/// A call that failed with the error code for a missing child concludes as
/// `NoSuchChild`.
pub proof fn lemma_no_such_child<P: Platform>(res: i32, status: i32)
    requires
        res < 0,
    ensures
        spec_conclude::<P>(res, crate::error::ECHILD, status) == Err::<WaitStatus, WaitError>(
            WaitError::NoSuchChild,
        ),
{
}

} // verus!
