//! The platform families, each with its own layout of the status word.
//!
//! A family is a type, so the choice among them is made where the program
//! is built and costs nothing where it runs.

use crate::bsd;
use crate::darwin;
use crate::error::WaitError;
use crate::flags::WaitPidFlag;
use crate::linux;
use crate::signal::Signal;
use vstd::prelude::*;

verus! {

/// What a platform family says of a status word and of the wait options.
pub trait Platform {
    /// Whether the word reports an exit.
    spec fn spec_exited(status: i32) -> bool;

    /// The exit code that the word holds.
    spec fn spec_exit_status(status: i32) -> i8;

    /// Whether the word reports a process that a signal ended.
    spec fn spec_signaled(status: i32) -> bool;

    /// The signal that ended the process.
    spec fn spec_term_signal(status: i32) -> Result<Signal, WaitError>;

    /// Whether the word reports a core dump.
    spec fn spec_dumped_core(status: i32) -> bool;

    /// Whether the word reports a stop.
    spec fn spec_stopped(status: i32) -> bool;

    /// The signal that stopped the process.
    spec fn spec_stop_signal(status: i32) -> Result<Signal, WaitError>;

    /// The trace event of a stop; zero for an ordinary stop, and on a family
    /// that encodes no trace events.
    spec fn spec_stop_additional(status: i32) -> i32;

    /// Whether the word reports a continuation.
    spec fn spec_continued(status: i32) -> bool;

    /// The option word of a set of switches, where the family accepts the
    /// set.
    spec fn spec_option_bits(flags: WaitPidFlag) -> Result<i32, WaitError>;

    fn exited(status: i32) -> (r: bool)
        ensures
            r == Self::spec_exited(status),
    ;

    fn exit_status(status: i32) -> (code: i8)
        ensures
            code == Self::spec_exit_status(status),
    ;

    fn signaled(status: i32) -> (r: bool)
        ensures
            r == Self::spec_signaled(status),
    ;

    fn term_signal(status: i32) -> (r: Result<Signal, WaitError>)
        ensures
            r == Self::spec_term_signal(status),
    ;

    fn dumped_core(status: i32) -> (r: bool)
        ensures
            r == Self::spec_dumped_core(status),
    ;

    fn stopped(status: i32) -> (r: bool)
        ensures
            r == Self::spec_stopped(status),
    ;

    fn stop_signal(status: i32) -> (r: Result<Signal, WaitError>)
        ensures
            r == Self::spec_stop_signal(status),
    ;

    fn stop_additional(status: i32) -> (r: i32)
        ensures
            r == Self::spec_stop_additional(status),
    ;

    fn continued(status: i32) -> (r: bool)
        ensures
            r == Self::spec_continued(status),
    ;

    fn option_bits(flags: WaitPidFlag) -> (bits: Result<i32, WaitError>)
        ensures
            bits == Self::spec_option_bits(flags),
    ;

    /// No word matches two of the four tests.
    proof fn lemma_at_most_one(status: i32)
        ensures
            !(Self::spec_exited(status) && Self::spec_signaled(status)),
            !(Self::spec_exited(status) && Self::spec_stopped(status)),
            !(Self::spec_exited(status) && Self::spec_continued(status)),
            !(Self::spec_signaled(status) && Self::spec_stopped(status)),
            !(Self::spec_signaled(status) && Self::spec_continued(status)),
            !(Self::spec_stopped(status) && Self::spec_continued(status)),
    ;

    /// A signal lookup fails in one way only: the number is not in the
    /// family's table.
    proof fn lemma_signal_errors(status: i32)
        ensures
            Self::spec_term_signal(status) matches Err(error) ==> error
                == WaitError::UnrecognizedSignal,
            Self::spec_stop_signal(status) matches Err(error) ==> error
                == WaitError::UnrecognizedSignal,
    ;

    /// The options are turned down in one way only, and the empty set never
    /// is: its option word is zero.
    proof fn lemma_option_errors(flags: WaitPidFlag)
        ensures
            Self::spec_option_bits(flags) matches Err(error) ==> error
                == WaitError::InvalidArgument,
            flags.is_portable() ==> Self::spec_option_bits(flags) == Ok::<i32, WaitError>(
                flags.portable_word() as i32,
            ),
    ;
}

/// Linux and Android.
#[derive(Clone, Copy, Debug)]
pub struct Linux;

/// macOS and iOS.
#[derive(Clone, Copy, Debug)]
pub struct Darwin;

/// FreeBSD, OpenBSD, DragonFly and NetBSD.
#[derive(Clone, Copy, Debug)]
pub struct Bsd;

impl Platform for Linux {
    open spec fn spec_exited(status: i32) -> bool {
        linux::spec_exited(status)
    }

    open spec fn spec_exit_status(status: i32) -> i8 {
        linux::spec_exit_status(status) as i8
    }

    open spec fn spec_signaled(status: i32) -> bool {
        linux::spec_signaled(status)
    }

    open spec fn spec_term_signal(status: i32) -> Result<Signal, WaitError> {
        linux::spec_term_signal(status)
    }

    open spec fn spec_dumped_core(status: i32) -> bool {
        linux::spec_dumped_core(status)
    }

    open spec fn spec_stopped(status: i32) -> bool {
        linux::spec_stopped(status)
    }

    open spec fn spec_stop_signal(status: i32) -> Result<Signal, WaitError> {
        linux::spec_stop_signal(status)
    }

    open spec fn spec_stop_additional(status: i32) -> i32 {
        linux::spec_stop_additional(status) as i32
    }

    open spec fn spec_continued(status: i32) -> bool {
        linux::spec_continued(status)
    }

    open spec fn spec_option_bits(flags: WaitPidFlag) -> Result<i32, WaitError> {
        Ok(flags.linux_word() as i32)
    }

    fn exited(status: i32) -> (r: bool) {
        linux::exited(status)
    }

    fn exit_status(status: i32) -> (code: i8) {
        linux::exit_status(status)
    }

    fn signaled(status: i32) -> (r: bool) {
        linux::signaled(status)
    }

    fn term_signal(status: i32) -> (r: Result<Signal, WaitError>) {
        linux::term_signal(status)
    }

    fn dumped_core(status: i32) -> (r: bool) {
        linux::dumped_core(status)
    }

    fn stopped(status: i32) -> (r: bool) {
        linux::stopped(status)
    }

    fn stop_signal(status: i32) -> (r: Result<Signal, WaitError>) {
        linux::stop_signal(status)
    }

    fn stop_additional(status: i32) -> (r: i32) {
        linux::stop_additional(status)
    }

    fn continued(status: i32) -> (r: bool) {
        linux::continued(status)
    }

    fn option_bits(flags: WaitPidFlag) -> (bits: Result<i32, WaitError>) {
        Ok(flags.to_linux_bits())
    }

    proof fn lemma_at_most_one(status: i32) {
        linux::lemma_exactly_one(status);
    }

    proof fn lemma_signal_errors(status: i32) {
    }

    proof fn lemma_option_errors(flags: WaitPidFlag) {
    }
}

impl Platform for Darwin {
    open spec fn spec_exited(status: i32) -> bool {
        darwin::spec_exited(status)
    }

    open spec fn spec_exit_status(status: i32) -> i8 {
        darwin::spec_exit_status(status) as i8
    }

    open spec fn spec_signaled(status: i32) -> bool {
        darwin::spec_signaled(status)
    }

    open spec fn spec_term_signal(status: i32) -> Result<Signal, WaitError> {
        darwin::spec_term_signal(status)
    }

    open spec fn spec_dumped_core(status: i32) -> bool {
        darwin::spec_dumped_core(status)
    }

    open spec fn spec_stopped(status: i32) -> bool {
        darwin::spec_stopped(status)
    }

    open spec fn spec_stop_signal(status: i32) -> Result<Signal, WaitError> {
        darwin::spec_stop_signal(status)
    }

    open spec fn spec_stop_additional(status: i32) -> i32 {
        0
    }

    open spec fn spec_continued(status: i32) -> bool {
        darwin::spec_continued(status)
    }

    open spec fn spec_option_bits(flags: WaitPidFlag) -> Result<i32, WaitError> {
        flags.portable_bits()
    }

    fn exited(status: i32) -> (r: bool) {
        darwin::exited(status)
    }

    fn exit_status(status: i32) -> (code: i8) {
        darwin::exit_status(status)
    }

    fn signaled(status: i32) -> (r: bool) {
        darwin::signaled(status)
    }

    fn term_signal(status: i32) -> (r: Result<Signal, WaitError>) {
        darwin::term_signal(status)
    }

    fn dumped_core(status: i32) -> (r: bool) {
        darwin::dumped_core(status)
    }

    fn stopped(status: i32) -> (r: bool) {
        darwin::stopped(status)
    }

    fn stop_signal(status: i32) -> (r: Result<Signal, WaitError>) {
        darwin::stop_signal(status)
    }

    fn stop_additional(status: i32) -> (r: i32) {
        0
    }

    fn continued(status: i32) -> (r: bool) {
        darwin::continued(status)
    }

    fn option_bits(flags: WaitPidFlag) -> (bits: Result<i32, WaitError>) {
        flags.to_portable_bits()
    }

    proof fn lemma_at_most_one(status: i32) {
        darwin::lemma_exactly_one(status);
    }

    proof fn lemma_signal_errors(status: i32) {
    }

    proof fn lemma_option_errors(flags: WaitPidFlag) {
    }
}

impl Platform for Bsd {
    open spec fn spec_exited(status: i32) -> bool {
        bsd::spec_exited(status)
    }

    open spec fn spec_exit_status(status: i32) -> i8 {
        bsd::spec_exit_status(status) as i8
    }

    open spec fn spec_signaled(status: i32) -> bool {
        bsd::spec_signaled(status)
    }

    open spec fn spec_term_signal(status: i32) -> Result<Signal, WaitError> {
        bsd::spec_term_signal(status)
    }

    open spec fn spec_dumped_core(status: i32) -> bool {
        bsd::spec_dumped_core(status)
    }

    open spec fn spec_stopped(status: i32) -> bool {
        bsd::spec_stopped(status)
    }

    open spec fn spec_stop_signal(status: i32) -> Result<Signal, WaitError> {
        bsd::spec_stop_signal(status)
    }

    open spec fn spec_stop_additional(status: i32) -> i32 {
        0
    }

    open spec fn spec_continued(status: i32) -> bool {
        bsd::spec_continued(status)
    }

    open spec fn spec_option_bits(flags: WaitPidFlag) -> Result<i32, WaitError> {
        flags.portable_bits()
    }

    fn exited(status: i32) -> (r: bool) {
        bsd::exited(status)
    }

    fn exit_status(status: i32) -> (code: i8) {
        bsd::exit_status(status)
    }

    fn signaled(status: i32) -> (r: bool) {
        bsd::signaled(status)
    }

    fn term_signal(status: i32) -> (r: Result<Signal, WaitError>) {
        bsd::term_signal(status)
    }

    fn dumped_core(status: i32) -> (r: bool) {
        bsd::dumped_core(status)
    }

    fn stopped(status: i32) -> (r: bool) {
        bsd::stopped(status)
    }

    fn stop_signal(status: i32) -> (r: Result<Signal, WaitError>) {
        bsd::stop_signal(status)
    }

    fn stop_additional(status: i32) -> (r: i32) {
        0
    }

    fn continued(status: i32) -> (r: bool) {
        bsd::continued(status)
    }

    fn option_bits(flags: WaitPidFlag) -> (bits: Result<i32, WaitError>) {
        flags.to_portable_bits()
    }

    proof fn lemma_at_most_one(status: i32) {
        bsd::lemma_exactly_one(status);
    }

    proof fn lemma_signal_errors(status: i32) {
    }

    proof fn lemma_option_errors(flags: WaitPidFlag) {
    }
}

} // verus!
