//! Decoding of the status word that a wait for a child process hands back.
//!
//! The kernel packs the reason for a child's change of state into one
//! integer, and each platform family packs it differently. This crate reads
//! that integer for Linux and Android, for the Darwin family and for the
//! other BSD systems, and resolves wait targets and wait options into the
//! integers that the call takes.

pub mod bsd;
pub mod darwin;
pub mod error;
pub mod flags;
pub mod linux;
pub mod pid;
pub mod platform;
pub mod signal;
pub mod status;
pub mod wait;
pub mod word;

pub use error::WaitError;
pub use flags::WaitPidFlag;
pub use pid::{Pid, PidGroup};
pub use platform::{Bsd, Darwin, Linux, Platform};
pub use signal::Signal;
pub use status::{decode, WaitStatus};
