//! Verified core of a power-supply monitoring daemon.
//!
//! The library holds the logic of the daemon: parsing and filtering of
//! kernel notification payloads, sampling of device attributes from text
//! content, the event state machine, device discovery over a hardware
//! description tree, and the planning of configuration writes.  All I/O
//! (netlink sockets, sysfs files, logging, process control) lives in the
//! surrounding application, which hands this library plain values.

pub mod attrs;
pub mod bytes;
pub mod config;
pub mod discovery;
pub mod event;
pub mod supply;
pub mod uevent;

use vstd::prelude::*;

verus! {

/// The failures the library reports.  I/O failures belong to the caller,
/// which owns the files and sockets; a verification mismatch after a
/// write is an outcome, not an error.
#[derive(Debug, Clone, Copy, PartialEq, Eq, Structural)]
pub enum Error {
    /// No monitored device is present; the daemon exits gracefully.
    NotFound,
    /// An expected field or property is missing or unparseable.
    DataFormat,
}

impl Error {
    /// Short description, for the caller's log.
    pub fn as_str(&self) -> (r: &'static str)
        ensures
            r@ == (match self {
                Error::NotFound => "no monitored device found"@,
                Error::DataFormat => "missing or unparseable data"@,
            }),
    {
        match self {
            Error::NotFound => "no monitored device found",
            Error::DataFormat => "missing or unparseable data",
        }
    }
}

} // verus!
