//! The domain events the monitor reports to its caller.

use vstd::prelude::*;

verus! {

/// Outcome of one monitoring cycle.  `InitialCharge` is the startup state
/// and is never re-entered; `Critical` pre-empts every other
/// classification once the capacity falls below the critical threshold.
#[derive(Debug, Clone, Copy, PartialEq, Eq, Structural)]
pub enum Event {
    NoChange,
    PowerFail,
    PowerRestored,
    FullyCharged,
    InitialCharge,
    Critical,
}

impl Event {
    /// Name of the event, as the daemon logs it.
    pub fn as_str(&self) -> (r: &'static str)
        ensures
            r@ == (match self {
                Event::NoChange => "NoChange"@,
                Event::PowerFail => "PowerFail"@,
                Event::PowerRestored => "PowerRestored"@,
                Event::FullyCharged => "FullyCharged"@,
                Event::InitialCharge => "InitialCharge"@,
                Event::Critical => "Critical"@,
            }),
    {
        match self {
            Event::NoChange => "NoChange",
            Event::PowerFail => "PowerFail",
            Event::PowerRestored => "PowerRestored",
            Event::FullyCharged => "FullyCharged",
            Event::InitialCharge => "InitialCharge",
            Event::Critical => "Critical",
        }
    }

    /// Scripts directory consulted when this event is reported; the
    /// startup event and the idle event run no scripts.
    pub fn script_subdir(&self) -> (r: Option<&'static str>)
        ensures
            self is PowerFail ==> (r matches Some(s) && s@ == "power-fail"@),
            self is PowerRestored ==> (r matches Some(s) && s@ == "power-restored"@),
            self is FullyCharged ==> (r matches Some(s) && s@ == "fully-charged"@),
            self is Critical ==> (r matches Some(s) && s@ == "critical"@),
            self is InitialCharge || self is NoChange ==> r is None,
    {
        match self {
            Event::PowerFail => Some("power-fail"),
            Event::PowerRestored => Some("power-restored"),
            Event::FullyCharged => Some("fully-charged"),
            Event::Critical => Some("critical"),
            Event::InitialCharge => None,
            Event::NoChange => None,
        }
    }
}

} // verus!
