//! The power-supply state machine: samples are classified into domain
//! events relative to the last meaningful event.

use vstd::prelude::*;
use vstd::string::StringSliceAdditionalSpecFns;

use crate::Error;
use crate::bytes::bytes_eq;
use crate::event::Event;
use crate::uevent::{spec_matches, spec_sample_ok, spec_capacity, spec_critical_pct, spec_online,
    spec_status, matches_notification, read_sample};

verus! {

/// The terminal charge indicator reported by the kernel in the status
/// attribute.
pub open spec fn spec_full_status() -> Seq<u8> {
    "Full".spec_bytes()
}

/// One fresh reading of the monitored device, taken each cycle.
#[derive(Debug, Clone, PartialEq, Eq)]
pub struct Sample {
    /// Charge percentage, 0 to 100.
    pub capacity: u32,
    /// Operator-configured critical threshold percentage, re-read each
    /// cycle.
    pub critical_pct: u32,
    /// Whether external power is present.
    pub online: bool,
    /// Free-form status text; `"Full"` marks a terminal charge.
    pub status: Vec<u8>,
}

/// The fixed transition table.  The critical override has strictly
/// highest priority: below the threshold, anywhere but in the startup
/// state, the classification is `Critical` regardless of the other
/// readings.  Otherwise the new event is dispatched on the last
/// meaningful event.
pub open spec fn spec_classify(
    last: Event,
    capacity: u32,
    critical_pct: u32,
    online: bool,
    status: Seq<u8>,
) -> Event {
    if capacity < critical_pct && last != Event::InitialCharge {
        Event::Critical
    } else {
        match last {
            Event::InitialCharge => if online && (status == spec_full_status() || capacity
                == 100) {
                Event::FullyCharged
            } else if !online {
                Event::PowerFail
            } else {
                Event::NoChange
            },
            Event::FullyCharged => if online {
                Event::NoChange
            } else {
                Event::PowerFail
            },
            Event::PowerFail => if online {
                Event::PowerRestored
            } else {
                Event::NoChange
            },
            Event::PowerRestored => if online && capacity == 100 {
                Event::FullyCharged
            } else if !online {
                Event::PowerFail
            } else {
                Event::NoChange
            },
            _ => Event::NoChange,
        }
    }
}

/// Classify one sample against the last meaningful event.
pub fn classify(last: Event, sample: &Sample) -> (ev: Event)
    ensures
        ev == spec_classify(last, sample.capacity, sample.critical_pct, sample.online,
            sample.status@,
        ),
{
    if sample.capacity < sample.critical_pct && last != Event::InitialCharge {
        Event::Critical
    } else {
        match last {
            Event::InitialCharge => {
                if sample.online && (bytes_eq(sample.status.as_slice(), "Full".as_bytes())
                    || sample.capacity == 100) {
                    Event::FullyCharged
                } else if !sample.online {
                    Event::PowerFail
                } else {
                    Event::NoChange
                }
            },
            Event::FullyCharged => {
                if sample.online {
                    Event::NoChange
                } else {
                    Event::PowerFail
                }
            },
            Event::PowerFail => {
                if sample.online {
                    Event::PowerRestored
                } else {
                    Event::NoChange
                }
            },
            Event::PowerRestored => {
                if sample.online && sample.capacity == 100 {
                    Event::FullyCharged
                } else if !sample.online {
                    Event::PowerFail
                } else {
                    Event::NoChange
                }
            },
            _ => Event::NoChange,
        }
    }
}

/// Below the critical threshold, anywhere but in the startup state, the
/// classification is `Critical`, whatever the online flag and status
/// text say.
pub proof fn lemma_critical_override(
    last: Event,
    capacity: u32,
    critical_pct: u32,
    online: bool,
    status: Seq<u8>,
)
    requires
        capacity < critical_pct,
        last != Event::InitialCharge,
    ensures
        spec_classify(last, capacity, critical_pct, online, status) == Event::Critical,
{
}

/// The first classification after startup: a full charge on external
/// power is `FullyCharged`, absent external power is `PowerFail`, and an
/// ordinary partial charge on external power is `NoChange`.  The critical
/// override never applies to this first sample.
pub proof fn lemma_initial_classification(
    capacity: u32,
    critical_pct: u32,
    online: bool,
    status: Seq<u8>,
)
    ensures
        online && capacity == 100 ==> spec_classify(Event::InitialCharge, capacity, critical_pct,
            online, status) == Event::FullyCharged,
        !online ==> spec_classify(Event::InitialCharge, capacity, critical_pct, online, status)
            == Event::PowerFail,
        online && capacity != 100 && status != spec_full_status() ==> spec_classify(
            Event::InitialCharge, capacity, critical_pct, online, status) == Event::NoChange,
{
}

/// Classification of one sample against the last meaningful event.
pub open spec fn spec_sample_event(last: Event, s: Sample) -> Event {
    spec_classify(last, s.capacity, s.critical_pct, s.online, s.status@)
}

/// How the remembered event advances: only a meaningful (non-`NoChange`)
/// classification is recorded.
pub open spec fn spec_update(last: Event, ev: Event) -> Event {
    if ev == Event::NoChange {
        last
    } else {
        ev
    }
}

/// The remembered event after a run of samples, each classified against
/// the state the run has reached so far.
pub open spec fn spec_run(last: Event, samples: Seq<Sample>) -> Event
    decreases samples.len(),
{
    if samples.len() == 0 {
        last
    } else {
        spec_run(spec_update(last, spec_sample_event(last, samples[0])), samples.drop_first())
    }
}

/// History is staleness-tolerant: a run of samples that all classify as
/// `NoChange` leaves the remembered event exactly as it was, so the
/// sample after the run is classified as if the run had not happened.
pub proof fn lemma_no_change_run_keeps_history(last: Event, samples: Seq<Sample>)
    requires
        forall|i: int|
            0 <= i < samples.len() ==> spec_sample_event(last, #[trigger] samples[i])
                == Event::NoChange,
    ensures
        spec_run(last, samples) == last,
    decreases samples.len(),
{
    if samples.len() > 0 {
        assert(spec_sample_event(last, samples[0]) == Event::NoChange);
        assert(forall|i: int|
            0 <= i < samples.drop_first().len() ==> spec_sample_event(last,
                #[trigger] samples.drop_first()[i]) == Event::NoChange);
        lemma_no_change_run_keeps_history(last, samples.drop_first());
    }
}

/// The state machine that owns the monitored device's name and the last
/// meaningful event.  The caller owns the notification channel and the
/// attribute files; it hands each raw payload to
/// [`Supply::handle_notification`].
pub struct Supply {
    /// Kernel name of the monitored device, fixed at discovery.
    pub driver_name: Vec<u8>,
    /// Last meaningful event; `InitialCharge` right after startup.
    pub last_event: Event,
}

impl Supply {
    /// A monitor for the named device, in the startup state.
    pub fn new(driver_name: Vec<u8>) -> (s: Supply)
        ensures
            s.driver_name == driver_name,
            s.last_event == Event::InitialCharge,
    {
        Supply { driver_name, last_event: Event::InitialCharge }
    }

    /// One monitoring cycle on one raw notification payload.
    ///
    /// Returns `Ok(None)` when the payload does not concern the monitored
    /// device (wrong device, wrong action, or malformed): the caller keeps
    /// waiting and the state is untouched.  On a matching payload the
    /// fresh sample is classified against the last meaningful event, which
    /// is updated exactly when the outcome is not `NoChange`.  A matching
    /// payload whose sample is incomplete is a data-format error and
    /// leaves the state untouched.
    pub fn handle_notification(&mut self, payload: &[u8]) -> (r: Result<Option<Event>, Error>)
        ensures
            final(self).driver_name == old(self).driver_name,
            match r {
                Ok(ev_opt) => match ev_opt {
                    None => !spec_matches(payload@, old(self).driver_name@) && *final(self)
                        == *old(self),
                    Some(ev) => {
                        &&& spec_matches(payload@, old(self).driver_name@)
                        &&& spec_sample_ok(payload@)
                        &&& ev == spec_classify(old(self).last_event,
                            spec_capacity(payload@).unwrap(),
                            spec_critical_pct(payload@).unwrap(),
                            spec_online(payload@).unwrap(),
                            spec_status(payload@).unwrap())
                        &&& final(self).last_event == spec_update(old(self).last_event, ev)
                    },
                },
                Err(e) => {
                    &&& spec_matches(payload@, old(self).driver_name@)
                    &&& !spec_sample_ok(payload@)
                    &&& e == Error::DataFormat
                    &&& *final(self) == *old(self)
                },
            },
    {
        if !matches_notification(payload, self.driver_name.as_slice()) {
            return Ok(None);
        }
        let sample = match read_sample(payload) {
            Ok(s) => s,
            Err(e) => {
                return Err(e);
            },
        };
        let ev = classify(self.last_event, &sample);
        if ev != Event::NoChange {
            self.last_event = ev;
        }
        Ok(Some(ev))
    }
}

} // verus!
