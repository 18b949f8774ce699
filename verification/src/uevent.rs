//! Parsing and filtering of kernel notification payloads.
//!
//! A payload is a NUL-separated list of segments; the segments of the
//! form `KEY=VALUE` make up the environment of the notification.  A
//! notification concerns the monitored device exactly when its action
//! field is `change` and its device-name field equals the monitored
//! name; every other message is silently dropped.  Segments that are not
//! `KEY=VALUE` pairs (such as the leading `action@devpath` header) or
//! that hold no valid text never match a field lookup and are thereby
//! ignored.

use vstd::prelude::*;
use vstd::string::StringSliceAdditionalSpecFns;

use crate::Error;
use crate::bytes::{spec_split_nul, split_nul, spec_parse_u32, parse_u32_digits, bytes_eq,
    starts_with};
use crate::supply::Sample;

verus! {

/// Whether `seg` is a `KEY=VALUE` pair for `key` (the value may be
/// empty).
pub open spec fn spec_is_entry(seg: Seq<u8>, key: Seq<u8>) -> bool {
    seg.len() > key.len() && seg.take(key.len() as int) == key && seg[key.len() as int] == 61
}

/// The value part of a `KEY=VALUE` pair for `key`.
pub open spec fn spec_entry_value(seg: Seq<u8>, key: Seq<u8>) -> Seq<u8> {
    seg.skip(key.len() as int + 1)
}

/// Value bound to `key` among the segments; when a key occurs more than
/// once, the last occurrence wins.
pub open spec fn spec_lookup(segs: Seq<Seq<u8>>, key: Seq<u8>) -> Option<Seq<u8>>
    decreases segs.len(),
{
    if segs.len() == 0 {
        None
    } else if spec_is_entry(segs.last(), key) {
        Some(spec_entry_value(segs.last(), key))
    } else {
        spec_lookup(segs.drop_last(), key)
    }
}

/// Value of the environment field `key` in a notification payload.
pub open spec fn spec_env(payload: Seq<u8>, key: Seq<u8>) -> Option<Seq<u8>> {
    spec_lookup(spec_split_nul(payload), key)
}

fn lookup(segs: &Vec<Vec<u8>>, key: &[u8]) -> (r: Option<Vec<u8>>)
    ensures
        match r {
            Some(v) => spec_lookup(segs@.map_values(|s: Vec<u8>| s@), key@) == Some(v@),
            None => spec_lookup(segs@.map_values(|s: Vec<u8>| s@), key@) is None,
        },
{
    let ghost views = segs@.map_values(|s: Vec<u8>| s@);
    let mut i: usize = segs.len();
    proof {
        assert(views.take(i as int) =~= views);
    }
    while i > 0
        invariant
            i <= segs@.len(),
            views == segs@.map_values(|s: Vec<u8>| s@),
            spec_lookup(views, key@) == spec_lookup(views.take(i as int), key@),
        decreases i,
    {
        i -= 1;
        let seg = &segs[i];
        proof {
            assert(views.take(i as int + 1).last() == seg@);
            assert(views.take(i as int + 1).drop_last() =~= views.take(i as int));
        }
        if seg.len() > key.len() && starts_with(seg.as_slice(), key) {
            if seg[key.len()] == 61 {
                let v = vstd::slice::slice_to_vec(
                    vstd::slice::slice_subrange(seg.as_slice(), key.len() + 1, seg.len()),
                );
                proof {
                    assert(spec_is_entry(seg@, key@));
                    assert(v@ =~= spec_entry_value(seg@, key@));
                }
                return Some(v);
            }
        }
        proof {
            assert(!spec_is_entry(seg@, key@));
        }
    }
    proof {
        assert(views.take(0) =~= Seq::<Seq<u8>>::empty());
    }
    None
}

/// Value of the environment field `key` in `payload`, if present.
pub fn env_lookup(payload: &[u8], key: &[u8]) -> (r: Option<Vec<u8>>)
    ensures
        match r {
            Some(v) => spec_env(payload@, key@) == Some(v@),
            None => spec_env(payload@, key@) is None,
        },
{
    let segs = split_nul(payload);
    lookup(&segs, key)
}

/// Whether a payload is a `change` notification for `device`: the filter
/// that decides which kernel messages wake the monitor.
pub open spec fn spec_matches(payload: Seq<u8>, device: Seq<u8>) -> bool {
    &&& spec_env(payload, "ACTION".spec_bytes()) == Some("change".spec_bytes())
    &&& spec_env(payload, "POWER_SUPPLY_NAME".spec_bytes()) == Some(device)
}

pub fn matches_notification(payload: &[u8], device: &[u8]) -> (r: bool)
    ensures
        r == spec_matches(payload@, device@),
{
    match env_lookup(payload, "ACTION".as_bytes()) {
        Some(a) => {
            if !bytes_eq(a.as_slice(), "change".as_bytes()) {
                return false;
            }
        },
        None => {
            return false;
        },
    }
    match env_lookup(payload, "POWER_SUPPLY_NAME".as_bytes()) {
        Some(n) => bytes_eq(n.as_slice(), device),
        None => false,
    }
}

/// The environment field `key`, read as an unsigned decimal.
pub open spec fn spec_env_u32(payload: Seq<u8>, key: Seq<u8>) -> Option<u32> {
    match spec_env(payload, key) {
        Some(v) => spec_parse_u32(v),
        None => None,
    }
}

pub open spec fn spec_capacity(payload: Seq<u8>) -> Option<u32> {
    spec_env_u32(payload, "POWER_SUPPLY_CAPACITY".spec_bytes())
}

pub open spec fn spec_critical_pct(payload: Seq<u8>) -> Option<u32> {
    spec_env_u32(payload, "POWER_SUPPLY_CAPACITY_ALERT_MIN".spec_bytes())
}

/// The online flag is the numeric field `POWER_SUPPLY_ONLINE`, set
/// exactly when that field is 1.
pub open spec fn spec_online(payload: Seq<u8>) -> Option<bool> {
    match spec_env_u32(payload, "POWER_SUPPLY_ONLINE".spec_bytes()) {
        Some(n) => Some(n == 1),
        None => None,
    }
}

pub open spec fn spec_status(payload: Seq<u8>) -> Option<Seq<u8>> {
    spec_env(payload, "POWER_SUPPLY_STATUS".spec_bytes())
}

/// Whether a matching notification carries a complete, well-formed
/// sample: all four attribute fields present, the numeric ones valid.
pub open spec fn spec_sample_ok(payload: Seq<u8>) -> bool {
    &&& spec_capacity(payload) is Some
    &&& spec_critical_pct(payload) is Some
    &&& spec_online(payload) is Some
    &&& spec_status(payload) is Some
}

fn env_u32(payload: &[u8], key: &[u8]) -> (r: Option<u32>)
    ensures
        r == spec_env_u32(payload@, key@),
{
    match env_lookup(payload, key) {
        Some(v) => parse_u32_digits(v.as_slice()),
        None => None,
    }
}

/// Read the sampled attributes out of a notification payload.  A missing
/// or unparseable field is a data-format error: a notification that woke
/// the monitor but cannot be sampled terminates the cycle, per the
/// propagation policy.
pub fn read_sample(payload: &[u8]) -> (r: Result<Sample, Error>)
    ensures
        match r {
            Ok(s) => {
                &&& spec_sample_ok(payload@)
                &&& spec_capacity(payload@) == Some(s.capacity)
                &&& spec_critical_pct(payload@) == Some(s.critical_pct)
                &&& spec_online(payload@) == Some(s.online)
                &&& spec_status(payload@) == Some(s.status@)
            },
            Err(e) => e == Error::DataFormat && !spec_sample_ok(payload@),
        },
{
    let capacity = match env_u32(payload, "POWER_SUPPLY_CAPACITY".as_bytes()) {
        Some(v) => v,
        None => {
            return Err(Error::DataFormat);
        },
    };
    let critical_pct = match env_u32(payload, "POWER_SUPPLY_CAPACITY_ALERT_MIN".as_bytes()) {
        Some(v) => v,
        None => {
            return Err(Error::DataFormat);
        },
    };
    let online = match env_u32(payload, "POWER_SUPPLY_ONLINE".as_bytes()) {
        Some(v) => v == 1,
        None => {
            return Err(Error::DataFormat);
        },
    };
    let status = match env_lookup(payload, "POWER_SUPPLY_STATUS".as_bytes()) {
        Some(v) => v,
        None => {
            return Err(Error::DataFormat);
        },
    };
    Ok(Sample { capacity, critical_pct, online, status })
}

} // verus!
