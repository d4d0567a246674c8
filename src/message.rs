//! The normalised record that every grammar produces and the sink stores.
use vstd::prelude::*;

verus! {

/// A point in time: whole seconds and nanoseconds since the Unix epoch (UTC),
/// with the UTC offset in seconds that the producer wrote it in.
#[derive(Clone, Copy, Debug, PartialEq, Eq, Structural)]
pub struct Timestamp {
    pub secs: i64,
    pub nanos: u32,
    pub utc_offset: i32,
}

/// The instant `secs` seconds after `t`, if its seconds still fit in an `i64`.
pub open spec fn plus_seconds_spec(t: Timestamp, secs: int) -> Option<Timestamp> {
    if t.secs + secs <= i64::MAX as int && t.secs + secs >= i64::MIN as int {
        Some(Timestamp { secs: (t.secs + secs) as i64, nanos: t.nanos, utc_offset: t.utc_offset })
    } else {
        None
    }
}

impl Timestamp {
    /// The instant `secs` seconds later, or `None` when it cannot be held.
    pub fn plus_seconds(&self, secs: u64) -> (r: Option<Timestamp>)
        ensures
            r == plus_seconds_spec(*self, secs as int),
    {
        let room: u64 = (i64::MAX as i128 - self.secs as i128) as u64;
        if secs > room {
            None
        } else {
            Some(Timestamp { secs: (self.secs as i128 + secs as i128) as i64, ..*self })
        }
    }
}

/// A normalised log message.
///
/// `origin` names the source it came from; `pid` is set only for numeric
/// process identifiers; the other optional fields are unset when the line
/// did not carry them.
#[derive(Clone, Debug)]
pub struct Message {
    pub facility: Option<u8>,
    pub severity: Option<u8>,
    pub origin: String,
    pub appname: Option<String>,
    pub pid: Option<i32>,
    pub timestamp: Option<Timestamp>,
    pub msg: String,
}

impl Message {
    /// The facility and severity, when present, are known codes.
    pub open spec fn codes_in_range(&self) -> bool {
        &&& (self.facility.is_some() ==> self.facility.unwrap() <= 23)
        &&& (self.severity.is_some() ==> self.severity.unwrap() <= 7)
    }
}

} // verus!
