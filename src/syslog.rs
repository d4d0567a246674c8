//! The syslog grammar for socket datagrams, structured (RFC 5424) or legacy
//! (RFC 3164), read by syslog_loose.
use vstd::prelude::*;

use crate::message::{Message, Timestamp};
use crate::text::is_digit;
use syslog_loose::{parse_message, ProcId, Variant};

verus! {

/// The process identifier field of a syslog line.
#[derive(Clone, Debug)]
pub enum ProcIdent {
    Pid(i32),
    Name(String),
}

/// What the syslog grammar reads from one line.
#[derive(Clone, Debug)]
pub struct SyslogFields {
    pub facility: Option<u8>,
    pub severity: Option<u8>,
    pub appname: Option<String>,
    pub procid: Option<ProcIdent>,
    pub timestamp: Option<Timestamp>,
    pub msg: String,
}

/// A line with no ASCII digit and no `-`: neither grammar can read it, since
/// the structured form needs version digits and the legacy form a timestamp,
/// and every timestamp form holds a digit or is `-`.
pub open spec fn unstructured(s: Seq<char>) -> bool {
    forall|i: int| 0 <= i < s.len() ==> !is_digit(#[trigger] s[i]) && s[i] != '-'
}

/// Relies on syslog_loose::parse_message: it never fails, falling back to the
/// whole line as the message with every other field unset, and its facility
/// and severity are the codes of its two enums (0 to 23 and 0 to 7). A
/// timestamp without a year takes the current one, so the result is not a
/// function of the line alone.
#[verifier::external_body]
fn read_syslog(input: &str) -> (r: SyslogFields)
    ensures
        r.facility is Some ==> r.facility->0 <= 23,
        r.severity is Some ==> r.severity->0 <= 7,
        unstructured(input@) ==> r.facility is None && r.severity is None && r.appname is None
            && r.procid is None && r.timestamp is None && r.msg@ == input@,
{
    let m = parse_message(input, Variant::Either);
    SyslogFields {
        facility: m.facility.map(|f| f as u8),
        severity: m.severity.map(|s| s as u8),
        appname: m.appname.map(|a| a.to_owned()),
        procid: m.procid.map(|p| match p {
            ProcId::PID(i) => ProcIdent::Pid(i),
            ProcId::Name(n) => ProcIdent::Name(n.to_owned()),
        }),
        timestamp: m.timestamp.map(|t| Timestamp { secs: t.timestamp(), nanos: t.timestamp_subsec_nanos(), utc_offset: t.offset().local_minus_utc() }),
        msg: m.msg.to_owned(),
    }
}

/// The numeric process id of a procid field; a name gives none.
pub open spec fn numeric_pid(p: Option<ProcIdent>) -> Option<i32> {
    match p {
        Some(ProcIdent::Pid(i)) => Some(i),
        _ => None,
    }
}

/// Builds the stored message from what the syslog grammar read: the origin
/// is attached, a non-numeric process identifier is dropped, and every other
/// field is kept as read.
pub fn message_from_fields(origin: &str, fields: SyslogFields) -> (r: Message)
    ensures
        r.origin@ == origin@,
        r.facility == fields.facility,
        r.severity == fields.severity,
        r.appname == fields.appname,
        r.pid == numeric_pid(fields.procid),
        r.timestamp == fields.timestamp,
        r.msg == fields.msg,
{
    let pid = match fields.procid {
        Some(ProcIdent::Pid(i)) => Some(i),
        _ => None,
    };
    Message {
        facility: fields.facility,
        severity: fields.severity,
        origin: origin.to_owned(),
        appname: fields.appname,
        pid,
        timestamp: fields.timestamp,
        msg: fields.msg,
    }
}

/// Parses one syslog datagram from `origin`. It never fails: a line without
/// recognisable structure becomes the message text with the other fields unset.
pub fn parse_syslog(origin: &str, input: &str) -> (r: Message)
    ensures
        r.origin@ == origin@,
        r.codes_in_range(),
        unstructured(input@) ==> r.facility is None && r.severity is None && r.appname is None
            && r.pid is None && r.timestamp is None && r.msg@ == input@,
{
    message_from_fields(origin, read_syslog(input))
}

} // verus!
