//! The decisions of the dispatch loop. The loop itself waits, reads and
//! stores; it asks these functions what to do with each wakeup and each read.
use vstd::prelude::*;

use crate::klog::{klog_body, klog_offset, klog_pri, parse_klog_line};
use crate::message::{plus_seconds_spec, Message, Timestamp};
use crate::pri::pri_parts;
use crate::registry::{Registry, TransportKind};
use crate::syslog::{parse_syslog, unstructured};
use vstd::string::StringSliceAdditionalSpecFns;
use crate::text::{lines, split_lines};
use vstd::utf8::{decode_utf8, encode_utf8_decode_utf8, valid_utf8};

verus! {

/// What one non-blocking read of a source gave.
#[derive(Clone, Copy, Debug, PartialEq, Eq, Structural)]
pub enum ReadOutcome {
    /// This many bytes arrived.
    Data(usize),
    /// Nothing more to read for now.
    WouldBlock,
    /// The handle failed.
    Failed,
}

/// What the loop does next with the source it is draining.
#[derive(Clone, Copy, Debug, PartialEq, Eq, Structural)]
pub enum Step {
    /// Parse and store the bytes, then read the same source again.
    Ingest(usize),
    /// Parse and store the bytes, then re-arm the source.
    IngestThenRearm(usize),
    /// Re-arm the source for its next notification.
    Rearm,
    /// Stop the process.
    Fatal,
}

/// A socket delivers one datagram per notification, so it is re-armed after
/// one read; the kernel log is read until it would block.
pub open spec fn step_spec(kind: TransportKind, outcome: ReadOutcome) -> Step {
    match outcome {
        ReadOutcome::Data(n) => if kind == TransportKind::Klog {
            Step::Ingest(n)
        } else {
            Step::IngestThenRearm(n)
        },
        ReadOutcome::WouldBlock => Step::Rearm,
        ReadOutcome::Failed => Step::Fatal,
    }
}

/// The next step after a read of a source of `kind`.
pub fn next_step(kind: TransportKind, outcome: ReadOutcome) -> (r: Step)
    ensures
        r == step_spec(kind, outcome),
{
    match outcome {
        ReadOutcome::Data(n) => if kind == TransportKind::Klog {
            Step::Ingest(n)
        } else {
            Step::IngestThenRearm(n)
        },
        ReadOutcome::WouldBlock => Step::Rearm,
        ReadOutcome::Failed => Step::Fatal,
    }
}

/// The positions of the sources behind the ready keys, in the order the keys
/// came; `None` when a key belongs to no source.
pub fn ready_sources(reg: &Registry, ready: &Vec<usize>) -> (r: Option<Vec<usize>>)
    requires
        reg.wf(),
    ensures
        r is None <==> exists|k: int| 0 <= k < ready@.len() && !reg.has_key(ready@[k]),
        r matches Some(v) ==> v@.len() == ready@.len() && forall|k: int|
            0 <= k < v@.len() ==> #[trigger] v@[k] < reg.keys().len() && reg.keys()[v@[k] as int]
                == ready@[k],
{
    let mut out: Vec<usize> = Vec::new();
    let mut k: usize = 0;
    while k < ready.len()
        invariant
            reg.wf(),
            0 <= k <= ready@.len(),
            out@.len() == k,
            forall|m: int|
                0 <= m < k ==> #[trigger] out@[m] < reg.keys().len() && reg.keys()[out@[m] as int]
                    == ready@[m],
            forall|m: int| 0 <= m < k ==> reg.has_key(#[trigger] ready@[m]),
        decreases ready@.len() - k,
    {
        match reg.lookup(ready[k]) {
            Some(i) => {
                let ghost prev = out@;
                out.push(i);
                assert(forall|m: int| 0 <= m < k ==> out@[m] == prev[m]);
            },
            None => return None,
        }
        k = k + 1;
    }
    Some(out)
}

/// Bytes that are not UTF-8.
#[derive(Clone, Copy, Debug, PartialEq, Eq, Structural)]
pub struct NotUtf8;

/// Relies on std::str::from_utf8: it succeeds exactly on valid UTF-8 and
/// then views the same bytes.
#[verifier::external_body]
fn utf8_text(b: &[u8]) -> (r: Option<&str>)
    ensures
        r is None <==> !valid_utf8(b@),
        r matches Some(s) ==> s.spec_bytes() == b@,
{
    std::str::from_utf8(b).ok()
}

/// Parses a datagram from the socket source `origin` with the syslog
/// grammar. Bytes that are not UTF-8 give `NotUtf8`.
pub fn parse_datagram(origin: &str, bytes: &[u8]) -> (r: Result<Message, NotUtf8>)
    ensures
        r is Err <==> !valid_utf8(bytes@),
        r matches Ok(m) ==> m.origin@ == origin@ && m.codes_in_range(),
        unstructured(decode_utf8(bytes@)) ==> (r matches Ok(m) ==> m.facility is None
            && m.severity is None && m.appname is None && m.pid is None && m.timestamp is None
            && m.msg@ == decode_utf8(bytes@)),
{
    match utf8_text(bytes) {
        Some(s) => {
            proof {
                encode_utf8_decode_utf8(s@);
            }
            Ok(parse_syslog(origin, s))
        },
        None => Err(NotUtf8),
    }
}

/// The message that the kernel-log grammar gives for one line.
pub open spec fn klog_message_matches(m: Message, origin: Seq<char>, line: Seq<char>, boottime: Timestamp) -> bool {
    &&& m.origin@ == origin
    &&& match klog_pri(line) {
        Some(p) => m.facility == Some(pri_parts(p.0).unwrap().0) && m.severity == Some(
            pri_parts(p.0).unwrap().1,
        ),
        None => m.facility.is_none() && m.severity.is_none(),
    }
    &&& m.timestamp == match klog_offset(line) {
        Some(o) => plus_seconds_spec(boottime, o.0),
        None => None,
    }
    &&& m.msg@ == klog_body(line)
    &&& m.appname.is_none()
    &&& m.pid.is_none()
}

/// Parses the lines of one kernel-log read, one message per line, in order.
pub fn parse_klog_lines(origin: &str, lines: &Vec<String>, boottime: &Timestamp) -> (r: Vec<
    Message,
>)
    ensures
        r@.len() == lines@.len(),
        forall|i: int|
            0 <= i < r@.len() ==> klog_message_matches(r@[i], origin@, lines@[i]@, *boottime),
{
    let mut out: Vec<Message> = Vec::new();
    let mut i: usize = 0;
    while i < lines.len()
        invariant
            0 <= i <= lines@.len(),
            out@.len() == i,
            forall|k: int|
                0 <= k < i ==> klog_message_matches(out@[k], origin@, lines@[k]@, *boottime),
        decreases lines@.len() - i,
    {
        let m = parse_klog_line(origin, lines[i].as_str(), boottime);
        out.push(m);
        i = i + 1;
    }
    out
}

/// Parses what one read of the kernel log returned: one message per line,
/// in order. Bytes that are not UTF-8 give `NotUtf8`.
pub fn parse_klog_read(origin: &str, bytes: &[u8], boottime: &Timestamp) -> (r: Result<
    Vec<Message>,
    NotUtf8,
>)
    ensures
        r is Err <==> !valid_utf8(bytes@),
        r matches Ok(v) ==> v@.len() == lines(decode_utf8(bytes@)).len() && forall|i: int|
            0 <= i < v@.len() ==> klog_message_matches(
                #[trigger] v@[i],
                origin@,
                lines(decode_utf8(bytes@))[i],
                *boottime,
            ),
{
    match utf8_text(bytes) {
        Some(s) => {
            proof {
                encode_utf8_decode_utf8(s@);
            }
            let ls = split_lines(s);
            Ok(parse_klog_lines(origin, &ls, boottime))
        },
        None => Err(NotUtf8),
    }
}

} // verus!
