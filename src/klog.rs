//! The kernel-log grammar: `<pri>[offset]rest`, each leading part optional.
use vstd::prelude::*;

use crate::message::{plus_seconds_spec, Message, Timestamp};
use crate::pri::{decode_pri, pri_parts, MAX_PRI};
use crate::text::{digit_run, digits_value, scan_digits, trim, trimmed_range};

verus! {

/// The largest offset in seconds that a line can carry.
pub const MAX_OFFSET: u64 = 9223372036854775807;

/// `open digits close` at position `i`, with a number of at most `max`:
/// the number, and the position just after `close`.
pub open spec fn bracketed(s: Seq<char>, i: int, open: char, close: char, max: int) -> Option<
    (int, int),
> {
    let n = digit_run(s, i + 1);
    let j = i + 1 + n;
    if 0 <= i < s.len() && s[i] == open && n > 0 && j < s.len() && s[j] == close
        && digits_value(s.subrange(i + 1, j)) <= max {
        Some((digits_value(s.subrange(i + 1, j)), j + 1))
    } else {
        None
    }
}

/// The leading `<pri>` of a line, when it holds a known priority.
pub open spec fn klog_pri(s: Seq<char>) -> Option<(int, int)> {
    bracketed(s, 0, '<', '>', MAX_PRI as int)
}

/// Where the part after the priority begins.
pub open spec fn after_pri(s: Seq<char>) -> int {
    match klog_pri(s) {
        Some(p) => p.1,
        None => 0,
    }
}

/// The `[offset]` that follows the priority, if any.
pub open spec fn klog_offset(s: Seq<char>) -> Option<(int, int)> {
    bracketed(s, after_pri(s), '[', ']', MAX_OFFSET as int)
}

/// Where the free text begins.
pub open spec fn body_start(s: Seq<char>) -> int {
    match klog_offset(s) {
        Some(o) => o.1,
        None => after_pri(s),
    }
}

/// The free text of a line, trimmed.
pub open spec fn klog_body(s: Seq<char>) -> Seq<char> {
    trim(s.subrange(body_start(s), s.len() as int))
}

/// Reads `open digits close` at `i`, with a number of at most `max`.
fn scan_bracketed(input: &str, len: usize, i: usize, open: char, close: char, max: u64) -> (r:
    Option<(u64, usize)>)
    requires
        len == input@.len(),
        i <= len,
        max < u64::MAX,
    ensures
        match bracketed(input@, i as int, open, close, max as int) {
            Some(b) => r == Some((b.0 as u64, b.1 as usize)),
            None => r.is_none(),
        },
        bracketed(input@, i as int, open, close, max as int) matches Some(b) ==> 0 <= b.0 <= max,
{
    if i >= len || input.get_char(i) != open {
        return None;
    }
    let (j, v) = scan_digits(input, len, i + 1, max + 1);
    if j == i + 1 || j >= len || input.get_char(j) != close || v > max {
        return None;
    }
    Some((v, j + 1))
}

/// Parses one kernel-log line. A part that does not match leaves the text
/// where it stands, so a line with no prefix becomes the message whole.
/// The timestamp is `boottime` plus the offset, when an offset is present.
pub fn parse_klog_line(origin: &str, input: &str, boottime: &Timestamp) -> (r: Message)
    ensures
        r.origin@ == origin@,
        match klog_pri(input@) {
            Some(p) => r.facility == Some(pri_parts(p.0).unwrap().0) && r.severity == Some(
                pri_parts(p.0).unwrap().1,
            ),
            None => r.facility.is_none() && r.severity.is_none(),
        },
        r.timestamp == match klog_offset(input@) {
            Some(o) => plus_seconds_spec(*boottime, o.0),
            None => None,
        },
        r.msg@ == klog_body(input@),
        r.appname.is_none(),
        r.pid.is_none(),
        r.codes_in_range(),
{
    let len = input.unicode_len();
    let mut pos: usize = 0;
    let mut facility: Option<u8> = None;
    let mut severity: Option<u8> = None;
    match scan_bracketed(input, len, 0, '<', '>', MAX_PRI) {
        Some((pri, end)) => {
            match decode_pri(pri) {
                Some((f, s)) => {
                    facility = Some(f);
                    severity = Some(s);
                },
                None => {},
            }
            pos = end;
        },
        None => {},
    }
    let mut timestamp: Option<Timestamp> = None;
    match scan_bracketed(input, len, pos, '[', ']', MAX_OFFSET) {
        Some((secs, end)) => {
            timestamp = boottime.plus_seconds(secs);
            pos = end;
        },
        None => {},
    }
    let (a, b) = trimmed_range(input, len, pos);
    let body = input.substring_char(a, b);
    Message {
        facility,
        severity,
        origin: origin.to_owned(),
        appname: None,
        pid: None,
        timestamp,
        msg: body.to_owned(),
    }
}

/// A line that starts with neither a priority nor an offset becomes the
/// message whole, trimmed, with no priority and no timestamp.
pub proof fn lemma_unstructured_line_kept(s: Seq<char>)
    requires
        klog_pri(s) is None,
        klog_offset(s) is None,
    ensures
        klog_body(s) == trim(s),
{
    assert(s.subrange(0, s.len() as int) =~= s);
}

} // verus!
