//! The combined priority value `<pri>` of a syslog line: `facility * 8 + severity`.
use vstd::prelude::*;

verus! {

/// The largest facility code.
pub const MAX_FACILITY: u8 = 23;

/// The largest severity code.
pub const MAX_SEVERITY: u8 = 7;

/// The largest combined priority whose facility is a known code.
pub const MAX_PRI: u64 = 191;

/// What a combined priority decodes to: `(facility, severity)`, or nothing
/// when the facility part lies outside the known codes.
pub open spec fn pri_parts(pri: int) -> Option<(u8, u8)> {
    if 0 <= pri <= MAX_PRI as int {
        Some(((pri / 8) as u8, (pri % 8) as u8))
    } else {
        None
    }
}

/// The combined priority of a facility and a severity.
pub open spec fn compose_spec(facility: u8, severity: u8) -> int {
    facility as int * 8 + severity as int
}

/// Relies on syslog_loose::decompose_pri: the facility is `pri >> 3` when that
/// is at most 23 and absent otherwise; the severity is `pri & 7`.
#[verifier::external_body]
fn decompose(pri: u8) -> (r: (Option<u8>, Option<u8>))
    ensures
        r.0 == (if pri / 8 <= MAX_FACILITY { Some(pri / 8) } else { None::<u8> }),
        r.1 == Some(pri % 8),
{
    let (f, s) = syslog_loose::decompose_pri(pri);
    (f.map(|f| f as u8), s.map(|s| s as u8))
}

/// Splits a combined priority into facility and severity. A value whose
/// facility part is not a known code gives `None`.
pub fn decode_pri(pri: u64) -> (r: Option<(u8, u8)>)
    ensures
        r == pri_parts(pri as int),
{
    if pri > MAX_PRI {
        return None;
    }
    let (f, s) = decompose(pri as u8);
    match (f, s) {
        (Some(f), Some(s)) => Some((f, s)),
        _ => None,
    }
}

/// Combines a facility and a severity into one priority value.
pub fn compose_pri(facility: u8, severity: u8) -> (r: u64)
    requires
        facility <= MAX_FACILITY,
        severity <= MAX_SEVERITY,
    ensures
        r == compose_spec(facility, severity),
{
    facility as u64 * 8 + severity as u64
}

/// Every priority that decodes gives a facility in `0..=23` and a severity in
/// `0..=7`, and composing them gives back the priority.
pub proof fn lemma_decode_in_range(pri: int)
    requires
        pri_parts(pri).is_some(),
    ensures
        pri_parts(pri).unwrap().0 <= MAX_FACILITY,
        pri_parts(pri).unwrap().1 <= MAX_SEVERITY,
        compose_spec(pri_parts(pri).unwrap().0, pri_parts(pri).unwrap().1) == pri,
{
}

/// Every facility in `0..=23` and severity in `0..=7` compose to a priority
/// that decodes back to the same pair.
pub proof fn lemma_compose_round_trip(facility: u8, severity: u8)
    requires
        facility <= MAX_FACILITY,
        severity <= MAX_SEVERITY,
    ensures
        pri_parts(compose_spec(facility, severity)) == Some((facility, severity)),
{
}

} // verus!
