use squealog::klog::parse_klog_line;
use squealog::message::Timestamp;

fn boot() -> Timestamp {
    Timestamp { secs: 1_700_000_000, nanos: 250, utc_offset: 0 }
}

#[test]
fn klog_full_prefix() {
    let m = parse_klog_line("klog", "<11>[42]hello world", &boot());
    assert_eq!(m.facility, Some(1));
    assert_eq!(m.severity, Some(3));
    assert_eq!(m.timestamp, Some(Timestamp { secs: 1_700_000_042, nanos: 250, utc_offset: 0 }));
    assert_eq!(m.msg, "hello world");
    assert_eq!(m.origin, "klog");
    assert_eq!(m.appname, None);
    assert_eq!(m.pid, None);
}

#[test]
fn klog_no_prefix() {
    let m = parse_klog_line("klog", "garbled nonsense", &boot());
    assert_eq!(m.facility, None);
    assert_eq!(m.severity, None);
    assert_eq!(m.timestamp, None);
    assert_eq!(m.msg, "garbled nonsense");
}

#[test]
fn klog_body_is_trimmed() {
    let m = parse_klog_line("klog", "<6>[7]  spaced out \t", &boot());
    assert_eq!(m.facility, Some(0));
    assert_eq!(m.severity, Some(6));
    assert_eq!(m.timestamp, Some(Timestamp { secs: 1_700_000_007, nanos: 250, utc_offset: 0 }));
    assert_eq!(m.msg, "spaced out");
}

#[test]
fn klog_priority_only() {
    let m = parse_klog_line("klog", "<30>daemon started", &boot());
    assert_eq!(m.facility, Some(3));
    assert_eq!(m.severity, Some(6));
    assert_eq!(m.timestamp, None);
    assert_eq!(m.msg, "daemon started");
}

#[test]
fn klog_offset_only() {
    let m = parse_klog_line("klog", "[0]boot", &boot());
    assert_eq!(m.facility, None);
    assert_eq!(m.timestamp, Some(boot()));
    assert_eq!(m.msg, "boot");
}

#[test]
fn klog_out_of_range_priority_is_text() {
    let m = parse_klog_line("klog", "<192>[5]x", &boot());
    assert_eq!(m.facility, None);
    assert_eq!(m.severity, None);
    assert_eq!(m.timestamp, None);
    assert_eq!(m.msg, "<192>[5]x");
}

#[test]
fn klog_largest_priority() {
    let m = parse_klog_line("klog", "<191>x", &boot());
    assert_eq!(m.facility, Some(23));
    assert_eq!(m.severity, Some(7));
    assert_eq!(m.msg, "x");
}

#[test]
fn klog_unclosed_brackets_are_text() {
    let m = parse_klog_line("klog", "<11[42]x", &boot());
    assert_eq!(m.facility, None);
    assert_eq!(m.timestamp, None);
    assert_eq!(m.msg, "<11[42]x");
    let m = parse_klog_line("klog", "<11>[42 x", &boot());
    assert_eq!(m.facility, Some(1));
    assert_eq!(m.timestamp, None);
    assert_eq!(m.msg, "[42 x");
    let m = parse_klog_line("klog", "<>[]x", &boot());
    assert_eq!(m.facility, None);
    assert_eq!(m.msg, "<>[]x");
}

#[test]
fn klog_offset_overflow_gives_no_timestamp() {
    let late = Timestamp { secs: i64::MAX - 1, nanos: 0, utc_offset: 0 };
    let m = parse_klog_line("klog", "[2]x", &late);
    assert_eq!(m.timestamp, None);
    assert_eq!(m.msg, "x");
    let m = parse_klog_line("klog", "[99999999999999999999]x", &boot());
    assert_eq!(m.timestamp, None);
    assert_eq!(m.msg, "[99999999999999999999]x");
}

#[test]
fn klog_empty_and_unicode() {
    let m = parse_klog_line("klog", "", &boot());
    assert_eq!(m.msg, "");
    assert_eq!(m.facility, None);
    let m = parse_klog_line("klog", "<3>\u{a0}grüße\u{3000}", &boot());
    assert_eq!(m.severity, Some(3));
    assert_eq!(m.msg, "grüße");
}

#[test]
fn timestamp_plus_seconds() {
    assert_eq!(boot().plus_seconds(5), Some(Timestamp { secs: 1_700_000_005, nanos: 250, utc_offset: 0 }));
    let t = Timestamp { secs: i64::MAX, nanos: 0, utc_offset: 0 };
    assert_eq!(t.plus_seconds(0), Some(t));
    assert_eq!(t.plus_seconds(1), None);
}
