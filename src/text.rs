//! Character-level facts shared by the grammars: digit runs and whitespace trimming.
use vstd::prelude::*;

verus! {

pub open spec fn is_digit(c: char) -> bool {
    '0' <= c && c <= '9'
}

/// The number of consecutive ASCII digits in `s` starting at `i`.
pub open spec fn digit_run(s: Seq<char>, i: int) -> int
    decreases s.len() - i,
{
    if 0 <= i < s.len() && is_digit(s[i]) {
        1 + digit_run(s, i + 1)
    } else {
        0
    }
}

/// The decimal number that a run of digits spells.
pub open spec fn digits_value(s: Seq<char>) -> int
    decreases s.len(),
{
    if s.len() == 0 {
        0
    } else {
        digits_value(s.drop_last()) * 10 + (s.last() as int - '0' as int)
    }
}

/// Unicode `White_Space`, the set that `char::is_whitespace` tests.
pub open spec fn is_ws(c: char) -> bool {
    let v = c as u32;
    (9 <= v <= 13) || v == 32 || v == 0x85 || v == 0xa0 || v == 0x1680 || (0x2000 <= v
        <= 0x200a) || v == 0x2028 || v == 0x2029 || v == 0x202f || v == 0x205f || v == 0x3000
}

pub open spec fn trim_start(s: Seq<char>) -> Seq<char>
    decreases s.len(),
{
    if s.len() > 0 && is_ws(s[0]) {
        trim_start(s.drop_first())
    } else {
        s
    }
}

pub open spec fn trim_end(s: Seq<char>) -> Seq<char>
    decreases s.len(),
{
    if s.len() > 0 && is_ws(s.last()) {
        trim_end(s.drop_last())
    } else {
        s
    }
}

/// `s` without leading and trailing whitespace.
pub open spec fn trim(s: Seq<char>) -> Seq<char> {
    trim_end(trim_start(s))
}

/// Relies on char::is_whitespace: true exactly for the Unicode `White_Space` set.
#[verifier::external_body]
fn is_whitespace(c: char) -> (r: bool)
    ensures
        r == is_ws(c),
{
    c.is_whitespace()
}

/// The character positions `(a, b)` such that `input[a..b]` is `input[from..]` trimmed.
pub fn trimmed_range(input: &str, len: usize, from: usize) -> (r: (usize, usize))
    requires
        len == input@.len(),
        from <= len,
    ensures
        from <= r.0 <= r.1 <= len,
        input@.subrange(r.0 as int, r.1 as int) == trim(input@.subrange(from as int, len as int)),
{
    let ghost s = input@;
    let mut a: usize = from;
    while a < len && is_whitespace(input.get_char(a))
        invariant
            len == s.len(),
            s == input@,
            from <= a <= len,
            trim_start(s.subrange(from as int, len as int)) == trim_start(
                s.subrange(a as int, len as int),
            ),
        decreases len - a,
    {
        assert(s.subrange(a as int, len as int).drop_first() =~= s.subrange(
            a as int + 1,
            len as int,
        ));
        a = a + 1;
    }
    assert(trim_start(s.subrange(a as int, len as int)) == s.subrange(a as int, len as int));
    let mut b: usize = len;
    while b > a && is_whitespace(input.get_char(b - 1))
        invariant
            len == s.len(),
            s == input@,
            from <= a <= b <= len,
            trim_end(s.subrange(a as int, len as int)) == trim_end(
                s.subrange(a as int, b as int),
            ),
        decreases b,
    {
        assert(s.subrange(a as int, b as int).drop_last() =~= s.subrange(
            a as int,
            b as int - 1,
        ));
        b = b - 1;
    }
    assert(trim_end(s.subrange(a as int, b as int)) == s.subrange(a as int, b as int));
    (a, b)
}

proof fn lemma_cap_step(v: int, d: int, cap: int)
    requires
        v >= 0,
        0 <= d <= 9,
        cap >= 1,
    ensures
        (if 10 * (if v < cap { v } else { cap }) + d < cap { 10 * (if v < cap { v } else { cap }) + d } else { cap })
            == (if 10 * v + d < cap { 10 * v + d } else { cap }),
{
}

/// The run of digits at `start`, and its value capped at `cap`: the result
/// is `(end, min(value, cap))` where `input[start..end]` is the whole run.
pub fn scan_digits(input: &str, len: usize, start: usize, cap: u64) -> (r: (usize, u64))
    requires
        len == input@.len(),
        start <= len,
        cap >= 1,
    ensures
        r.0 == start + digit_run(input@, start as int),
        start <= r.0 <= len,
        digits_value(input@.subrange(start as int, r.0 as int)) >= 0,
        r.1 == (if digits_value(input@.subrange(start as int, r.0 as int)) < cap {
            digits_value(input@.subrange(start as int, r.0 as int))
        } else {
            cap as int
        }),
{
    let ghost s = input@;
    let mut j: usize = start;
    let mut v: u64 = 0;
    while j < len && is_ascii_digit(input.get_char(j))
        invariant
            len == s.len(),
            s == input@,
            start <= j <= len,
            cap >= 1,
            digit_run(s, start as int) == (j - start) + digit_run(s, j as int),
            digits_value(s.subrange(start as int, j as int)) >= 0,
            v == (if digits_value(s.subrange(start as int, j as int)) < cap {
                digits_value(s.subrange(start as int, j as int))
            } else {
                cap as int
            }),
        decreases len - j,
    {
        let c = input.get_char(j);
        let d: u64 = (c as u32 - '0' as u32) as u64;
        let nv: u128 = v as u128 * 10 + d as u128;
        let ghost old_dv = digits_value(s.subrange(start as int, j as int));
        proof {
            let t = s.subrange(start as int, j as int + 1);
            assert(t.drop_last() =~= s.subrange(start as int, j as int));
            assert(digits_value(t) == old_dv * 10 + d);
            lemma_cap_step(old_dv, d as int, cap as int);
        }
        v = if nv >= cap as u128 {
            cap
        } else {
            nv as u64
        };
        j = j + 1;
    }
    (j, v)
}

/// The position of the first `'\n'` in `s` at or after `i`, or the length.
pub open spec fn newline_at(s: Seq<char>, i: int) -> int
    decreases s.len() - i,
{
    if i < 0 || i >= s.len() {
        s.len() as int
    } else if s[i] == '\n' {
        i
    } else {
        newline_at(s, i + 1)
    }
}

proof fn lemma_newline_at_bounds(s: Seq<char>, i: int)
    requires
        0 <= i <= s.len(),
    ensures
        i <= newline_at(s, i) <= s.len(),
    decreases s.len() - i,
{
    if i < s.len() && s[i] != '\n' {
        lemma_newline_at_bounds(s, i + 1);
    }
}

/// The lines of `s` from position `i`: split at `'\n'`, a `'\r'` right
/// before a `'\n'` dropped with it, and no empty line after a final `'\n'`.
pub open spec fn lines_from(s: Seq<char>, i: int) -> Seq<Seq<char>>
    decreases s.len() + 1 - i,
    via lines_from_decreases
{
    if i < 0 || i >= s.len() {
        Seq::empty()
    } else {
        let k = newline_at(s, i);
        let line = s.subrange(i, k);
        let line = if k < s.len() && line.len() > 0 && line.last() == '\r' {
            line.drop_last()
        } else {
            line
        };
        seq![line] + lines_from(s, k + 1)
    }
}

#[via_fn]
proof fn lines_from_decreases(s: Seq<char>, i: int) {
    if 0 <= i < s.len() {
        lemma_newline_at_bounds(s, i);
    }
}

/// The lines of `s`, as `str::lines` gives them.
pub open spec fn lines(s: Seq<char>) -> Seq<Seq<char>> {
    lines_from(s, 0)
}

/// Relies on str::lines: lines end at `'\n'` or `"\r\n"`, which are not part
/// of them, and a final line ending adds no empty line.
#[verifier::external_body]
pub(crate) fn split_lines(s: &str) -> (r: Vec<String>)
    ensures
        r@.len() == lines(s@).len(),
        forall|i: int| 0 <= i < r@.len() ==> #[trigger] r@[i]@ == lines(s@)[i],
{
    s.lines().map(|l| l.to_owned()).collect()
}

fn is_ascii_digit(c: char) -> (r: bool)
    ensures
        r == is_digit(c),
{
    '0' <= c && c <= '9'
}

} // verus!
