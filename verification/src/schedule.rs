//! Cron-like schedule expressions and the next run they call for.
//!
//! Supported: `@every <N>s|m|h` (a bare number is seconds), `@hourly`,
//! `@daily`, `@weekly`, and `M H * * *` (minute and hour, UTC). Instants
//! are Unix seconds (UTC).

use vstd::prelude::*;
use crate::text::{
    str_chars, trim, trim_chars, strip_prefix, strip_prefix_chars, strip_suffix,
    strip_suffix_chars, eq_chars, words, words_chars,
};

verus! {

/// The earliest instant chrono can represent: -262143-01-01T00:00:00Z.
pub const MIN_TIMESTAMP: i64 = -8334601315200;

/// The last second chrono can represent: +262142-12-31T23:59:59Z.
pub const MAX_TIMESTAMP: i64 = 8210266876799;

pub open spec fn is_digit(c: char) -> bool {
    '0' <= c <= '9'
}

pub open spec fn all_digits(s: Seq<char>) -> bool {
    forall|i: int| 0 <= i < s.len() ==> is_digit(#[trigger] s[i])
}

/// The value of a string of decimal digits.
pub open spec fn digits_value(s: Seq<char>) -> int
    decreases s.len(),
{
    if s.len() == 0 {
        0
    } else {
        digits_value(s.drop_last()) * 10 + (s.last() as int - '0' as int)
    }
}

/// The integer a string denotes in the syntax of `FromStr` for signed
/// integers: an optional `+` or `-`, then one or more decimal digits.
pub open spec fn int_value(s: Seq<char>) -> Option<int> {
    if s.len() > 0 && (s[0] == '+' || s[0] == '-') {
        let d = s.drop_first();
        if d.len() > 0 && all_digits(d) {
            Some(if s[0] == '-' { -digits_value(d) } else { digits_value(d) })
        } else {
            None
        }
    } else if s.len() > 0 && all_digits(s) {
        Some(digits_value(s))
    } else {
        None
    }
}

/// `str::parse::<i64>`.
pub open spec fn parse_i64(s: Seq<char>) -> Option<int> {
    match int_value(s) {
        Some(v) => if i64::MIN <= v <= i64::MAX {
            Some(v)
        } else {
            None
        },
        None => None,
    }
}

/// `str::parse::<u32>`: an optional `+`, then decimal digits, in range.
pub open spec fn parse_u32(s: Seq<char>) -> Option<int> {
    if s.len() > 0 && s[0] == '-' {
        None
    } else {
        match int_value(s) {
            Some(v) => if 0 <= v <= u32::MAX {
                Some(v)
            } else {
                None
            },
            None => None,
        }
    }
}

proof fn lemma_digits_value_grows(s: Seq<char>, k: int)
    requires
        0 <= k <= s.len(),
        all_digits(s),
    ensures
        digits_value(s.take(k)) <= digits_value(s),
        0 <= digits_value(s.take(k)),
    decreases s.len() - k,
{
    if k < s.len() {
        lemma_digits_value_grows(s, k + 1);
        assert(s.take(k + 1).drop_last() == s.take(k));
        assert(is_digit(s[k]));
    } else {
        assert(s.take(k) == s);
        lemma_digits_nonneg(s);
    }
}

proof fn lemma_digits_nonneg(s: Seq<char>)
    requires
        all_digits(s),
    ensures
        0 <= digits_value(s),
    decreases s.len(),
{
    if s.len() > 0 {
        assert(is_digit(s.last()));
        lemma_digits_nonneg(s.drop_last());
    }
}

/// The digits of `d` as a number, when at most `limit`; `None` when a
/// character is not a digit or the value exceeds the limit.
fn digits_up_to(d: &Vec<char>, limit: u64) -> (r: Option<u64>)
    requires
        limit >= 9,
    ensures
        r matches Some(v) ==> all_digits(d@) && v == digits_value(d@) && v <= limit,
        r is None ==> !all_digits(d@) || digits_value(d@) > limit,
{
    let mut acc: u64 = 0;
    let mut i: usize = 0;
    while i < d.len()
        invariant
            limit >= 9,
            i <= d.len(),
            all_digits(d@.take(i as int)),
            acc == digits_value(d@.take(i as int)),
            acc <= limit,
        decreases d.len() - i,
    {
        assert(d@.take(i + 1).drop_last() == d@.take(i as int));
        let c = d[i];
        if !('0' <= c && c <= '9') {
            assert(!is_digit(d@[i as int]));
            return None;
        }
        let dv = (c as u32 - '0' as u32) as u64;
        assert(digits_value(d@.take(i + 1)) == acc * 10 + dv);
        if acc > (limit - dv) / 10 {
            proof {
                assert(acc * 10 + dv > limit) by (nonlinear_arith)
                    requires
                        acc > (limit - dv) / 10,
                        dv <= 9,
                        dv <= limit,
                ;
                assert(all_digits(d@.take(i + 1)));
                if all_digits(d@) {
                    lemma_digits_value_grows(d@, i + 1);
                }
            }
            return None;
        }
        assert(acc * 10 + dv <= limit) by (nonlinear_arith)
            requires
                acc <= (limit - dv) / 10,
                dv <= limit,
        ;
        acc = acc * 10 + dv;
        i = i + 1;
    }
    assert(d@.take(d.len() as int) == d@);
    Some(acc)
}

fn rest_chars(s: &Vec<char>) -> (r: Vec<char>)
    requires
        s.len() > 0,
    ensures
        r@ == s@.drop_first(),
{
    let r = crate::text::slice_chars(s, 1, s.len());
    assert(r@ == s@.drop_first());
    r
}

/// `str::parse::<i64>`.
pub fn parse_i64_chars(s: &Vec<char>) -> (r: Option<i64>)
    ensures
        r matches Some(v) ==> parse_i64(s@) == Some(v as int),
        r is None ==> parse_i64(s@) is None,
{
    if s.len() == 0 {
        return None;
    }
    if s[0] == '+' || s[0] == '-' {
        let neg = s[0] == '-';
        let d = rest_chars(s);
        if d.len() == 0 {
            return None;
        }
        let limit: u64 = if neg {
            0x8000_0000_0000_0000
        } else {
            0x7fff_ffff_ffff_ffff
        };
        match digits_up_to(&d, limit) {
            Some(v) => {
                if neg {
                    Some((-(v as i128)) as i64)
                } else {
                    Some(v as i64)
                }
            },
            None => None,
        }
    } else {
        match digits_up_to(s, 0x7fff_ffff_ffff_ffff) {
            Some(v) => Some(v as i64),
            None => None,
        }
    }
}

/// `str::parse::<u32>`.
pub fn parse_u32_chars(s: &Vec<char>) -> (r: Option<u32>)
    ensures
        r matches Some(v) ==> parse_u32(s@) == Some(v as int),
        r is None ==> parse_u32(s@) is None,
{
    if s.len() == 0 || s[0] == '-' {
        return None;
    }
    let d = if s[0] == '+' {
        rest_chars(s)
    } else {
        crate::text::slice_chars(s, 0, s.len())
    };
    if d.len() == 0 {
        return None;
    }
    assert(s@[0] != '+' ==> d@ == s@);
    match digits_up_to(&d, 0xffff_ffff) {
        Some(v) => Some(v as u32),
        None => None,
    }
}

/// The seconds a duration such as `30s`, `5m`, `2h` or `45` denotes.
pub open spec fn duration_value(s: Seq<char>) -> Option<int> {
    match strip_suffix(s, "s"@) {
        Some(n) => parse_i64(trim(n)),
        None => match strip_suffix(s, "m"@) {
            Some(n) => match parse_i64(trim(n)) {
                Some(v) => Some(v * 60),
                None => None,
            },
            None => match strip_suffix(s, "h"@) {
                Some(n) => match parse_i64(trim(n)) {
                    Some(v) => Some(v * 3600),
                    None => None,
                },
                None => parse_i64(s),
            },
        },
    }
}

/// Parses a duration: a number of seconds (`s` suffix or none), minutes
/// (`m`) or hours (`h`).
pub fn parse_duration_secs(s: &str) -> (r: Option<i64>)
    requires
        duration_value(s@) matches Some(v) ==> i64::MIN <= v <= i64::MAX,
    ensures
        r matches Some(v) ==> duration_value(s@) == Some(v as int),
        r is None ==> duration_value(s@) is None,
{
    let v = str_chars(s);
    if let Some(n) = strip_suffix_chars(&v, &str_chars("s")) {
        return parse_i64_chars(&trim_chars(&n));
    }
    if let Some(n) = strip_suffix_chars(&v, &str_chars("m")) {
        return match parse_i64_chars(&trim_chars(&n)) {
            Some(x) => Some(x * 60),
            None => None,
        };
    }
    if let Some(n) = strip_suffix_chars(&v, &str_chars("h")) {
        return match parse_i64_chars(&trim_chars(&n)) {
            Some(x) => Some(x * 3600),
            None => None,
        };
    }
    parse_i64_chars(&v)
}

/// The start of the UTC day of `t`.
pub open spec fn day_start(t: int) -> int {
    t - t % 86400
}

/// The next run of a schedule expression after `from`.
pub open spec fn next_run(expr: Seq<char>, from: int) -> Option<int> {
    let e = trim(expr);
    match strip_prefix(e, "@every "@) {
        Some(interval) => match duration_value(trim(interval)) {
            Some(secs) => Some(from + secs),
            None => None,
        },
        None => if e == "@hourly"@ {
            Some(from + 3600)
        } else if e == "@daily"@ {
            Some(from + 86400)
        } else if e == "@weekly"@ {
            Some(from + 604800)
        } else {
            let parts = words(e);
            if parts.len() >= 2 {
                match (parse_u32(parts[0]), parse_u32(parts[1])) {
                    (Some(m), Some(h)) => if m < 60 && h < 24 {
                        let c = day_start(from) + h * 3600 + m * 60;
                        Some(if c > from { c } else { c + 86400 })
                    } else {
                        None
                    },
                    _ => None,
                }
            } else {
                None
            }
        },
    }
}

/// The next run is an instant chrono can represent.
pub open spec fn next_run_representable(expr: Seq<char>, from: int) -> bool {
    &&& MIN_TIMESTAMP <= from <= MAX_TIMESTAMP
    &&& next_run(expr, from) matches Some(r) ==> MIN_TIMESTAMP <= r <= MAX_TIMESTAMP
}

/// The seconds of a duration, with no bound on the value.
fn duration_wide(s: &Vec<char>) -> (r: Option<i128>)
    ensures
        r matches Some(v) ==> duration_value(s@) == Some(v as int),
        r is None ==> duration_value(s@) is None,
{
    if let Some(n) = strip_suffix_chars(s, &str_chars("s")) {
        return match parse_i64_chars(&trim_chars(&n)) {
            Some(x) => Some(x as i128),
            None => None,
        };
    }
    if let Some(n) = strip_suffix_chars(s, &str_chars("m")) {
        return match parse_i64_chars(&trim_chars(&n)) {
            Some(x) => Some((x as i128) * 60),
            None => None,
        };
    }
    if let Some(n) = strip_suffix_chars(s, &str_chars("h")) {
        return match parse_i64_chars(&trim_chars(&n)) {
            Some(x) => Some((x as i128) * 3600),
            None => None,
        };
    }
    match parse_i64_chars(s) {
        Some(x) => Some(x as i128),
        None => None,
    }
}

/// The next run, computed without bounds.
fn next_run_wide(expr: &str, from: i64) -> (r: Option<i128>)
    ensures
        r matches Some(t) ==> next_run(expr@, from as int) == Some(t as int),
        r is None ==> next_run(expr@, from as int) is None,
{
    let e = trim_chars(&str_chars(expr));
    let f = from as i128;
    if let Some(interval) = strip_prefix_chars(&e, &str_chars("@every ")) {
        return match duration_wide(&trim_chars(&interval)) {
            Some(secs) => Some(f + secs),
            None => None,
        };
    }
    if eq_chars(&e, &str_chars("@hourly")) {
        return Some(f + 3600);
    }
    if eq_chars(&e, &str_chars("@daily")) {
        return Some(f + 86400);
    }
    if eq_chars(&e, &str_chars("@weekly")) {
        return Some(f + 604800);
    }
    let parts = words_chars(&e);
    if parts.len() < 2 {
        return None;
    }
    assert(crate::text::views(parts@)[0] == parts@[0]@);
    assert(crate::text::views(parts@)[1] == parts@[1]@);
    let min = parse_u32_chars(&parts[0]);
    let hour = parse_u32_chars(&parts[1]);
    match (min, hour) {
        (Some(m), Some(h)) => {
            if m < 60 && h < 24 {
                let q = f / 86400;
                let q = if q * 86400 > f { q - 1 } else { q };
                let start = q * 86400;
                assert(start == day_start(from as int)) by (nonlinear_arith)
                    requires
                        start == q * 86400,
                        q * 86400 <= f < q * 86400 + 86400,
                        f == from;
                let c = start + (h as i128) * 3600 + (m as i128) * 60;
                if c > f {
                    Some(c)
                } else {
                    Some(c + 86400)
                }
            } else {
                None
            }
        },
        _ => None,
    }
}

/// Whether the next run of `expr` after `from` is within the instants
/// chrono can represent (and `from` too): the condition under which
/// `parse_next_run` can be called.
pub fn next_run_in_range(expr: &str, from: i64) -> (b: bool)
    ensures
        b == next_run_representable(expr@, from as int),
{
    if from < MIN_TIMESTAMP || from > MAX_TIMESTAMP {
        return false;
    }
    match next_run_wide(expr, from) {
        Some(t) => MIN_TIMESTAMP as i128 <= t && t <= MAX_TIMESTAMP as i128,
        None => true,
    }
}

/// The next run of a cron-like expression after the instant `from`, or
/// `None` when the expression is not understood.
pub fn parse_next_run(expr: &str, from: i64) -> (r: Option<i64>)
    requires
        next_run_representable(expr@, from as int),
    ensures
        r matches Some(t) ==> next_run(expr@, from as int) == Some(t as int),
        r is None ==> next_run(expr@, from as int) is None,
{
    match next_run_wide(expr, from) {
        Some(t) => Some(t as i64),
        None => None,
    }
}

/// A daily `M H` schedule runs next within the coming day: strictly after
/// `from`, and at most a day later.
pub proof fn daily_schedule_runs_within_a_day(expr: Seq<char>, from: int)
    requires
        strip_prefix(trim(expr), "@every "@) is None,
        trim(expr) != "@hourly"@,
        trim(expr) != "@daily"@,
        trim(expr) != "@weekly"@,
    ensures
        next_run(expr, from) matches Some(r) ==> from < r <= from + 86400,
{
    let ds = day_start(from);
    assert(ds <= from < ds + 86400) by {
        assert(from % 86400 >= 0 && from % 86400 < 86400);
    }
}

/// The `@hourly`, `@daily` and `@weekly` schedules run an hour, a day and
/// a week after `from`.
pub proof fn keyword_schedules(from: int)
    ensures
        next_run("@hourly"@, from) == Some(from + 3600),
        next_run("@daily"@, from) == Some(from + 86400),
        next_run("@weekly"@, from) == Some(from + 604800),
{
    reveal_strlit("@hourly");
    reveal_strlit("@daily");
    reveal_strlit("@weekly");
    reveal_strlit("@every ");
    assert(trim("@hourly"@) == "@hourly"@);
    assert(trim("@daily"@) == "@daily"@);
    assert(trim("@weekly"@) == "@weekly"@);
    assert("@hourly"@[1] != "@every "@[1]);
    assert("@daily"@[1] != "@every "@[1]);
    assert("@weekly"@[1] != "@every "@[1]);
    assert("@hourly"@ != "@daily"@);
    assert("@hourly"@ != "@weekly"@);
    assert("@daily"@ != "@weekly"@);
}

} // verus!
