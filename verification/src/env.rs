//! `.env` file parsing and masking of secret values in log output.

use vstd::prelude::*;
use vstd::utf8::encode_utf8;
use crate::text::{
    contains, lines, split_once, str_chars, string_from_chars, strip_prefix, trim, views, occurs_at, is_ws,
    trim_start, trim_end, starts_with, first_index, has_char, lines_acc,
    lines_chars, occurs_at_chars, slice_chars, split_once_chars, strip_prefix_chars, trim_chars,
};

verus! {

/// A value wrapped in a matching pair of `"` or `'` quotes. A value that is
/// a single quote character has no pair, and is kept as it is.
pub open spec fn is_quoted(v: Seq<char>) -> bool {
    v.len() >= 2 && ((v[0] == '"' && v.last() == '"') || (v[0] == '\'' && v.last() == '\''))
}

/// The value with its surrounding quotes removed, if it has them.
pub open spec fn unquote(v: Seq<char>) -> Seq<char> {
    if is_quoted(v) {
        v.subrange(1, v.len() - 1)
    } else {
        v
    }
}

/// The text of a line after blank and comment lines are dropped and a leading
/// `export ` is stripped; `None` for blank and comment lines.
pub open spec fn dotenv_body(line: Seq<char>) -> Option<Seq<char>> {
    let t = trim(line);
    if t.len() == 0 || t[0] == '#' {
        None
    } else {
        match strip_prefix(t, "export "@) {
            Some(r) => Some(r),
            None => Some(t),
        }
    }
}

/// The `(key, raw value)` split of a line at its first `=`, both trimmed.
pub open spec fn dotenv_split(line: Seq<char>) -> Option<(Seq<char>, Seq<char>)> {
    match dotenv_body(line) {
        Some(b) => match split_once(b, '=') {
            Some((k, v)) => Some((trim(k), trim(v))),
            None => None,
        },
        None => None,
    }
}

/// The variable a single `.env` line defines, if any.
pub open spec fn dotenv_line(line: Seq<char>) -> Option<(Seq<char>, Seq<char>)> {
    match dotenv_split(line) {
        Some((k, v)) => if k.len() > 0 {
            Some((k, unquote(v)))
        } else {
            None
        },
        None => None,
    }
}

/// The variables of a sequence of lines, in order.
pub open spec fn dotenv_vars(ls: Seq<Seq<char>>) -> Seq<(Seq<char>, Seq<char>)>
    decreases ls.len(),
{
    if ls.len() == 0 {
        seq![]
    } else {
        let r = dotenv_vars(ls.drop_last());
        match dotenv_line(ls.last()) {
            Some(p) => r.push(p),
            None => r,
        }
    }
}

pub open spec fn pair_views(v: Seq<(String, String)>) -> Seq<(Seq<char>, Seq<char>)> {
    v.map_values(|p: (String, String)| (p.0@, p.1@))
}

fn dotenv_parse_line(line: &Vec<char>, export: &Vec<char>) -> (r: Option<(Vec<char>, Vec<char>)>)
    requires
        export@ == "export "@,
    ensures
        r matches Some(p) ==> dotenv_line(line@) == Some((p.0@, p.1@)),
        r is None ==> dotenv_line(line@) is None,
{
    let t = trim_chars(line);
    if t.len() == 0 || t[0] == '#' {
        return None;
    }
    let body = match strip_prefix_chars(&t, export) {
        Some(r) => r,
        None => t,
    };
    assert(dotenv_body(line@) == Some(body@));
    match split_once_chars(&body, '=') {
        Some((k, v)) => {
            let key = trim_chars(&k);
            let value = trim_chars(&v);
            let n = value.len();
            let quoted = n >= 2 && ((value[0] == '"' && value[n - 1] == '"') || (value[0] == '\''
                && value[n - 1] == '\''));
            assert(quoted == is_quoted(value@));
            assert(dotenv_split(line@) == Some((key@, value@)));
            let value = if quoted {
                slice_chars(&value, 1, n - 1)
            } else {
                value
            };
            if key.len() > 0 {
                Some((key, value))
            } else {
                None
            }
        },
        None => None,
    }
}

/// Parses `.env` content into key-value pairs, in order of appearance.
///
/// Blank lines and lines starting with `#` are skipped, a leading `export `
/// is stripped, the key and value are trimmed, and one pair of surrounding
/// `"` or `'` quotes is removed from the value (a value that is one quote
/// character alone is kept). Lines without `=` or with an empty key define
/// nothing.
pub fn parse_dotenv(content: &str) -> (vars: Vec<(String, String)>)
    ensures
        pair_views(vars@) == dotenv_vars(lines(content@)),
{
    let chars = str_chars(content);
    let ls = lines_chars(&chars);
    let export = str_chars("export ");
    let mut vars: Vec<(String, String)> = Vec::new();
    let mut i: usize = 0;
    while i < ls.len()
        invariant
            i <= ls.len(),
            views(ls@) == lines(content@),
            export@ == "export "@,
            pair_views(vars@) == dotenv_vars(views(ls@).take(i as int)),
        decreases ls.len() - i,
    {
        let ghost pre = views(ls@).take(i as int);
        assert(views(ls@).take(i + 1).drop_last() == pre);
        assert(views(ls@)[i as int] == ls@[i as int]@);
        match dotenv_parse_line(&ls[i], &export) {
            Some((k, v)) => {
                vars.push((string_from_chars(&k), string_from_chars(&v)));
            },
            None => {},
        }
        assert(pair_views(vars@) == dotenv_vars(views(ls@).take(i + 1)));
        i = i + 1;
    }
    assert(views(ls@).take(ls.len() as int) == views(ls@));
    vars
}

/// Every variable read from a `.env` file has a non-empty key.
pub proof fn dotenv_keys_nonempty(ls: Seq<Seq<char>>)
    ensures
        forall|i: int| 0 <= i < dotenv_vars(ls).len() ==> (#[trigger] dotenv_vars(ls)[i]).0.len() > 0,
    decreases ls.len(),
{
    if ls.len() > 0 {
        let prev = dotenv_vars(ls.drop_last());
        dotenv_keys_nonempty(ls.drop_last());
        match dotenv_line(ls.last()) {
            Some(p) => {
                assert(p.0.len() > 0);
                assert forall|i: int| 0 <= i < prev.push(p).len() implies (#[trigger] prev.push(p)[i]).0.len() > 0 by {
                    if i < prev.len() {
                        assert(prev.push(p)[i] == prev[i]);
                    }
                }
            },
            None => {},
        }
    }
}

/// The length of a string in UTF-8 bytes, as `str::len` counts it.
pub open spec fn byte_len(s: Seq<char>) -> usize {
    encode_utf8(s).len() as usize
}

/// `sorted` with `x` placed before the first element shorter than `x`.
pub open spec fn insert_by_len(sorted: Seq<Seq<char>>, x: Seq<char>) -> Seq<Seq<char>>
    decreases sorted.len(),
{
    if sorted.len() == 0 {
        seq![x]
    } else if byte_len(sorted[0]) >= byte_len(x) {
        seq![sorted[0]] + insert_by_len(sorted.drop_first(), x)
    } else {
        seq![x] + sorted
    }
}

/// A stable sort of `s` by decreasing byte length.
pub open spec fn sort_by_len_desc(s: Seq<Seq<char>>) -> Seq<Seq<char>>
    decreases s.len(),
{
    if s.len() == 0 {
        seq![]
    } else {
        insert_by_len(sort_by_len_desc(s.drop_last()), s.last())
    }
}

/// `str::replace`: every leftmost non-overlapping occurrence of the
/// non-empty pattern `p` in `s` replaced by `r`.
pub open spec fn replace_all(s: Seq<char>, p: Seq<char>, r: Seq<char>) -> Seq<char>
    decreases s.len(),
{
    if p.len() == 0 || s.len() < p.len() {
        s
    } else if s.take(p.len() as int) == p {
        r + replace_all(s.skip(p.len() as int), p, r)
    } else {
        seq![s[0]] + replace_all(s.drop_first(), p, r)
    }
}

/// `line` with every value of at least three bytes in `values`, taken in
/// order, replaced by `***`.
pub open spec fn mask_in_order(line: Seq<char>, values: Seq<Seq<char>>) -> Seq<char>
    decreases values.len(),
{
    if values.len() == 0 {
        line
    } else {
        let prev = mask_in_order(line, values.drop_last());
        if byte_len(values.last()) >= 3 {
            replace_all(prev, values.last(), "***"@)
        } else {
            prev
        }
    }
}

/// The values of a list of variables.
pub open spec fn env_values(vars: Seq<(String, String)>) -> Seq<Seq<char>> {
    vars.map_values(|p: (String, String)| p.1@)
}

fn insert_by_len_exec(sorted: &mut Vec<String>, x: String)
    ensures
        final(sorted)@.map_values(|s: String| s@) == insert_by_len(
            old(sorted)@.map_values(|s: String| s@),
            x@,
        ),
{
    let ghost xs = old(sorted)@.map_values(|s: String| s@);
    let xlen = x.as_str().len();
    let mut i: usize = 0;
    while i < sorted.len() && sorted[i].as_str().len() >= xlen
        invariant
            i <= sorted.len(),
            sorted@.map_values(|s: String| s@) == xs,
            xlen == byte_len(x@),
            forall|j: int| 0 <= j < i ==> byte_len(#[trigger] xs[j]) >= byte_len(x@),
        decreases sorted.len() - i,
    {
        i = i + 1;
    }
    proof {
        lemma_insert_by_len_at(xs, x@, i as int);
    }
    sorted.insert(i, x);
    assert(sorted@.map_values(|s: String| s@) == xs.take(i as int) + seq![x@] + xs.skip(i as int));
}

proof fn lemma_insert_by_len_at(xs: Seq<Seq<char>>, x: Seq<char>, i: int)
    requires
        0 <= i <= xs.len(),
        forall|j: int| 0 <= j < i ==> byte_len(#[trigger] xs[j]) >= byte_len(x),
        i == xs.len() || byte_len(xs[i]) < byte_len(x),
    ensures
        insert_by_len(xs, x) == xs.take(i) + seq![x] + xs.skip(i),
    decreases i,
{
    if i == 0 {
        assert(xs.skip(0) == xs);
        if xs.len() > 0 {
            assert(xs.take(0) + seq![x] + xs == seq![x] + xs);
        }
    } else {
        let t = xs.drop_first();
        assert forall|j: int| 0 <= j < i - 1 implies byte_len(#[trigger] t[j]) >= byte_len(x) by {
            assert(t[j] == xs[j + 1]);
        }
        lemma_insert_by_len_at(t, x, i - 1);
        assert(xs.take(i) == seq![xs[0]] + t.take(i - 1));
        assert(xs.skip(i) == t.skip(i - 1));
        assert(byte_len(xs[0]) >= byte_len(x));
    }
}

fn replace_all_chars(s: &Vec<char>, p: &Vec<char>, r: &Vec<char>) -> (out: Vec<char>)
    requires
        p.len() > 0,
    ensures
        out@ == replace_all(s@, p@, r@),
{
    let mut out: Vec<char> = Vec::new();
    let mut i: usize = 0;
    assert(s@.skip(0) == s@);
    while i < s.len()
        invariant
            p.len() > 0,
            i <= s.len(),
            out@ + replace_all(s@.skip(i as int), p@, r@) == replace_all(s@, p@, r@),
        decreases s.len() - i,
    {
        let ghost rest = s@.skip(i as int);
        if occurs_at_chars(s, p, i) {
            assert(rest.take(p.len() as int) == p@);
            assert(rest.skip(p.len() as int) == s@.skip(i + p.len()));
            let mut k: usize = 0;
            let ghost out0 = out@;
            while k < r.len()
                invariant
                    k <= r.len(),
                    out@ == out0 + r@.take(k as int),
                decreases r.len() - k,
            {
                out.push(r[k]);
                k = k + 1;
            }
            assert(r@.take(r.len() as int) == r@);
            assert(out0 + replace_all(rest, p@, r@) == out@ + replace_all(s@.skip(i + p.len()), p@, r@));
            i = i + p.len();
        } else {
            if s.len() - i >= p.len() {
                assert(rest.take(p.len() as int) != p@) by {
                    assert(rest.take(p.len() as int) == s@.subrange(i as int, i + p.len()));
                }
                assert(rest.drop_first() == s@.skip(i + 1));
                let ghost out0 = out@;
                out.push(s[i]);
                assert(out0 + replace_all(rest, p@, r@) == out@ + replace_all(s@.skip(i + 1), p@, r@));
                i = i + 1;
            } else {
                let ghost out0 = out@;
                let mut k = i;
                while k < s.len()
                    invariant
                        i <= k <= s.len(),
                        out@ == out0 + s@.subrange(i as int, k as int),
                    decreases s.len() - k,
                {
                    out.push(s[k]);
                    k = k + 1;
                }
                assert(out@ == out0 + rest);
                assert(s@.skip(s.len() as int).len() == 0);
                i = s.len();
            }
        }
    }
    assert(s@.skip(s.len() as int) == Seq::<char>::empty());
    out
}

/// Masks the values of environment variables in a log line.
///
/// The values are taken longest first (by byte length; values of equal
/// length keep their order in `env_vars`), and every occurrence of each value
/// of at least three bytes is replaced by `***`.
pub fn mask_env_values(line: &str, env_vars: &Vec<(String, String)>) -> (masked: String)
    ensures
        masked@ == mask_in_order(line@, sort_by_len_desc(env_values(env_vars@))),
{
    let mut sorted: Vec<String> = Vec::new();
    let mut i: usize = 0;
    while i < env_vars.len()
        invariant
            i <= env_vars.len(),
            sorted@.map_values(|s: String| s@) == sort_by_len_desc(env_values(env_vars@).take(i as int)),
        decreases env_vars.len() - i,
    {
        assert(env_values(env_vars@).take(i + 1).drop_last() == env_values(env_vars@).take(i as int));
        let v = env_vars[i].1.clone();
        insert_by_len_exec(&mut sorted, v);
        i = i + 1;
    }
    assert(env_values(env_vars@).take(env_vars.len() as int) == env_values(env_vars@));
    let ghost vals = sorted@.map_values(|s: String| s@);
    let stars = str_chars("***");
    let mut masked = str_chars(line);
    let mut k: usize = 0;
    while k < sorted.len()
        invariant
            k <= sorted.len(),
            vals == sorted@.map_values(|s: String| s@),
            stars@ == "***"@,
            masked@ == mask_in_order(line@, vals.take(k as int)),
        decreases sorted.len() - k,
    {
        assert(vals.take(k + 1).drop_last() == vals.take(k as int));
        let val = &sorted[k];
        assert(vals[k as int] == val@);
        if val.as_str().len() >= 3 {
            let pat = str_chars(val.as_str());
            assert(pat@.len() > 0) by {
                if pat@.len() == 0 {
                    assert(encode_utf8(pat@) == Seq::<u8>::empty());
                    assert(byte_len(pat@) == 0);
                }
            }
            masked = replace_all_chars(&masked, &pat, &stars);
        }
        k = k + 1;
    }
    assert(vals.take(sorted.len() as int) == vals);
    string_from_chars(&masked)
}

/// Byte lengths never increase along a sequence.
pub open spec fn longest_first(s: Seq<Seq<char>>) -> bool {
    forall|i: int, j: int| 0 <= i < j < s.len() ==> byte_len(s[i]) >= byte_len(s[j])
}

proof fn lemma_insert_by_len_bounded(t: Seq<Seq<char>>, x: Seq<char>, b: usize)
    requires
        forall|j: int| 0 <= j < t.len() ==> byte_len(#[trigger] t[j]) <= b,
        byte_len(x) <= b,
    ensures
        insert_by_len(t, x).len() == t.len() + 1,
        forall|k: int| 0 <= k < insert_by_len(t, x).len() ==> byte_len(#[trigger] insert_by_len(t, x)[k]) <= b,
    decreases t.len(),
{
    if t.len() > 0 && byte_len(t[0]) >= byte_len(x) {
        let r = t.drop_first();
        assert forall|j: int| 0 <= j < r.len() implies byte_len(#[trigger] r[j]) <= b by {
            assert(r[j] == t[j + 1]);
        }
        lemma_insert_by_len_bounded(r, x, b);
        let ins = insert_by_len(t, x);
        assert forall|k: int| 0 <= k < ins.len() implies byte_len(#[trigger] ins[k]) <= b by {
            if k > 0 {
                assert(ins[k] == insert_by_len(r, x)[k - 1]);
            }
        }
    }
}

proof fn lemma_insert_by_len_sorted(t: Seq<Seq<char>>, x: Seq<char>)
    requires
        longest_first(t),
    ensures
        longest_first(insert_by_len(t, x)),
        insert_by_len(t, x).len() == t.len() + 1,
    decreases t.len(),
{
    if t.len() == 0 {
    } else if byte_len(t[0]) >= byte_len(x) {
        let r = t.drop_first();
        assert(longest_first(r)) by {
            assert forall|i: int, j: int| 0 <= i < j < r.len() implies byte_len(r[i]) >= byte_len(r[j]) by {
                assert(r[i] == t[i + 1] && r[j] == t[j + 1]);
            }
        }
        lemma_insert_by_len_sorted(r, x);
        assert forall|j: int| 0 <= j < r.len() implies byte_len(#[trigger] r[j]) <= byte_len(t[0]) by {
            assert(r[j] == t[j + 1]);
        }
        lemma_insert_by_len_bounded(r, x, byte_len(t[0]));
        let ins = insert_by_len(t, x);
        let ri = insert_by_len(r, x);
        assert(ins == seq![t[0]] + ri);
        assert forall|i: int, j: int| 0 <= i < j < ins.len() implies byte_len(ins[i]) >= byte_len(ins[j]) by {
            if i == 0 {
                assert(ins[j] == ri[j - 1]);
            } else {
                assert(ins[i] == ri[i - 1] && ins[j] == ri[j - 1]);
            }
        }
    } else {
        let ins = insert_by_len(t, x);
        assert(ins == seq![x] + t);
        assert forall|i: int, j: int| 0 <= i < j < ins.len() implies byte_len(ins[i]) >= byte_len(ins[j]) by {
            if i == 0 {
                assert(ins[j] == t[j - 1]);
                assert(byte_len(t[0]) >= byte_len(t[j - 1]) || j - 1 == 0);
            } else {
                assert(ins[i] == t[i - 1] && ins[j] == t[j - 1]);
            }
        }
    }
}

/// Masking takes the values longest first: the order in which
/// `mask_env_values` replaces them never puts a shorter value before a
/// longer one, and it has one entry per variable.
pub proof fn masking_order_is_longest_first(values: Seq<Seq<char>>)
    ensures
        longest_first(sort_by_len_desc(values)),
        sort_by_len_desc(values).len() == values.len(),
    decreases values.len(),
{
    if values.len() > 0 {
        masking_order_is_longest_first(values.drop_last());
        lemma_insert_by_len_sorted(sort_by_len_desc(values.drop_last()), values.last());
    }
}

/// `t` holds no `*`.
pub open spec fn star_free(t: Seq<char>) -> bool {
    forall|k: int| 0 <= k < t.len() ==> t[k] != '*'
}

/// Replacing by `***` creates no star-free prefix that was not there: if the
/// result starts with a star-free `q`, so did the text.
proof fn lemma_replace_keeps_star_free_prefix(t: Seq<char>, p: Seq<char>, q: Seq<char>)
    requires
        p.len() > 0,
        star_free(q),
        q.len() <= replace_all(t, p, "***"@).len(),
        replace_all(t, p, "***"@).take(q.len() as int) == q,
    ensures
        q.len() <= t.len(),
        t.take(q.len() as int) == q,
    decreases t.len(),
{
    reveal_strlit("***");
    let out = replace_all(t, p, "***"@);
    if q.len() == 0 {
        assert(t.take(0) =~= q);
    } else if t.len() < p.len() {
    } else if t.take(p.len() as int) == p {
        assert(out[0] == '*');
        assert(q[0] == out.take(q.len() as int)[0]);
    } else {
        let rest = t.drop_first();
        let r2 = replace_all(rest, p, "***"@);
        assert(out == seq![t[0]] + r2);
        let q2 = q.drop_first();
        assert(q2.len() <= r2.len());
        assert(r2.take(q2.len() as int) =~= q2) by {
            assert forall|k: int| 0 <= k < q2.len() implies r2.take(q2.len() as int)[k] == q2[k] by {
                assert(out.take(q.len() as int)[k + 1] == q[k + 1]);
                assert(out[k + 1] == r2[k]);
            }
        }
        assert(star_free(q2)) by {
            assert forall|k: int| 0 <= k < q2.len() implies q2[k] != '*' by {
                assert(q2[k] == q[k + 1]);
            }
        }
        lemma_replace_keeps_star_free_prefix(rest, p, q2);
        assert(t.take(q.len() as int) =~= q) by {
            assert(out.take(q.len() as int)[0] == q[0]);
            assert forall|k: int| 0 <= k < q.len() implies t.take(q.len() as int)[k] == q[k] by {
                if k > 0 {
                    assert(rest.take(q2.len() as int)[k - 1] == q2[k - 1]);
                }
            }
        }
    }
}

/// An occurrence in a suffix is an occurrence in the whole.
proof fn lemma_occurs_in_suffix(t: Seq<char>, q: Seq<char>, n: int, k: int)
    requires
        0 <= n <= t.len(),
        occurs_at(t.skip(n), q, k),
    ensures
        occurs_at(t, q, k + n),
{
    assert(t.subrange(k + n, k + n + q.len()) =~= t.skip(n).subrange(k, k + q.len()));
}

/// An occurrence of a non-empty star-free `q` in `head + tail`, where `head`
/// is all stars, lies within `tail`.
proof fn lemma_occurs_after_stars(head: Seq<char>, tail: Seq<char>, q: Seq<char>, k: int)
    requires
        q.len() > 0,
        star_free(q),
        forall|i: int| 0 <= i < head.len() ==> head[i] == '*',
        occurs_at(head + tail, q, k),
    ensures
        k >= head.len(),
        occurs_at(tail, q, k - head.len()),
{
    let s = head + tail;
    if k < head.len() {
        assert(s.subrange(k, k + q.len())[0] == s[k]);
        assert(q[0] == '*');
    }
    assert(tail.subrange(k - head.len(), k - head.len() + q.len()) =~= s.subrange(k, k + q.len()));
}

/// Masking with `p` leaves no star-free string where there was none.
proof fn lemma_replace_creates_no_occurrence(t: Seq<char>, p: Seq<char>, q: Seq<char>)
    requires
        p.len() > 0,
        q.len() > 0,
        star_free(q),
        !contains(t, q),
    ensures
        !contains(replace_all(t, p, "***"@), q),
    decreases t.len(),
{
    reveal_strlit("***");
    let out = replace_all(t, p, "***"@);
    if t.len() < p.len() {
    } else if t.take(p.len() as int) == p {
        let rest = t.skip(p.len() as int);
        assert(!contains(rest, q)) by {
            if contains(rest, q) {
                let k = choose|k: int| occurs_at(rest, q, k);
                lemma_occurs_in_suffix(t, q, p.len() as int, k);
            }
        }
        lemma_replace_creates_no_occurrence(rest, p, q);
        if contains(out, q) {
            let k = choose|k: int| occurs_at(out, q, k);
            lemma_occurs_after_stars("***"@, replace_all(rest, p, "***"@), q, k);
        }
    } else {
        let rest = t.drop_first();
        let r2 = replace_all(rest, p, "***"@);
        assert(rest == t.skip(1));
        assert(!contains(rest, q)) by {
            if contains(rest, q) {
                let k = choose|k: int| occurs_at(rest, q, k);
                lemma_occurs_in_suffix(t, q, 1, k);
            }
        }
        lemma_replace_creates_no_occurrence(rest, p, q);
        if contains(out, q) {
            let k = choose|k: int| occurs_at(out, q, k);
            assert(out == seq![t[0]] + r2);
            if k == 0 {
                assert(out.take(q.len() as int) =~= out.subrange(0, q.len() as int));
                lemma_replace_keeps_star_free_prefix(t, p, q);
                assert(occurs_at(t, q, 0)) by {
                    assert(t.subrange(0, q.len() as int) =~= t.take(q.len() as int));
                }
            } else {
                assert(r2.subrange(k - 1, k - 1 + q.len()) =~= out.subrange(k, k + q.len()));
                assert(occurs_at(r2, q, k - 1));
            }
        }
    }
}

/// Masking with a star-free `p` leaves no occurrence of `p`.
proof fn lemma_replace_removes_pattern(t: Seq<char>, p: Seq<char>)
    requires
        p.len() > 0,
        star_free(p),
    ensures
        !contains(replace_all(t, p, "***"@), p),
    decreases t.len(),
{
    reveal_strlit("***");
    let out = replace_all(t, p, "***"@);
    if t.len() < p.len() {
        if contains(out, p) {
            let k = choose|k: int| occurs_at(out, p, k);
        }
    } else if t.take(p.len() as int) == p {
        let rest = t.skip(p.len() as int);
        lemma_replace_removes_pattern(rest, p);
        if contains(out, p) {
            let k = choose|k: int| occurs_at(out, p, k);
            lemma_occurs_after_stars("***"@, replace_all(rest, p, "***"@), p, k);
        }
    } else {
        let rest = t.drop_first();
        let r2 = replace_all(rest, p, "***"@);
        lemma_replace_removes_pattern(rest, p);
        if contains(out, p) {
            let k = choose|k: int| occurs_at(out, p, k);
            assert(out == seq![t[0]] + r2);
            if k == 0 {
                assert(out.take(p.len() as int) =~= out.subrange(0, p.len() as int));
                lemma_replace_keeps_star_free_prefix(t, p, p);
            } else {
                assert(r2.subrange(k - 1, k - 1 + p.len()) =~= out.subrange(k, k + p.len()));
                assert(occurs_at(r2, p, k - 1));
            }
        }
    }
}

/// Inserting keeps every element and adds `x`.
proof fn lemma_insert_by_len_members(t: Seq<Seq<char>>, x: Seq<char>)
    ensures
        insert_by_len(t, x).contains(x),
        forall|v: Seq<char>| t.contains(v) ==> #[trigger] insert_by_len(t, x).contains(v),
    decreases t.len(),
{
    let ins = insert_by_len(t, x);
    if t.len() == 0 {
        assert(ins[0] == x);
    } else if byte_len(t[0]) >= byte_len(x) {
        let r = t.drop_first();
        lemma_insert_by_len_members(r, x);
        let ri = insert_by_len(r, x);
        assert(ins == seq![t[0]] + ri);
        let k = choose|k: int| 0 <= k < ri.len() && ri[k] == x;
        assert(ins[k + 1] == x);
        assert forall|v: Seq<char>| t.contains(v) implies #[trigger] ins.contains(v) by {
            let j = choose|j: int| 0 <= j < t.len() && t[j] == v;
            if j == 0 {
                assert(ins[0] == v);
            } else {
                assert(r[j - 1] == v);
                assert(r.contains(v));
                assert(ri.contains(v));
                let m = choose|m: int| 0 <= m < ri.len() && ri[m] == v;
                assert(ins[m + 1] == v);
            }
        }
    } else {
        assert(ins == seq![x] + t);
        assert(ins[0] == x);
        assert forall|v: Seq<char>| t.contains(v) implies #[trigger] ins.contains(v) by {
            let j = choose|j: int| 0 <= j < t.len() && t[j] == v;
            assert(ins[j + 1] == v);
        }
    }
}

/// Sorting keeps every value.
proof fn lemma_sort_members(values: Seq<Seq<char>>)
    ensures
        forall|v: Seq<char>| values.contains(v) ==> #[trigger] sort_by_len_desc(values).contains(v),
    decreases values.len(),
{
    if values.len() > 0 {
        let init = values.drop_last();
        lemma_sort_members(init);
        lemma_insert_by_len_members(sort_by_len_desc(init), values.last());
        assert forall|v: Seq<char>| values.contains(v) implies #[trigger] sort_by_len_desc(values).contains(v) by {
            let j = choose|j: int| 0 <= j < values.len() && values[j] == v;
            if j < values.len() - 1 {
                assert(init[j] == v);
                assert(init.contains(v));
            }
        }
    }
}

/// Masking in order leaves no occurrence of any masked value that holds no
/// `*`.
proof fn lemma_mask_in_order_removes(line: Seq<char>, values: Seq<Seq<char>>, v: Seq<char>)
    requires
        values.contains(v),
        byte_len(v) >= 3,
        star_free(v),
    ensures
        !contains(mask_in_order(line, values), v),
    decreases values.len(),
{
    lemma_byte_len_nonempty(v);
    let init = values.drop_last();
    let prev = mask_in_order(line, init);
    if values.last() == v {
        lemma_replace_removes_pattern(prev, v);
    } else {
        let j = choose|j: int| 0 <= j < values.len() && values[j] == v;
        assert(init[j] == v);
        lemma_mask_in_order_removes(line, init, v);
        let w = values.last();
        if byte_len(w) >= 3 {
            lemma_byte_len_nonempty(w);
            lemma_replace_creates_no_occurrence(prev, w, v);
        }
    }
}

/// A string of at least one UTF-8 byte has a character.
proof fn lemma_byte_len_nonempty(v: Seq<char>)
    requires
        byte_len(v) >= 1,
    ensures
        v.len() > 0,
{
    if v.len() == 0 {
        assert(encode_utf8(v) =~= Seq::<u8>::empty()) by {
            vstd::utf8::encode_utf8_decode_utf8(v);
        }
    }
}

/// Every value of at least three bytes that holds no `*` is gone from the
/// masked line: each of its occurrences became `***`, and masking the other
/// values brought none back.
pub proof fn masked_line_shows_no_secret(line: Seq<char>, vars: Seq<(String, String)>)
    ensures
        forall|i: int|
            0 <= i < vars.len() && byte_len(#[trigger] vars[i].1@) >= 3 && (forall|k: int|
                0 <= k < vars[i].1@.len() ==> vars[i].1@[k] != '*') ==> !contains(
                mask_in_order(line, sort_by_len_desc(env_values(vars))),
                vars[i].1@,
            ),
{
    assert forall|i: int|
        0 <= i < vars.len() && byte_len(#[trigger] vars[i].1@) >= 3 && (forall|k: int|
            0 <= k < vars[i].1@.len() ==> vars[i].1@[k] != '*') implies !contains(
            mask_in_order(line, sort_by_len_desc(env_values(vars))),
            vars[i].1@,
        ) by {
        let v = vars[i].1@;
        assert(env_values(vars)[i] == v);
        assert(env_values(vars).contains(v));
        lemma_sort_members(env_values(vars));
        lemma_mask_in_order_removes(line, sort_by_len_desc(env_values(vars)), v);
    }
}

/// Text without a line break is one line.
proof fn lemma_lines_acc_single(s: Seq<char>)
    requires
        forall|i: int| 0 <= i < s.len() ==> s[i] != '\n',
    ensures
        lines_acc(s) == (Seq::<Seq<char>>::empty(), s),
    decreases s.len(),
{
    if s.len() > 0 {
        lemma_lines_acc_single(s.drop_last());
        assert(s.drop_last().push(s.last()) =~= s);
    }
}

/// Trimming the end of text that starts with a non-blank keeps that first
/// character.
proof fn lemma_trim_end_keeps_first(s: Seq<char>)
    requires
        s.len() > 0,
        !is_ws(s[0]),
    ensures
        trim_end(s).len() > 0,
    decreases s.len(),
{
    if is_ws(s.last()) {
        assert(s.len() > 1);
        assert(s.drop_last()[0] == s[0]);
        lemma_trim_end_keeps_first(s.drop_last());
    }
}

/// A `.env` line `K=V` whose key starts with a non-blank character other
/// than `#`, holds no `=` and does not start with `export `, and whose value
/// does not end in a blank, defines exactly the variable `K` (trimmed) with
/// everything after the first `=` as its value (trimmed, and stripped of one
/// pair of matching `"` or `'` quotes around it), later `=` included; a
/// leading `export ` changes nothing.
pub proof fn dotenv_value_is_everything_after_the_first_equals(exported: bool, k: Seq<char>, v: Seq<char>)
    requires
        k.len() > 0,
        !is_ws(k[0]),
        k[0] != '#',
        forall|i: int| 0 <= i < k.len() ==> k[i] != '=' && k[i] != '\n',
        forall|i: int| 0 <= i < v.len() ==> v[i] != '\n',
        v.len() == 0 || !is_ws(v.last()),
        !starts_with(k, "export "@),
    ensures
        ({
            let tv = trim(v);
            let value = if tv.len() >= 2 && ((tv[0] == '"' && tv.last() == '"') || (tv[0] == '\'' && tv.last() == '\'')) {
                tv.subrange(1, tv.len() - 1)
            } else {
                tv
            };
            let line = if exported { "export "@ + k + "="@ + v } else { k + "="@ + v };
            dotenv_vars(lines(line)) == seq![(trim(k), value)]
        }),
{
    reveal_strlit("=");
    reveal_strlit("export ");
    let l = k + "="@ + v;
    let kl = k.len() as int;
    assert(l[kl] == '=');
    assert forall|i: int| 0 <= i < l.len() implies l[i] != '\n' by {
        if i < kl {
            assert(l[i] == k[i]);
        } else if i > kl {
            assert(l[i] == v[i - kl - 1]);
        }
    }
    lemma_lines_acc_single(l);
    assert(lines(l) == seq![l]);
    assert(seq![l].drop_last() =~= Seq::<Seq<char>>::empty());
    assert(seq![l].last() == l);
    // The line is its own trim.
    assert(l[0] == k[0]);
    assert(trim_start(l) == l);
    assert(l.last() == (if v.len() == 0 { '=' } else { v.last() }));
    assert(!is_ws('='));
    assert(trim_end(l) == l);
    assert(trim(l) == l);
    // It does not start with `export `.
    assert(!starts_with(l, "export "@)) by {
        if starts_with(l, "export "@) {
            if kl >= 7 {
                assert(k.subrange(0, 7) =~= l.subrange(0, 7));
            } else {
                assert(l.subrange(0, 7)[kl] == l[kl]);
            }
        }
    }
    assert(dotenv_body(l) == Some(l));
    // The first `=` ends the key.
    assert(has_char(l, '='));
    let fi = first_index(l, '=')->0;
    assert(l[fi] == '=' && forall|j: int| 0 <= j < fi ==> l[j] != '=');
    assert(fi == kl) by {
        if fi < kl {
            assert(l[fi] == k[fi]);
        }
    }
    assert(l.take(kl) =~= k);
    assert(l.skip(kl + 1) =~= v);
    assert(split_once(l, '=') == Some((k, v)));
    lemma_trim_end_keeps_first(k);
    assert(trim_start(k) == k);
    assert(trim(k).len() > 0);
    assert(dotenv_line(l) == Some((trim(k), unquote(trim(v)))));
    let line = if exported { "export "@ + k + "="@ + v } else { k + "="@ + v };
    if exported {
        let e = "export "@;
        assert(line =~= e + l);
        assert forall|i: int| 0 <= i < line.len() implies line[i] != '\n' by {
            if i >= 7 {
                assert(line[i] == l[i - 7]);
            }
        }
        lemma_lines_acc_single(line);
        assert(lines(line) == seq![line]);
        assert(line[0] == 'e');
        assert(trim_start(line) == line);
        assert(line.last() == l.last());
        assert(trim_end(line) == line);
        assert(starts_with(line, e)) by {
            assert(line.subrange(0, 7) =~= e);
        }
        assert(line.skip(7) =~= l);
        assert(dotenv_body(line) == Some(l));
        assert(dotenv_split(line) == dotenv_split(l));
        assert(dotenv_line(line) == dotenv_line(l));
        assert(seq![line].drop_last() =~= Seq::<Seq<char>>::empty());
        assert(seq![line].last() == line);
    }
    assert(dotenv_vars(Seq::<Seq<char>>::empty()) == Seq::<(Seq<char>, Seq<char>)>::empty());
    assert(dotenv_vars(seq![line]) =~= seq![(trim(k), unquote(trim(v)))]);
}

/// Blank lines and lines whose first non-blank character is `#` define
/// nothing.
pub proof fn dotenv_skips_blank_and_comment_lines(line: Seq<char>)
    ensures
        trim(line).len() == 0 || trim(line)[0] == '#' ==> dotenv_vars(seq![line]).len() == 0,
{
    assert(seq![line].drop_last() =~= Seq::<Seq<char>>::empty());
    assert(seq![line].last() == line);
    if trim(line).len() == 0 || trim(line)[0] == '#' {
        assert(dotenv_body(line) is None);
        assert(dotenv_line(line) is None);
        assert(dotenv_vars(Seq::<Seq<char>>::empty()).len() == 0);
    }
}

/// `str::replace` changes nothing where the pattern does not occur.
proof fn lemma_replace_absent(t: Seq<char>, p: Seq<char>, r: Seq<char>)
    requires
        p.len() > 0,
        !contains(t, p),
    ensures
        replace_all(t, p, r) == t,
    decreases t.len(),
{
    if t.len() >= p.len() {
        assert(t.take(p.len() as int) != p) by {
            if t.take(p.len() as int) == p {
                assert(occurs_at(t, p, 0)) by {
                    assert(t.subrange(0, p.len() as int) =~= t.take(p.len() as int));
                }
            }
        }
        let rest = t.drop_first();
        assert(!contains(rest, p)) by {
            if contains(rest, p) {
                let k = choose|k: int| occurs_at(rest, p, k);
                assert(rest == t.skip(1));
                lemma_occurs_in_suffix(t, p, 1, k);
            }
        }
        lemma_replace_absent(rest, p, r);
        assert(seq![t[0]] + rest =~= t);
    }
}

/// Sorting takes its elements from the values.
proof fn lemma_sort_members_from(values: Seq<Seq<char>>)
    ensures
        forall|v: Seq<char>| #[trigger] sort_by_len_desc(values).contains(v) ==> values.contains(v),
    decreases values.len(),
{
    if values.len() > 0 {
        let init = values.drop_last();
        lemma_sort_members_from(init);
        lemma_insert_by_len_from(sort_by_len_desc(init), values.last());
        assert forall|v: Seq<char>| #[trigger] sort_by_len_desc(values).contains(v) implies values.contains(v) by {
            if v != values.last() {
                assert(sort_by_len_desc(init).contains(v));
                let j = choose|j: int| 0 <= j < init.len() && init[j] == v;
                assert(values[j] == v);
            } else {
                assert(values[values.len() - 1] == v);
            }
        }
    }
}

/// Inserting adds nothing but `x`.
proof fn lemma_insert_by_len_from(t: Seq<Seq<char>>, x: Seq<char>)
    ensures
        forall|v: Seq<char>| #[trigger] insert_by_len(t, x).contains(v) ==> v == x || t.contains(v),
    decreases t.len(),
{
    let ins = insert_by_len(t, x);
    if t.len() == 0 {
        assert forall|v: Seq<char>| #[trigger] ins.contains(v) implies v == x || t.contains(v) by {
            let j = choose|j: int| 0 <= j < ins.len() && ins[j] == v;
        }
    } else if byte_len(t[0]) >= byte_len(x) {
        let r = t.drop_first();
        lemma_insert_by_len_from(r, x);
        let ri = insert_by_len(r, x);
        assert(ins == seq![t[0]] + ri);
        assert forall|v: Seq<char>| #[trigger] ins.contains(v) implies v == x || t.contains(v) by {
            let j = choose|j: int| 0 <= j < ins.len() && ins[j] == v;
            if j == 0 {
                assert(t[0] == v);
            } else {
                assert(ri[j - 1] == v);
                assert(ri.contains(v));
                if v != x {
                    let m = choose|m: int| 0 <= m < r.len() && r[m] == v;
                    assert(t[m + 1] == v);
                }
            }
        }
    } else {
        assert(ins == seq![x] + t);
        assert forall|v: Seq<char>| #[trigger] ins.contains(v) implies v == x || t.contains(v) by {
            let j = choose|j: int| 0 <= j < ins.len() && ins[j] == v;
            if j > 0 {
                assert(t[j - 1] == v);
            }
        }
    }
}

proof fn lemma_mask_in_order_untouched(line: Seq<char>, values: Seq<Seq<char>>)
    requires
        forall|i: int| 0 <= i < values.len() ==> byte_len(#[trigger] values[i]) < 3 || !contains(line, values[i]),
    ensures
        mask_in_order(line, values) == line,
    decreases values.len(),
{
    if values.len() > 0 {
        let init = values.drop_last();
        assert forall|i: int| 0 <= i < init.len() implies byte_len(#[trigger] init[i]) < 3 || !contains(line, init[i]) by {
            assert(init[i] == values[i]);
        }
        lemma_mask_in_order_untouched(line, init);
        let w = values.last();
        assert(byte_len(values[values.len() - 1]) < 3 || !contains(line, values[values.len() - 1]));
        if byte_len(w) >= 3 {
            lemma_byte_len_nonempty(w);
            lemma_replace_absent(line, w, "***"@);
        }
    }
}

/// A line that holds none of the values of at least three bytes comes back
/// unchanged: values shorter than three bytes are never masked.
pub proof fn masking_leaves_other_lines_alone(line: Seq<char>, vars: Seq<(String, String)>)
    ensures
        (forall|i: int| 0 <= i < vars.len() ==> byte_len(#[trigger] vars[i].1@) < 3 || !contains(line, vars[i].1@))
            ==> mask_in_order(line, sort_by_len_desc(env_values(vars))) == line,
{
    if forall|i: int| 0 <= i < vars.len() ==> byte_len(#[trigger] vars[i].1@) < 3 || !contains(line, vars[i].1@) {
        let vals = env_values(vars);
        let sorted = sort_by_len_desc(vals);
        lemma_sort_members_from(vals);
        assert forall|i: int| 0 <= i < sorted.len() implies byte_len(#[trigger] sorted[i]) < 3 || !contains(line, sorted[i]) by {
            assert(sorted.contains(sorted[i]));
            let j = choose|j: int| 0 <= j < vals.len() && vals[j] == sorted[i];
            assert(vals[j] == vars[j].1@);
        }
        lemma_mask_in_order_untouched(line, sorted);
    }
}

} // verus!
