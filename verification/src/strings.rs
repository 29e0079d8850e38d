//! Building text: joining lines, padding, decimal numbers and the
//! replacements that command arguments go through.
use vstd::prelude::*;
use crate::text::{
    before_char, before_char_vec, find_from, first_occurrence, from_chars, occurs_at_vec,
    push_all, push_str, slice, starts_with, to_chars, trim, trim_vec,
};

verus! {

/// `lines` joined with `sep` between neighbours.
pub open spec fn join(lines: Seq<Seq<char>>, sep: Seq<char>) -> Seq<char>
    decreases lines.len(),
{
    if lines.len() == 0 {
        Seq::empty()
    } else if lines.len() == 1 {
        lines[0]
    } else {
        join(lines.drop_last(), sep) + sep + lines.last()
    }
}

/// The views of `v`.
pub open spec fn views(v: Seq<String>) -> Seq<Seq<char>> {
    v.map_values(|s: String| s@)
}

/// `n` spaces.
pub open spec fn spaces(n: nat) -> Seq<char> {
    Seq::new(n, |i: int| ' ')
}

/// `s` padded with spaces on the right to `width` characters (what `{:<width}` prints).
pub open spec fn pad_right(s: Seq<char>, width: nat) -> Seq<char> {
    if s.len() < width {
        s + spaces((width - s.len()) as nat)
    } else {
        s
    }
}

pub open spec fn digit_char(d: nat) -> char {
    (('0' as u32) + d) as char
}

/// The decimal text of `n`, without leading zeros.
pub open spec fn decimal_text(n: nat) -> Seq<char>
    decreases n,
{
    if n < 10 {
        seq![digit_char(n)]
    } else {
        decimal_text(n / 10).push(digit_char(n % 10))
    }
}

/// `s` with every occurrence of `p`, taken from left to right without
/// overlap, removed (what `str::replace(p, "")` gives).
pub open spec fn remove_all(s: Seq<char>, p: Seq<char>) -> Seq<char>
    recommends
        p.len() > 0,
    decreases s.len(),
{
    if s.len() == 0 || p.len() == 0 {
        s
    } else if starts_with(s, p) {
        remove_all(s.skip(p.len() as int), p)
    } else {
        seq![s[0]] + remove_all(s.drop_first(), p)
    }
}

/// `s` if it is not empty, `default` otherwise.
pub open spec fn or_default(s: Seq<char>, default: Seq<char>) -> Seq<char> {
    if s.len() == 0 {
        default
    } else {
        s
    }
}

pub fn or_default_str(s: &str, default: &str) -> (r: String)
    ensures
        r@ == or_default(s@, default@),
{
    if s.is_empty() {
        default.to_owned()
    } else {
        s.to_owned()
    }
}

/// Joins `lines` with `sep`.
pub fn join_lines(lines: &Vec<String>, sep: &str) -> (r: String)
    ensures
        r@ == join(views(lines@), sep@),
{
    let mut out: Vec<char> = Vec::new();
    let mut i: usize = 0;
    while i < lines.len()
        invariant
            i <= lines@.len(),
            out@ == join(views(lines@.subrange(0, i as int)), sep@),
        decreases lines@.len() - i,
    {
        let ghost before = out@;
        if i > 0 {
            push_str(&mut out, sep);
        }
        push_str(&mut out, lines[i].as_str());
        proof {
            let pre = lines@.subrange(0, i as int);
            let post = lines@.subrange(0, i + 1);
            assert(post.drop_last() == pre);
            assert(views(post).drop_last() == views(pre));
            assert(views(post).last() == lines@[i as int]@);
            if i == 0 {
                assert(views(post).len() == 1);
            }
        }
        i = i + 1;
    }
    assert(lines@.subrange(0, lines@.len() as int) == lines@);
    from_chars(&out)
}

/// `s` padded with spaces on the right to `width` characters.
pub fn pad_right_str(s: &str, width: usize) -> (r: String)
    ensures
        r@ == pad_right(s@, width as nat),
{
    let mut out = to_chars(s);
    let ghost orig = out@;
    if out.len() < width {
        let n = width - out.len();
        let mut k: usize = 0;
        while k < n
            invariant
                k <= n,
                out@ == orig + spaces(k as nat),
            decreases n - k,
        {
            out.push(' ');
            k = k + 1;
            assert(spaces(k as nat) == spaces((k - 1) as nat).push(' '));
        }
    }
    from_chars(&out)
}

proof fn lemma_decimal_text_len(n: nat)
    ensures
        decimal_text(n).len() >= 1,
    decreases n,
{
    if n >= 10 {
        lemma_decimal_text_len(n / 10);
    }
}

/// The decimal text of `n`.
pub fn decimal_string(n: u64) -> (r: String)
    ensures
        r@ == decimal_text(n as nat),
{
    let mut digits: Vec<char> = Vec::new();
    let mut m = n;
    // digits holds the low digits of n, least significant first
    while m >= 10
        invariant
            decimal_text(n as nat) == decimal_text(m as nat) + digits@.reverse(),
        decreases m,
    {
        let d = m % 10;
        let c = (('0' as u32) + (d as u32)) as u8 as char;
        proof {
            assert(c == digit_char(d as nat)) by {
                assert(d < 10);
            }
            assert(decimal_text(m as nat) == decimal_text((m / 10) as nat).push(c));
            assert(digits@.push(c).reverse() == seq![c] + digits@.reverse());
        }
        digits.push(c);
        m = m / 10;
    }
    let c = (('0' as u32) + (m as u32)) as u8 as char;
    assert(c == digit_char(m as nat));
    let mut out: Vec<char> = Vec::new();
    out.push(c);
    let mut i = digits.len();
    while i > 0
        invariant
            i <= digits@.len(),
            out@ == seq![c] + digits@.subrange(i as int, digits@.len() as int).reverse(),
        decreases i,
    {
        i = i - 1;
        out.push(digits[i]);
        assert(digits@.subrange(i as int, digits@.len() as int).reverse() == digits@.subrange(
            i + 1,
            digits@.len() as int,
        ).reverse().push(digits@[i as int]));
    }
    assert(digits@.subrange(0, digits@.len() as int) == digits@);
    from_chars(&out)
}

/// `s` with every occurrence of the non-empty `p` removed, left to right.
pub fn remove_all_str(s: &str, p: &str) -> (r: String)
    requires
        p@.len() > 0,
    ensures
        r@ == remove_all(s@, p@),
{
    let v = to_chars(s);
    let pv = to_chars(p);
    let mut out: Vec<char> = Vec::new();
    let mut i: usize = 0;
    assert(v@.skip(0) == v@);
    while i < v.len()
        invariant
            pv@ == p@,
            p@.len() > 0,
            i <= v@.len(),
            remove_all(v@, p@) == out@ + remove_all(v@.skip(i as int), p@),
        decreases v@.len() - i,
    {
        let ghost rest = v@.skip(i as int);
        if occurs_at_vec(&v, &pv, i) {
            assert(rest.subrange(0, p@.len() as int) == v@.subrange(i as int, i + p@.len()));
            assert(starts_with(rest, p@));
            assert(rest.skip(p@.len() as int) == v@.skip(i + p@.len()));
            i = i + pv.len();
        } else {
            assert(!starts_with(rest, p@)) by {
                if starts_with(rest, p@) {
                    assert(rest.subrange(0, p@.len() as int) == v@.subrange(i as int, i + p@.len()));
                }
            }
            assert(rest.drop_first() == v@.skip(i + 1));
            assert(rest[0] == v@[i as int]);
            out.push(v[i]);
            i = i + 1;
        }
    }
    assert(v@.skip(i as int) == Seq::<char>::empty());
    from_chars(&out)
}


/// `s` with every occurrence of the non-empty `p`, taken from left to right
/// without overlap, replaced by `r` (what `str::replace(p, r)` gives).
pub open spec fn replace_all(s: Seq<char>, p: Seq<char>, r: Seq<char>) -> Seq<char>
    recommends
        p.len() > 0,
    decreases s.len(),
{
    if s.len() == 0 || p.len() == 0 {
        s
    } else if starts_with(s, p) {
        r + replace_all(s.skip(p.len() as int), p, r)
    } else {
        seq![s[0]] + replace_all(s.drop_first(), p, r)
    }
}

/// `s` with its first occurrence of `p` replaced by `r` (what
/// `str::replacen(p, r, 1)` gives).
pub open spec fn replace_first(s: Seq<char>, p: Seq<char>, r: Seq<char>) -> Seq<char> {
    match first_occurrence(s, p, 0) {
        Some(i) => s.take(i) + r + s.skip(i + p.len()),
        None => s,
    }
}

/// `str::replace` with a non-empty pattern, on characters.
pub fn replace_all_vec(v: &[char], p: &[char], r: &[char]) -> (out: Vec<char>)
    requires
        p@.len() > 0,
    ensures
        out@ == replace_all(v@, p@, r@),
{
    let mut out: Vec<char> = Vec::new();
    let mut i: usize = 0;
    assert(v@.skip(0) == v@);
    while i < v.len()
        invariant
            p@.len() > 0,
            i <= v@.len(),
            replace_all(v@, p@, r@) == out@ + replace_all(v@.skip(i as int), p@, r@),
        decreases v@.len() - i,
    {
        let ghost rest = v@.skip(i as int);
        if occurs_at_vec(v, p, i) {
            assert(rest.subrange(0, p@.len() as int) == v@.subrange(i as int, i + p@.len()));
            assert(starts_with(rest, p@));
            assert(rest.skip(p@.len() as int) == v@.skip(i + p@.len()));
            let ghost before = out@;
            push_all(&mut out, r);
            assert(out@ + replace_all(v@.skip(i + p@.len()), p@, r@) == before + (r@ + replace_all(rest.skip(p@.len() as int), p@, r@)));
            i = i + p.len();
        } else {
            assert(!starts_with(rest, p@)) by {
                if starts_with(rest, p@) {
                    assert(rest.subrange(0, p@.len() as int) == v@.subrange(i as int, i + p@.len()));
                }
            }
            assert(rest.drop_first() == v@.skip(i + 1));
            assert(rest[0] == v@[i as int]);
            let ghost before = out@;
            out.push(v[i]);
            assert(out@ + replace_all(v@.skip(i + 1), p@, r@) == before + (seq![rest[0]] + replace_all(rest.drop_first(), p@, r@)));
            i = i + 1;
        }
    }
    assert(v@.skip(i as int) == Seq::<char>::empty());
    assert(out@ + Seq::<char>::empty() == out@);
    out
}

/// `str::replacen(p, r, 1)`, on characters.
pub fn replace_first_vec(v: &[char], p: &[char], r: &[char]) -> (out: Vec<char>)
    ensures
        out@ == replace_first(v@, p@, r@),
{
    let n = v.len();
    match find_from(v, p, 0) {
        Some(i) => {
            let mut out = slice(v, 0, i);
            push_all(&mut out, r);
            let tail = slice(v, i + p.len(), n);
            push_all(&mut out, &tail);
            out
        },
        None => slice(v, 0, v.len()),
    }
}

/// `s` split at every `sep` (what `str::split(sep)` yields).
pub open spec fn split_on(s: Seq<char>, sep: char) -> Seq<Seq<char>>
    decreases s.len(),
{
    let k = before_char(s, sep).len();
    if k < s.len() {
        seq![s.take(k as int)] + split_on(s.skip(k as int + 1), sep)
    } else {
        seq![s]
    }
}

/// The trimmed, non-empty pieces of `pieces`.
pub open spec fn trimmed_codes(pieces: Seq<Seq<char>>) -> Seq<Seq<char>>
    decreases pieces.len(),
{
    if pieces.len() == 0 {
        Seq::empty()
    } else {
        let t = trim(pieces[0]);
        (if t.len() > 0 { seq![t] } else { Seq::empty() }) + trimmed_codes(pieces.drop_first())
    }
}

/// The trimmed, non-empty items of a comma-separated list.
pub fn comma_list(given: &str) -> (r: Vec<String>)
    ensures
        views(r@) == trimmed_codes(split_on(given@, ',')),
{
    let v = to_chars(given);
    let n = v.len();
    let mut r: Vec<String> = Vec::new();
    let mut i: usize = 0;
    assert(v@.skip(0) == v@);
    loop
        invariant
            i <= n == v@.len(),
            v@ == given@,
            views(r@) + trimmed_codes(split_on(v@.skip(i as int), ',')) == trimmed_codes(split_on(given@, ',')),
        decreases n - i,
    {
        let rest = slice(&v, i, n);
        assert(rest@ == v@.skip(i as int));
        let piece = before_char_vec(&rest, ',');
        let k = piece.len();
        let t = trim_vec(&piece);
        let ghost before = views(r@);
        let ghost pieces = split_on(rest@, ',');
        if k < rest.len() {
            assert(pieces == seq![rest@.take(k as int)] + split_on(rest@.skip(k + 1), ','));
            assert(pieces.drop_first() == split_on(rest@.skip(k + 1), ','));
            assert(rest@.skip(k + 1) == v@.skip(i + k + 1));
        } else {
            assert(pieces == seq![rest@]);
            assert(pieces.drop_first() == Seq::<Seq<char>>::empty());
        }
        assert(pieces[0] == piece@);
        if t.len() > 0 {
            r.push(from_chars(&t));
            assert(views(r@) == before.push(t@));
            assert(views(r@) + trimmed_codes(pieces.drop_first()) == before + trimmed_codes(pieces));
        } else {
            assert(before + trimmed_codes(pieces) == before + trimmed_codes(pieces.drop_first()));
        }
        if k < rest.len() {
            i = i + k + 1;
        } else {
            assert(views(r@) + Seq::<Seq<char>>::empty() == views(r@));
            return r;
        }
    }
}

} // verus!
