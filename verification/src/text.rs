//! Character-sequence helpers shared by the text-processing parts of the library.
//!
//! Strings are handled as sequences of Unicode scalar values: a `&str` is turned
//! into a `Vec<char>` once, worked on with verified loops, and turned back into a
//! `String` at the end.
use vstd::prelude::*;

verus! {

/// The Unicode `White_Space` property, the set that `char::is_whitespace` and
/// `str::trim` use.
pub open spec fn is_ws(c: char) -> bool {
    let u = c as u32;
    ||| 0x09 <= u <= 0x0D
    ||| u == 0x20
    ||| u == 0x85
    ||| u == 0xA0
    ||| u == 0x1680
    ||| 0x2000 <= u <= 0x200A
    ||| u == 0x2028
    ||| u == 0x2029
    ||| u == 0x202F
    ||| u == 0x205F
    ||| u == 0x3000
}

pub open spec fn is_digit(c: char) -> bool {
    '0' <= c <= '9'
}

pub open spec fn all_digits(s: Seq<char>) -> bool {
    forall|i: int| 0 <= i < s.len() ==> #[trigger] is_digit(s[i])
}

/// `s` with its leading white space removed.
pub open spec fn trim_start(s: Seq<char>) -> Seq<char>
    decreases s.len(),
{
    if s.len() > 0 && is_ws(s[0]) {
        trim_start(s.drop_first())
    } else {
        s
    }
}

/// `s` with its trailing white space removed.
pub open spec fn trim_end(s: Seq<char>) -> Seq<char>
    decreases s.len(),
{
    if s.len() > 0 && is_ws(s.last()) {
        trim_end(s.drop_last())
    } else {
        s
    }
}

/// What `str::trim` gives back.
pub open spec fn trim(s: Seq<char>) -> Seq<char> {
    trim_end(trim_start(s))
}

pub open spec fn starts_with(s: Seq<char>, p: Seq<char>) -> bool {
    p.len() <= s.len() && s.subrange(0, p.len() as int) == p
}

pub open spec fn ends_with(s: Seq<char>, p: Seq<char>) -> bool {
    p.len() <= s.len() && s.subrange(s.len() - p.len(), s.len() as int) == p
}

/// `p` occurs in `s` starting at index `i`.
pub open spec fn occurs_at(s: Seq<char>, p: Seq<char>, i: int) -> bool {
    0 <= i && i + p.len() <= s.len() && s.subrange(i, i + p.len()) == p
}

/// The first index at or after `from` where `p` occurs in `s`.
#[verifier::opaque]
pub open spec fn first_occurrence(s: Seq<char>, p: Seq<char>, from: int) -> Option<int> {
    if exists|i: int| from <= i && #[trigger] occurs_at(s, p, i) {
        let i = choose|i: int|
            from <= i && #[trigger] occurs_at(s, p, i) && forall|j: int|
                from <= j < i ==> !occurs_at(s, p, j);
        Some(i)
    } else {
        None
    }
}

pub open spec fn contains_seq(s: Seq<char>, p: Seq<char>) -> bool {
    exists|i: int| #[trigger] occurs_at(s, p, i)
}

/// Whether `char::is_numeric` holds of `c` (the Unicode general categories
/// Nd, Nl and No).
pub uninterp spec fn char_is_numeric(c: char) -> bool;

/// `char::is_numeric`. Its contract names the result and states what the
/// documentation gives for ASCII: of the ASCII characters exactly the digits
/// are numeric. Which other characters are numeric is left to the name.
#[verifier::external_body]
pub fn is_numeric_char(c: char) -> (b: bool)
    ensures
        b == char_is_numeric(c),
        (c as u32) < 128 ==> (b == is_digit(c)),
{
    c.is_numeric()
}

pub open spec fn all_numeric(s: Seq<char>) -> bool {
    forall|i: int| 0 <= i < s.len() ==> #[trigger] char_is_numeric(s[i])
}

pub fn all_numeric_vec(v: &[char]) -> (b: bool)
    ensures
        b == all_numeric(v@),
{
    let mut i: usize = 0;
    while i < v.len()
        invariant
            i <= v@.len(),
            forall|j: int| 0 <= j < i ==> #[trigger] char_is_numeric(v@[j]),
        decreases v@.len() - i,
    {
        if !is_numeric_char(v[i]) {
            return false;
        }
        i = i + 1;
    }
    true
}

/// The number of bytes of the UTF-8 encoding of `c`.
pub open spec fn char_width(c: char) -> nat {
    let u = c as u32;
    if u < 0x80 {
        1
    } else if u < 0x800 {
        2
    } else if u < 0x10000 {
        3
    } else {
        4
    }
}

/// The number of bytes of the UTF-8 encoding of `s` (what `str::len` gives).
pub open spec fn utf8_len(s: Seq<char>) -> nat
    decreases s.len(),
{
    if s.len() == 0 {
        0
    } else {
        utf8_len(s.drop_last()) + char_width(s.last())
    }
}

pub fn char_width_exec(c: char) -> (w: u64)
    ensures
        w == char_width(c),
{
    let u = c as u32;
    if u < 0x80 {
        1
    } else if u < 0x800 {
        2
    } else if u < 0x10000 {
        3
    } else {
        4
    }
}

proof fn lemma_utf8_len_take(s: Seq<char>, k: int)
    requires
        0 <= k < s.len(),
    ensures
        utf8_len(s.take(k + 1)) == utf8_len(s.take(k)) + char_width(s[k]),
{
    assert(s.take(k + 1).drop_last() == s.take(k));
}

/// Byte lengths of longer prefixes are longer.
pub proof fn lemma_utf8_len_prefix_strict(s: Seq<char>, a: int, b: int)
    requires
        0 <= a < b <= s.len(),
    ensures
        utf8_len(s.take(a)) < utf8_len(s.take(b)),
    decreases b - a,
{
    lemma_utf8_len_take(s, b - 1);
    if a < b - 1 {
        lemma_utf8_len_prefix_strict(s, a, b - 1);
    }
}

/// The byte length of `v` when it is at most `cap`; some number above
/// `cap` otherwise.
pub fn utf8_len_capped(v: &[char], cap: u64) -> (r: u64)
    requires
        cap < u64::MAX - 4,
    ensures
        r <= cap ==> r == utf8_len(v@),
        r > cap <==> utf8_len(v@) > cap,
{
    let mut acc: u64 = 0;
    let mut i: usize = 0;
    while i < v.len()
        invariant
            i <= v@.len(),
            cap < u64::MAX - 4,
            acc <= cap,
            acc == utf8_len(v@.take(i as int)),
        decreases v@.len() - i,
    {
        proof {
            lemma_utf8_len_take(v@, i as int);
        }
        acc = acc + char_width_exec(v[i]);
        i = i + 1;
        if acc > cap {
            proof {
                if i < v@.len() {
                    lemma_utf8_len_prefix_strict(v@, i as int, v@.len() as int);
                }
                assert(v@.take(v@.len() as int) == v@);
            }
            return acc;
        }
    }
    assert(v@.take(v@.len() as int) == v@);
    acc
}

/// The first `k` characters of `s` are the longest prefix whose UTF-8
/// encoding takes at most `n` bytes: a cut after them falls on a character
/// boundary at or below byte `n`.
pub open spec fn fits_in_bytes(s: Seq<char>, n: nat, k: int) -> bool {
    &&& 0 <= k <= s.len()
    &&& utf8_len(s.take(k)) <= n
    &&& (k == s.len() || utf8_len(s.take(k + 1)) > n)
}

/// The number of characters of `s` that fit in its first `n` bytes.
pub open spec fn chars_within_bytes(s: Seq<char>, n: nat) -> int {
    choose|k: int| fits_in_bytes(s, n, k)
}

proof fn lemma_fits_in_bytes_unique(s: Seq<char>, n: nat, a: int, b: int)
    requires
        fits_in_bytes(s, n, a),
        fits_in_bytes(s, n, b),
    ensures
        a == b,
{
    if a < b {
        if a + 1 < b {
            lemma_utf8_len_prefix_strict(s, a + 1, b);
        }
    } else if b < a {
        if b + 1 < a {
            lemma_utf8_len_prefix_strict(s, b + 1, a);
        }
    }
}

/// How many characters of `v` fit in its first `n` bytes (see
/// `chars_within_bytes`).
pub fn prefix_within_bytes(v: &[char], n: u64) -> (k: usize)
    requires
        n < u64::MAX - 4,
    ensures
        fits_in_bytes(v@, n as nat, k as int),
        k == chars_within_bytes(v@, n as nat),
{
    let mut acc: u64 = 0;
    let mut i: usize = 0;
    assert(v@.take(0) == Seq::<char>::empty());
    while i < v.len()
        invariant
            i <= v@.len(),
            n < u64::MAX - 4,
            acc <= n,
            acc == utf8_len(v@.take(i as int)),
        ensures
            i <= v@.len(),
            acc == utf8_len(v@.take(i as int)),
            acc <= n,
            i == v@.len() || acc + char_width(v@[i as int]) > n,
        decreases v@.len() - i,
    {
        proof {
            lemma_utf8_len_take(v@, i as int);
        }
        let w = char_width_exec(v[i]);
        if acc + w > n {
            break;
        }
        acc = acc + w;
        i = i + 1;
    }
    proof {
        if i < v@.len() {
            lemma_utf8_len_take(v@, i as int);
        }
        assert(fits_in_bytes(v@, n as nat, i as int));
        lemma_fits_in_bytes_unique(v@, n as nat, i as int, chars_within_bytes(v@, n as nat));
    }
    i
}

/// What `str::to_lowercase` gives for `s`.
pub uninterp spec fn lowercased(s: Seq<char>) -> Seq<char>;

/// What `str::to_uppercase` gives for `s`.
pub uninterp spec fn uppercased(s: Seq<char>) -> Seq<char>;

/// `str::to_lowercase`. The contract names the result, which depends on `s`
/// alone; the Unicode case tables are left to the name.
#[verifier::external_body]
pub fn to_lowercase(s: &str) -> (r: String)
    ensures
        r@ == lowercased(s@),
{
    s.to_lowercase()
}

/// `str::to_uppercase`. The contract names the result, which depends on `s`
/// alone; the Unicode case tables are left to the name.
#[verifier::external_body]
pub fn to_uppercase(s: &str) -> (r: String)
    ensures
        r@ == uppercased(s@),
{
    s.to_uppercase()
}

pub open spec fn ascii_lower(c: char) -> char {
    if 'A' <= c <= 'Z' {
        ((c as u32) + 32) as char
    } else {
        c
    }
}

/// `a` and `b` are equal but for the case of ASCII letters.
pub open spec fn eq_ignore_ascii_case(a: Seq<char>, b: Seq<char>) -> bool {
    a.len() == b.len() && forall|i: int| 0 <= i < a.len() ==> ascii_lower(#[trigger] a[i]) == ascii_lower(b[i])
}

pub fn ascii_lower_char(c: char) -> (r: char)
    ensures
        r == ascii_lower(c),
{
    if 'A' <= c && c <= 'Z' {
        ((c as u32) + 32) as u8 as char
    } else {
        c
    }
}

pub fn eq_ignore_ascii_case_vec(a: &[char], b: &[char]) -> (r: bool)
    ensures
        r == eq_ignore_ascii_case(a@, b@),
{
    if a.len() != b.len() {
        return false;
    }
    let mut i: usize = 0;
    while i < a.len()
        invariant
            a@.len() == b@.len(),
            i <= a@.len(),
            forall|k: int| 0 <= k < i ==> ascii_lower(#[trigger] a@[k]) == ascii_lower(b@[k]),
        decreases a@.len() - i,
    {
        if ascii_lower_char(a[i]) != ascii_lower_char(b[i]) {
            return false;
        }
        i = i + 1;
    }
    true
}

/// `p` occurs in `s` at `i`, but for the case of ASCII letters.
pub open spec fn occurs_at_ci(s: Seq<char>, p: Seq<char>, i: int) -> bool {
    0 <= i && i + p.len() <= s.len() && eq_ignore_ascii_case(s.subrange(i, i + p.len()), p)
}

/// `s` with every leading copy of the non-empty `p` removed (what
/// `str::trim_start_matches(p)` gives).
pub open spec fn strip_prefixes(s: Seq<char>, p: Seq<char>) -> Seq<char>
    decreases s.len(),
{
    if p.len() > 0 && starts_with(s, p) {
        strip_prefixes(s.skip(p.len() as int), p)
    } else {
        s
    }
}

/// The part of `s` before the first `sep` (all of `s` when there is none):
/// the first item of `str::split(sep)`.
#[verifier::opaque]
pub open spec fn before_char(s: Seq<char>, sep: char) -> Seq<char> {
    if exists|k: int| 0 <= k < s.len() && s[k] == sep {
        s.take(choose|k: int| 0 <= k < s.len() && s[k] == sep && forall|j: int| 0 <= j < k ==> s[j] != sep)
    } else {
        s
    }
}

pub fn strip_prefixes_vec(v: &[char], p: &[char]) -> (r: Vec<char>)
    requires
        p@.len() > 0,
    ensures
        r@ == strip_prefixes(v@, p@),
{
    let mut i: usize = 0;
    let n = v.len();
    assert(v@.skip(0) == v@);
    while occurs_at_vec(v, p, i)
        invariant
            i <= v@.len(),
            n == v@.len(),
            p@.len() > 0,
            strip_prefixes(v@, p@) == strip_prefixes(v@.skip(i as int), p@),
        decreases v@.len() - i,
    {
        proof {
            let rest = v@.skip(i as int);
            assert(rest.subrange(0, p@.len() as int) == v@.subrange(i as int, i + p@.len()));
            assert(rest.skip(p@.len() as int) == v@.skip(i + p@.len()));
        }
        i = i + p.len();
    }
    proof {
        let rest = v@.skip(i as int);
        if starts_with(rest, p@) {
            assert(rest.subrange(0, p@.len() as int) == v@.subrange(i as int, i + p@.len()));
        }
    }
    let r = slice(v, i, v.len());
    assert(r@ == v@.skip(i as int));
    r
}

pub fn before_char_vec(v: &[char], sep: char) -> (r: Vec<char>)
    ensures
        r@ == before_char(v@, sep),
        r@.len() <= v@.len(),
        r@.len() < v@.len() ==> v@[r@.len() as int] == sep,
        r@ == v@.take(r@.len() as int),
{
    reveal(before_char);
    let mut k: usize = 0;
    while k < v.len() && v[k] != sep
        invariant
            k <= v@.len(),
            forall|j: int| 0 <= j < k ==> v@[j] != sep,
        decreases v@.len() - k,
    {
        k = k + 1;
    }
    if k < v.len() {
        proof {
            let c = choose|c: int| 0 <= c < v@.len() && v@[c] == sep && forall|j: int| 0 <= j < c ==> v@[j] != sep;
            assert(0 <= k < v@.len() && v@[k as int] == sep && forall|j: int| 0 <= j < k ==> v@[j] != sep);
            if c < k {
            } else if c > k {
                assert(v@[k as int] != sep);
            }
        }
        slice(v, 0, k)
    } else {
        let r = slice(v, 0, k);
        assert(r@ == v@);
        r
    }
}

/// The characters of `s`, in order.
#[verifier::external_body]
pub fn to_chars(s: &str) -> (v: Vec<char>)
    ensures
        v@ == s@,
{
    s.chars().collect()
}

/// The string whose characters are `v`, in order.
#[verifier::external_body]
pub fn from_chars(v: &[char]) -> (s: String)
    ensures
        s@ == v@,
{
    v.iter().collect()
}

pub fn is_ws_char(c: char) -> (b: bool)
    ensures
        b == is_ws(c),
{
    let u = c as u32;
    (0x09 <= u && u <= 0x0D) || u == 0x20 || u == 0x85 || u == 0xA0 || u == 0x1680 || (0x2000
        <= u && u <= 0x200A) || u == 0x2028 || u == 0x2029 || u == 0x202F || u == 0x205F || u
        == 0x3000
}

pub fn is_digit_char(c: char) -> (b: bool)
    ensures
        b == is_digit(c),
{
    '0' <= c && c <= '9'
}

pub fn all_digits_vec(v: &[char]) -> (b: bool)
    ensures
        b == all_digits(v@),
{
    let mut i: usize = 0;
    while i < v.len()
        invariant
            i <= v@.len(),
            forall|j: int| 0 <= j < i ==> #[trigger] is_digit(v@[j]),
        decreases v@.len() - i,
    {
        if !is_digit_char(v[i]) {
            return false;
        }
        i = i + 1;
    }
    true
}

/// The characters of `v` from index `a` up to, not including, `b`.
pub fn slice(v: &[char], a: usize, b: usize) -> (r: Vec<char>)
    requires
        a <= b <= v@.len(),
    ensures
        r@ == v@.subrange(a as int, b as int),
{
    let mut r: Vec<char> = Vec::new();
    let mut i = a;
    while i < b
        invariant
            a <= i <= b <= v@.len(),
            r@ == v@.subrange(a as int, i as int),
        decreases b - i,
    {
        r.push(v[i]);
        i = i + 1;
    }
    r
}

/// Appends the characters of `w` to `v`.
pub fn push_all(v: &mut Vec<char>, w: &[char])
    ensures
        final(v)@ == old(v)@ + w@,
{
    let mut i: usize = 0;
    while i < w.len()
        invariant
            i <= w@.len(),
            v@ == old(v)@ + w@.subrange(0, i as int),
        decreases w@.len() - i,
    {
        v.push(w[i]);
        i = i + 1;
        assert(w@.subrange(0, i as int) == w@.subrange(0, i - 1) + seq![w@[i - 1]]);
    }
    assert(w@.subrange(0, w@.len() as int) == w@);
}

/// Appends the characters of `s` to `v`.
pub fn push_str(v: &mut Vec<char>, s: &str)
    ensures
        final(v)@ == old(v)@ + s@,
{
    let w = to_chars(s);
    push_all(v, &w);
}

proof fn lemma_trim_start_skip(s: Seq<char>, i: int)
    requires
        0 <= i < s.len(),
        is_ws(s[i]),
    ensures
        trim_start(s.subrange(i, s.len() as int)) == trim_start(s.subrange(i + 1, s.len() as int)),
{
    let t = s.subrange(i, s.len() as int);
    assert(t.drop_first() == s.subrange(i + 1, s.len() as int));
}

proof fn lemma_trim_end_skip(s: Seq<char>, j: int)
    requires
        0 < j <= s.len(),
        is_ws(s[j - 1]),
    ensures
        trim_end(s.subrange(0, j)) == trim_end(s.subrange(0, j - 1)),
{
    let t = s.subrange(0, j);
    assert(t.drop_last() == s.subrange(0, j - 1));
}

/// `str::trim`: `v` without leading and trailing white space.
pub fn trim_vec(v: &[char]) -> (r: Vec<char>)
    ensures
        r@ == trim(v@),
{
    let n = v.len();
    let mut i: usize = 0;
    assert(v@.subrange(0, n as int) == v@);
    while i < n && is_ws_char(v[i])
        invariant
            i <= n == v@.len(),
            trim_start(v@) == trim_start(v@.subrange(i as int, n as int)),
        decreases n - i,
    {
        proof {
            lemma_trim_start_skip(v@, i as int);
        }
        i = i + 1;
    }
    let ghost t = v@.subrange(i as int, n as int);
    assert(trim_start(t) == t);
    let mut j: usize = n;
    assert(t.subrange(0, (j - i) as int) == t);
    while j > i && is_ws_char(v[j - 1])
        invariant
            i <= j <= n == v@.len(),
            t == v@.subrange(i as int, n as int),
            trim_end(t) == trim_end(t.subrange(0, (j - i) as int)),
        decreases j,
    {
        proof {
            lemma_trim_end_skip(t, (j - i) as int);
        }
        j = j - 1;
    }
    let r = slice(v, i, j);
    assert(r@ == t.subrange(0, (j - i) as int));
    r
}

/// `str::trim` on a `&str`.
pub fn trim_str(s: &str) -> (r: String)
    ensures
        r@ == trim(s@),
{
    let v = to_chars(s);
    let t = trim_vec(&v);
    from_chars(&t)
}

pub fn starts_with_vec(v: &[char], p: &[char]) -> (b: bool)
    ensures
        b == starts_with(v@, p@),
{
    if p.len() > v.len() {
        return false;
    }
    let mut i: usize = 0;
    while i < p.len()
        invariant
            p@.len() <= v@.len(),
            i <= p@.len(),
            forall|k: int| 0 <= k < i ==> v@[k] == p@[k],
        decreases p@.len() - i,
    {
        if v[i] != p[i] {
            assert(v@.subrange(0, p@.len() as int)[i as int] != p@[i as int]);
            return false;
        }
        i = i + 1;
    }
    assert(v@.subrange(0, p@.len() as int) == p@);
    true
}

pub fn ends_with_vec(v: &[char], p: &[char]) -> (b: bool)
    ensures
        b == ends_with(v@, p@),
{
    if p.len() > v.len() {
        return false;
    }
    let off = v.len() - p.len();
    let mut i: usize = 0;
    while i < p.len()
        invariant
            p@.len() <= v@.len(),
            off == v@.len() - p@.len(),
            v@.len() <= usize::MAX,
            i <= p@.len(),
            forall|k: int| 0 <= k < i ==> v@[off + k] == p@[k],
        decreases p@.len() - i,
    {
        if v[off + i] != p[i] {
            assert(v@.subrange(off as int, v@.len() as int)[i as int] != p@[i as int]);
            return false;
        }
        i = i + 1;
    }
    assert(v@.subrange(off as int, v@.len() as int) == p@);
    true
}

/// Whether `p` occurs in `v` at index `i`.
pub fn occurs_at_vec(v: &[char], p: &[char], i: usize) -> (b: bool)
    ensures
        b == occurs_at(v@, p@, i as int),
{
    if i > v.len() || p.len() > v.len() - i {
        return false;
    }
    let mut k: usize = 0;
    while k < p.len()
        invariant
            i + p@.len() <= v@.len(),
            v@.len() <= usize::MAX,
            k <= p@.len(),
            forall|m: int| 0 <= m < k ==> v@[i + m] == p@[m],
        decreases p@.len() - k,
    {
        if v[i + k] != p[k] {
            assert(v@.subrange(i as int, i + p@.len())[k as int] != p@[k as int]);
            return false;
        }
        k = k + 1;
    }
    assert(v@.subrange(i as int, i + p@.len()) == p@);
    true
}

proof fn lemma_first_occurrence_is(s: Seq<char>, p: Seq<char>, from: int, i: int)
    requires
        from <= i,
        occurs_at(s, p, i),
        forall|j: int| from <= j < i ==> !occurs_at(s, p, j),
    ensures
        first_occurrence(s, p, from) == Some(i),
{
    reveal(first_occurrence);
    let w = choose|w: int|
        from <= w && #[trigger] occurs_at(s, p, w) && forall|j: int|
            from <= j < w ==> !occurs_at(s, p, j);
    assert(from <= i && occurs_at(s, p, i) && forall|j: int| from <= j < i ==> !occurs_at(s, p, j));
    if w < i {
    } else if w > i {
        assert(!occurs_at(s, p, i));
    }
}

/// The first index at or after `from` where `p` occurs in `v`.
pub fn find_from(v: &[char], p: &[char], from: usize) -> (r: Option<usize>)
    ensures
        r == (match first_occurrence(v@, p@, from as int) {
            Some(i) => Some(i as usize),
            None => None::<usize>,
        }),
        r matches Some(i) ==> from <= i && occurs_at(v@, p@, i as int)
            && first_occurrence(v@, p@, from as int) == Some(i as int),
        r is None ==> first_occurrence(v@, p@, from as int) is None,
        r is None ==> forall|j: int| from <= j ==> !#[trigger] occurs_at(v@, p@, j),
{
    reveal(first_occurrence);
    let mut i = from;
    while i < v.len()
        invariant
            from <= i,
            forall|j: int| from <= j < i ==> !occurs_at(v@, p@, j),
        decreases v@.len() - i,
    {
        if occurs_at_vec(v, p, i) {
            proof {
                lemma_first_occurrence_is(v@, p@, from as int, i as int);
            }
            return Some(i);
        }
        i = i + 1;
    }
    if i == v.len() && occurs_at_vec(v, p, i) {
        proof {
            lemma_first_occurrence_is(v@, p@, from as int, i as int);
        }
        return Some(i);
    }
    proof {
        assert forall|j: int| from <= j implies !#[trigger] occurs_at(v@, p@, j) by {
            if j >= i && occurs_at(v@, p@, j) {
                assert(j == v@.len());
            }
        }
    }
    None
}


/// The first index at or after `from` where `p` occurs in `s`, ASCII case ignored.
#[verifier::opaque]
pub open spec fn first_occurrence_ci(s: Seq<char>, p: Seq<char>, from: int) -> Option<int> {
    if exists|i: int| from <= i && #[trigger] occurs_at_ci(s, p, i) {
        let i = choose|i: int|
            from <= i && #[trigger] occurs_at_ci(s, p, i) && forall|j: int|
                from <= j < i ==> !occurs_at_ci(s, p, j);
        Some(i)
    } else {
        None
    }
}

/// Whether `p` occurs in `v` at index `i`, ASCII case ignored.
pub fn occurs_at_ci_vec(v: &[char], p: &[char], i: usize) -> (b: bool)
    ensures
        b == occurs_at_ci(v@, p@, i as int),
{
    if i > v.len() || p.len() > v.len() - i {
        return false;
    }
    let w = slice(v, i, i + p.len());
    eq_ignore_ascii_case_vec(&w, p)
}

proof fn lemma_first_occurrence_ci_is(s: Seq<char>, p: Seq<char>, from: int, i: int)
    requires
        from <= i,
        occurs_at_ci(s, p, i),
        forall|j: int| from <= j < i ==> !occurs_at_ci(s, p, j),
    ensures
        first_occurrence_ci(s, p, from) == Some(i),
{
    reveal(first_occurrence_ci);
    let w = choose|w: int|
        from <= w && #[trigger] occurs_at_ci(s, p, w) && forall|j: int|
            from <= j < w ==> !occurs_at_ci(s, p, j);
    assert(from <= i && occurs_at_ci(s, p, i) && forall|j: int| from <= j < i ==> !occurs_at_ci(s, p, j));
    if w < i {
    } else if w > i {
        assert(!occurs_at_ci(s, p, i));
    }
}

/// The first index at or after `from` where `p` occurs in `v`, ASCII case ignored.
pub fn find_from_ci(v: &[char], p: &[char], from: usize) -> (r: Option<usize>)
    ensures
        r == (match first_occurrence_ci(v@, p@, from as int) {
            Some(i) => Some(i as usize),
            None => None::<usize>,
        }),
        r matches Some(i) ==> from <= i && occurs_at_ci(v@, p@, i as int)
            && first_occurrence_ci(v@, p@, from as int) == Some(i as int),
        r is None ==> first_occurrence_ci(v@, p@, from as int) is None,
        r is None ==> forall|j: int| from <= j ==> !#[trigger] occurs_at_ci(v@, p@, j),
{
    reveal(first_occurrence_ci);
    let mut i = from;
    while i < v.len()
        invariant
            from <= i,
            forall|j: int| from <= j < i ==> !occurs_at_ci(v@, p@, j),
        decreases v@.len() - i,
    {
        if occurs_at_ci_vec(v, p, i) {
            proof {
                lemma_first_occurrence_ci_is(v@, p@, from as int, i as int);
            }
            return Some(i);
        }
        i = i + 1;
    }
    if i == v.len() && occurs_at_ci_vec(v, p, i) {
        proof {
            lemma_first_occurrence_ci_is(v@, p@, from as int, i as int);
        }
        return Some(i);
    }
    proof {
        assert forall|j: int| from <= j implies !#[trigger] occurs_at_ci(v@, p@, j) by {
            if j >= i && occurs_at_ci(v@, p@, j) {
                assert(j == v@.len());
            }
        }
    }
    None
}

} // verus!
