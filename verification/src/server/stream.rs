//! Streaming endpoints: who may open a stream, and the token estimate of streamed text.
use vstd::prelude::*;
use crate::json::chars_eq;
use crate::text::{before_char, before_char_vec, push_str, slice, starts_with, starts_with_vec, to_chars};

verus! {

/// Some `&`-separated piece of the query `q` (as `str::split('&')` yields
/// them) equals `w`.
#[verifier::opaque]
pub open spec fn has_piece(q: Seq<char>, w: Seq<char>) -> bool
    decreases q.len(),
{
    let head = before_char(q, '&');
    head == w || (head.len() < q.len() && has_piece(q.skip((head.len() + 1) as int), w))
}

/// A stream may be opened when no password is set, when the
/// `Authorization` header is `Bearer <token>` with the stored token, or
/// when some `token=<token>` piece of the query carries the stored token.
pub open spec fn spec_stream_allowed(
    has_password: bool,
    auth_header: Option<Seq<char>>,
    query: Option<Seq<char>>,
    stored: Option<Seq<char>>,
) -> bool {
    ||| !has_password
    ||| (auth_header matches Some(h) && stored matches Some(t) && starts_with(h, "Bearer "@) && h.skip(7) == t)
    ||| (query matches Some(q) && stored matches Some(t) && has_piece(q, "token="@ + t))
}

proof fn lemma_has_piece_step(q: Seq<char>, w: Seq<char>)
    ensures
        has_piece(q, w) == {
            let head = before_char(q, '&');
            head == w || (head.len() < q.len() && has_piece(q.skip((head.len() + 1) as int), w))
        },
{
    reveal(has_piece);
}

fn query_has_token(q: &str, token: &str) -> (r: bool)
    ensures
        r == has_piece(q@, "token="@ + token@),
{
    let v = to_chars(q);
    let mut want: Vec<char> = Vec::new();
    push_str(&mut want, "token=");
    push_str(&mut want, token);
    let mut start: usize = 0;
    let n = v.len();
    assert(v@.skip(0) == v@);
    loop
        invariant
            start <= n == v@.len(),
            want@ == "token="@ + token@,
            has_piece(q@, want@) == has_piece(v@.skip(start as int), want@),
        decreases n - start,
    {
        let rest = slice(&v, start, n);
        assert(rest@ == v@.skip(start as int));
        let head = before_char_vec(&rest, '&');
        proof {
            lemma_has_piece_step(rest@, want@);
        }
        if chars_eq(&head, &want) {
            return true;
        }
        if head.len() < rest.len() {
            assert(rest@.skip((head@.len() + 1) as int) == v@.skip(start + head@.len() + 1));
            start = start + head.len() + 1;
        } else {
            return false;
        }
    }
}

/// The stream authorisation check: `Ok` when the caller may open a stream.
pub fn check_stream_auth(
    has_password: bool,
    auth_header: Option<&str>,
    query: Option<&str>,
    stored_token: Option<&str>,
) -> (r: Result<(), &'static str>)
    ensures
        r is Ok <==> spec_stream_allowed(
            has_password,
            match auth_header { Some(h) => Some(h@), None => None },
            match query { Some(q) => Some(q@), None => None },
            match stored_token { Some(t) => Some(t@), None => None },
        ),
        r matches Err(e) ==> e@ == "未授权访问"@,
{
    if !has_password {
        return Ok(());
    }
    match (auth_header, stored_token) {
        (Some(h), Some(t)) => {
            let hv = to_chars(h);
            let bearer = to_chars("Bearer ");
            proof {
                reveal_strlit("Bearer ");
            }
            if starts_with_vec(&hv, &bearer) {
                let rest = slice(&hv, 7, hv.len());
                let tv = to_chars(t);
                if chars_eq(&rest, &tv) {
                    return Ok(());
                }
            }
        },
        _ => {},
    }
    match (query, stored_token) {
        (Some(q), Some(t)) => {
            if query_has_token(q, t) {
                return Ok(());
            }
        },
        _ => {},
    }
    Err("未授权访问")
}

/// The number of ASCII characters in `s`.
pub open spec fn ascii_count(s: Seq<char>) -> nat
    decreases s.len(),
{
    if s.len() == 0 {
        0
    } else {
        ascii_count(s.drop_last()) + if (s.last() as u32) <= 0x7F { 1nat } else { 0nat }
    }
}

/// The token estimate of `text`: a quarter token per ASCII character and one
/// and a half per other character, rounded up; saturated at `i32::MAX`.
pub open spec fn spec_estimate_tokens(text: Seq<char>) -> i32 {
    let ascii = ascii_count(text);
    let wide = text.len() - ascii;
    let t = (ascii + 6 * wide + 3) / 4;
    if t > i32::MAX { i32::MAX } else { t as i32 }
}

proof fn lemma_ascii_count_le(s: Seq<char>)
    ensures
        ascii_count(s) <= s.len(),
    decreases s.len(),
{
    if s.len() > 0 {
        lemma_ascii_count_le(s.drop_last());
    }
}

pub fn estimate_tokens(text: &str) -> (r: i32)
    ensures
        r == spec_estimate_tokens(text@),
{
    let v = to_chars(text);
    let mut ascii: u128 = 0;
    let mut i: usize = 0;
    while i < v.len()
        invariant
            i <= v@.len(),
            ascii == ascii_count(v@.take(i as int)),
            ascii <= i,
        decreases v@.len() - i,
    {
        proof {
            assert(v@.take(i + 1).drop_last() == v@.take(i as int));
            lemma_ascii_count_le(v@.take(i as int));
        }
        if (v[i] as u32) <= 0x7F {
            ascii = ascii + 1;
        }
        i = i + 1;
    }
    assert(v@.take(v@.len() as int) == v@);
    let wide: u128 = (v.len() as u128) - ascii;
    let t: u128 = (ascii + 6 * wide + 3) / 4;
    if t > (i32::MAX as u128) {
        i32::MAX
    } else {
        t as i32
    }
}

} // verus!
