//! Local mode: requests reach the handlers without their `Authorization` header.
use vstd::prelude::*;
use crate::text::{eq_ignore_ascii_case, eq_ignore_ascii_case_vec, to_chars};

verus! {

/// The middleware factory, carrying whether the server runs in local mode.
pub struct StripAuth {
    pub local_mode: bool,
}

/// Sets whether `Authorization` headers are removed.
pub fn set_local_mode(auth: &mut StripAuth, is_local: bool)
    ensures
        final(auth).local_mode == is_local,
{
    auth.local_mode = is_local;
}

/// The middleware that removes the header when local mode is on.
pub struct StripAuthMiddleware {
    pub local_mode: bool,
}

/// Header names are compared without regard to ASCII case.
pub open spec fn is_authorization(name: Seq<char>) -> bool {
    eq_ignore_ascii_case(name, "authorization"@)
}

/// Keeps every header but `Authorization`.
pub open spec fn keep_header() -> spec_fn((String, String)) -> bool {
    |h: (String, String)| !is_authorization(h.0@)
}

/// The headers that remain once the middleware ran.
pub open spec fn spec_stripped(local_mode: bool, headers: Seq<(String, String)>) -> Seq<(String, String)> {
    if local_mode {
        headers.filter(keep_header())
    } else {
        headers
    }
}

impl StripAuth {
    /// Local mode is on until set otherwise.
    pub fn new() -> (s: Self)
        ensures
            s.local_mode,
    {
        StripAuth { local_mode: true }
    }

    pub fn new_transform(&self) -> (m: StripAuthMiddleware)
        ensures
            m.local_mode == self.local_mode,
    {
        StripAuthMiddleware { local_mode: self.local_mode }
    }
}

impl StripAuthMiddleware {
    /// The request headers with every `Authorization` header removed in
    /// local mode; unchanged otherwise.
    pub fn strip(&self, headers: Vec<(String, String)>) -> (r: Vec<(String, String)>)
        ensures
            r@ == spec_stripped(self.local_mode, headers@),
    {
        if !self.local_mode {
            return headers;
        }
        let target = to_chars("authorization");
        let ghost pred = keep_header();
        let mut out: Vec<(String, String)> = Vec::new();
        let mut i: usize = 0;
        while i < headers.len()
            invariant
                i <= headers@.len(),
                target@ == "authorization"@,
                pred == keep_header(),
                out@ == headers@.take(i as int).filter(pred),
            decreases headers@.len() - i,
        {
            let name = to_chars(headers[i].0.as_str());
            let auth = eq_ignore_ascii_case_vec(&name, &target);
            proof {
                reveal(Seq::filter);
                assert(headers@.take(i + 1).drop_last() == headers@.take(i as int));
            }
            let ghost h = headers@[i as int];
            assert(auth == is_authorization(h.0@));
            if !auth {
                let k = headers[i].0.clone();
                let v = headers[i].1.clone();
                out.push((k, v));
                assert((k, v) == h);
            }
            proof {
                let t = headers@.take(i + 1);
                assert(t.last() == h);
                assert(t.filter(pred) == if pred(h) { t.drop_last().filter(pred).push(h) } else { t.drop_last().filter(pred) });
            }
            i = i + 1;
        }
        assert(headers@.take(headers@.len() as int) == headers@);
        out
    }
}

/// In local mode no `Authorization` header (in any case) reaches a handler,
/// and every other header does, in order; outside local mode nothing is
/// removed.
pub proof fn lemma_local_mode_strips_authorization(local_mode: bool, headers: Seq<(String, String)>)
    ensures
        local_mode ==> forall|i: int| 0 <= i < spec_stripped(local_mode, headers).len()
            ==> !is_authorization(#[trigger] spec_stripped(local_mode, headers)[i].0@),
        local_mode ==> forall|i: int| 0 <= i < headers.len() && !is_authorization(#[trigger] headers[i].0@)
            ==> spec_stripped(local_mode, headers).contains(headers[i]),
        !local_mode ==> spec_stripped(local_mode, headers) == headers,
{
    if local_mode {
        let p = keep_header();
        assert forall|i: int| 0 <= i < headers.filter(p).len() implies !is_authorization(#[trigger] headers.filter(p)[i].0@) by {
            headers.lemma_filter_pred(p, i);
        }
        assert forall|i: int| 0 <= i < headers.len() && !is_authorization(#[trigger] headers[i].0@) implies headers.filter(p).contains(headers[i]) by {
            headers.lemma_filter_contains(p, i);
        }
    }
}

} // verus!
