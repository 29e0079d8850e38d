//! Stock name and code lookup.
use vstd::prelude::*;
use crate::json::str_eq;
use crate::services::error::{unsupported_method, ServiceError};
use crate::text::{all_digits, all_digits_vec, from_chars, push_str, to_chars};

verus! {

/// The methods the service answers.
#[derive(Clone, Copy, PartialEq, Eq, Structural, Debug)]
pub enum NameResolverMethod {
    Resolve,
    Search,
}

/// The method named `name`.
pub open spec fn name_resolver_method_named(name: Seq<char>) -> Option<NameResolverMethod> {
    if name == "resolve"@ {
        Some(NameResolverMethod::Resolve)
    } else if name == "search"@ {
        Some(NameResolverMethod::Search)
    } else {
        None
    }
}

pub struct NameResolverService {}

impl NameResolverService {
    pub fn new() -> (s: Self) {
        NameResolverService {}
    }

    /// The method a request names; an unknown one is a routing error
    /// `name_resolver unsupported method: <method>`.
    pub fn dispatch(&self, method: &str) -> (r: Result<NameResolverMethod, ServiceError>)
        ensures
            match name_resolver_method_named(method@) {
                Some(m) => r == Ok::<NameResolverMethod, ServiceError>(m),
                None => r matches Err(ServiceError::ApiRouting(msg)) && msg@ == "name_resolver unsupported method: "@ + method@,
            },
    {
        let r = if str_eq(method, "resolve") {
            Some(NameResolverMethod::Resolve)
        } else if str_eq(method, "search") {
            Some(NameResolverMethod::Search)
        } else {
            None
        };
        match r {
            Some(m) => Ok(m),
            None => Err(unsupported_method("name_resolver unsupported method: ", method)),
        }
    }
}


/// How a query is looked up.
pub enum Lookup {
    /// Six digits: looked up as a stock code.
    Code(String),
    /// Anything else: matched against stock names with this `LIKE` pattern.
    NamePattern(String),
}

/// A `LIKE` pattern that finds `s` anywhere: `%s%`.
pub open spec fn like_anywhere(s: Seq<char>) -> Seq<char> {
    "%"@ + s + "%"@
}

/// A query that is a stock code: six decimal digits.
pub open spec fn is_stock_code(q: Seq<char>) -> bool {
    q.len() == 6 && all_digits(q)
}

fn like_pattern(s: &str) -> (r: String)
    ensures
        r@ == like_anywhere(s@),
{
    let mut out: Vec<char> = Vec::new();
    push_str(&mut out, "%");
    push_str(&mut out, s);
    push_str(&mut out, "%");
    from_chars(&out)
}

impl NameResolverService {
    /// How `resolve` looks a query up; an empty one is refused
    /// (`Please provide query`).
    pub fn resolve_lookup(&self, query: &str) -> (r: Result<Lookup, ServiceError>)
        ensures
            query@.len() == 0 ==> (r matches Err(ServiceError::Validation(m)) && m@ == "Please provide query"@),
            query@.len() != 0 && is_stock_code(query@) ==> (r matches Ok(Lookup::Code(c)) && c@ == query@),
            query@.len() != 0 && !is_stock_code(query@) ==> (r matches Ok(Lookup::NamePattern(p)) && p@ == like_anywhere(query@)),
    {
        if query.is_empty() {
            return Err(ServiceError::Validation("Please provide query".to_owned()));
        }
        let v = to_chars(query);
        if v.len() == 6 && all_digits_vec(&v) {
            Ok(Lookup::Code(query.to_owned()))
        } else {
            Ok(Lookup::NamePattern(like_pattern(query)))
        }
    }

    /// The pattern and row limit of a fuzzy search (the limit held to
    /// 1..50); an empty keyword is refused (`Please provide keyword`).
    pub fn search_plan(&self, keyword: &str, limit: i64) -> (r: Result<(String, i64), ServiceError>)
        ensures
            keyword@.len() == 0 ==> (r matches Err(ServiceError::Validation(m)) && m@ == "Please provide keyword"@),
            keyword@.len() != 0 ==> (r matches Ok(p) && p.0@ == like_anywhere(keyword@)
                && p.1 == (if limit < 1 { 1 } else if limit > 50 { 50 } else { limit })),
    {
        if keyword.is_empty() {
            return Err(ServiceError::Validation("Please provide keyword".to_owned()));
        }
        let n = if limit < 1 { 1 } else if limit > 50 { 50 } else { limit };
        Ok((like_pattern(keyword), n))
    }
}

} // verus!
