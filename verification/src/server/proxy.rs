//! Outbound proxy: the allow-list of hosts and the shape of proxied requests.
use vstd::prelude::*;
use crate::json::{parse_json, parsed_json, str_eq, JsonValue};
use crate::strings::{decimal_string, decimal_text};
use crate::text::{
    before_char, before_char_vec, ends_with, ends_with_vec, from_chars, push_str, starts_with,
    starts_with_vec, strip_prefixes, strip_prefixes_vec, to_chars, to_uppercase, uppercased,
};

verus! {

/// A request to forward: target URL, HTTP method name, headers and optional body.
pub struct ProxyRequest {
    pub url: String,
    pub method: String,
    pub headers: Vec<(String, String)>,
    pub body: Option<String>,
}

/// The hosts (and their sub-domains) the proxy may reach.
pub open spec fn allowed_domains() -> Seq<Seq<char>> {
    seq!["auth.htui.cc"@]
}

/// The host part of an `http://` or `https://` URL: what follows the scheme
/// (every leading copy of it removed) up to the first `/`.
pub open spec fn url_host(url: Seq<char>) -> Option<Seq<char>> {
    if starts_with(url, "https://"@) {
        Some(before_char(strip_prefixes(url, "https://"@), '/'))
    } else if starts_with(url, "http://"@) {
        Some(before_char(strip_prefixes(url, "http://"@), '/'))
    } else {
        None
    }
}

/// `host` is `domain` or one of its sub-domains.
pub open spec fn host_matches(host: Seq<char>, domain: Seq<char>) -> bool {
    host == domain || ends_with(host, "."@ + domain)
}

pub open spec fn spec_url_allowed(url: Seq<char>) -> bool {
    match url_host(url) {
        Some(h) => exists|i: int| 0 <= i < allowed_domains().len() && host_matches(h, #[trigger] allowed_domains()[i]),
        None => false,
    }
}

/// The host of an `http(s)://` URL, or `None`.
pub fn host_of(url: &str) -> (r: Option<String>)
    ensures
        match r {
            Some(h) => url_host(url@) == Some(h@),
            None => url_host(url@) is None,
        },
{
    proof {
        reveal_strlit("https://");
        reveal_strlit("http://");
    }
    let v = to_chars(url);
    let https = to_chars("https://");
    let http = to_chars("http://");
    if starts_with_vec(&v, &https) {
        let rest = strip_prefixes_vec(&v, &https);
        Some(from_chars(&before_char_vec(&rest, '/')))
    } else if starts_with_vec(&v, &http) {
        let rest = strip_prefixes_vec(&v, &http);
        Some(from_chars(&before_char_vec(&rest, '/')))
    } else {
        None
    }
}

/// Whether the proxy may send a request to `url`: an `http(s)` URL whose
/// host is an allowed domain or a sub-domain of one.
pub fn is_url_allowed(url: &str) -> (ok: bool)
    ensures
        ok == spec_url_allowed(url@),
{
    match host_of(url) {
        Some(h) => {
            let hv = to_chars(h.as_str());
            let d = "auth.htui.cc";
            let dv = to_chars(d);
            let mut dotted: Vec<char> = Vec::new();
            dotted.push('.');
            push_str(&mut dotted, d);
            assert(dotted@ == "."@ + d@) by {
                reveal_strlit(".");
            }
            let exact = crate::json::chars_eq(&hv, &dv);
            let sub = ends_with_vec(&hv, &dotted);
            proof {
                assert(allowed_domains().len() == 1);
                assert(allowed_domains()[0] == d@);
                if exact || sub {
                    assert(host_matches(h@, allowed_domains()[0]));
                }
            }
            exact || sub
        },
        None => false,
    }
}

/// The HTTP methods the proxy sends.
#[derive(Clone, Copy, PartialEq, Eq, Structural, Debug)]
pub enum HttpMethod {
    Get,
    Put,
    Delete,
    Patch,
    Post,
}

/// The method for a method name, once upper-cased; anything unknown is POST.
pub open spec fn method_for(upper: Seq<char>) -> HttpMethod {
    if upper == "GET"@ {
        HttpMethod::Get
    } else if upper == "PUT"@ {
        HttpMethod::Put
    } else if upper == "DELETE"@ {
        HttpMethod::Delete
    } else if upper == "PATCH"@ {
        HttpMethod::Patch
    } else {
        HttpMethod::Post
    }
}

/// The method to send for the requested method name.
pub fn http_method(method: &str) -> (m: HttpMethod)
    ensures
        m == method_for(uppercased(method@)),
{
    let u = to_uppercase(method);
    let s = u.as_str();
    if crate::json::str_eq(s, "GET") {
        HttpMethod::Get
    } else if str_eq(s, "PUT") {
        HttpMethod::Put
    } else if str_eq(s, "DELETE") {
        HttpMethod::Delete
    } else if str_eq(s, "PATCH") {
        HttpMethod::Patch
    } else {
        HttpMethod::Post
    }
}

/// The value of the header named exactly `name`, the first such.
pub open spec fn header_value(headers: Seq<(String, String)>, name: Seq<char>) -> Option<Seq<char>>
    decreases headers.len(),
{
    if headers.len() == 0 {
        None
    } else if headers[0].0@ == name {
        Some(headers[0].1@)
    } else {
        header_value(headers.drop_first(), name)
    }
}

/// The content type sent with a body: the request's own `Content-Type`
/// header, or `application/json`.
pub fn content_type(headers: &Vec<(String, String)>) -> (r: String)
    ensures
        r@ == match header_value(headers@, "Content-Type"@) {
            Some(v) => v,
            None => "application/json"@,
        },
{
    let n = headers.len();
    let mut i: usize = 0;
    assert(headers@.subrange(0, n as int) == headers@);
    while i < n
        invariant
            n == headers@.len(),
            i <= n,
            header_value(headers@, "Content-Type"@) == header_value(headers@.subrange(i as int, n as int), "Content-Type"@),
        decreases n - i,
    {
        let ghost rest = headers@.subrange(i as int, n as int);
        assert(rest[0] == headers@[i as int]);
        if str_eq(headers[i].0.as_str(), "Content-Type") {
            return headers[i].1.clone();
        }
        assert(rest.drop_first() == headers@.subrange(i + 1, n as int));
        i = i + 1;
    }
    "application/json".to_owned()
}

/// The error a refused URL gives.
pub fn domain_not_allowed_error(url: &str) -> (r: String)
    ensures
        r@ == "Domain not allowed: "@ + url@,
{
    let mut out: Vec<char> = Vec::new();
    push_str(&mut out, "Domain not allowed: ");
    push_str(&mut out, url);
    from_chars(&out)
}

/// The code the proxy endpoint answers a failure with: 403 for a refused
/// domain, 500 for anything else.
pub fn failure_code(err_msg: &str) -> (code: i32)
    ensures
        code == if starts_with(err_msg@, "Domain not allowed"@) { 403i32 } else { 500i32 },
{
    let v = to_chars(err_msg);
    let p = to_chars("Domain not allowed");
    if starts_with_vec(&v, &p) {
        403
    } else {
        500
    }
}

/// A refused URL is answered with 403.
pub proof fn lemma_refusal_code(url: Seq<char>)
    ensures
        starts_with("Domain not allowed: "@ + url, "Domain not allowed"@),
{
    reveal_strlit("Domain not allowed: ");
    reveal_strlit("Domain not allowed");
    assert(("Domain not allowed: "@ + url).subrange(0, 18) == "Domain not allowed"@);
}

/// What a proxied request's reply comes to.
pub enum ProxyReply {
    /// The remote answered with an error status: the message passed on.
    Failed(String),
    /// The body, read as JSON.
    Parsed(JsonValue),
    /// The body is not JSON; the caller words the parser's complaint as
    /// `Failed to parse remote response: <error>`.
    NotJson,
}

/// The message for an error status: `Remote returned error: <code>
/// <reason> - <body>`, the status as `reqwest` prints it.
pub open spec fn remote_error_text(status: u16, reason: Seq<char>, body: Seq<char>) -> Seq<char> {
    "Remote returned error: "@ + decimal_text(status as nat) + " "@ + reason + " - "@ + body
}

/// The reply to a proxied request from its status, the status's reason
/// phrase and its body: a status of 400 or more is an error that carries
/// the body; otherwise the body is read as JSON.
pub fn proxy_outcome(status: u16, reason: &str, body: &str) -> (r: ProxyReply)
    ensures
        status >= 400 ==> (r matches ProxyReply::Failed(m) && m@ == remote_error_text(status, reason@, body@)),
        status < 400 ==> match parsed_json(body@) {
            Some(v) => r matches ProxyReply::Parsed(x) && x == v,
            None => r is NotJson,
        },
{
    if status >= 400 {
        let code = decimal_string(status as u64);
        let mut out: Vec<char> = Vec::new();
        push_str(&mut out, "Remote returned error: ");
        push_str(&mut out, code.as_str());
        push_str(&mut out, " ");
        push_str(&mut out, reason);
        push_str(&mut out, " - ");
        push_str(&mut out, body);
        return ProxyReply::Failed(from_chars(&out));
    }
    match parse_json(body) {
        Some(v) => ProxyReply::Parsed(v),
        None => ProxyReply::NotJson,
    }
}

} // verus!
