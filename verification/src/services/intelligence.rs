//! News and feed sources: managing them and reading what they publish.
use vstd::prelude::*;
use crate::json::{chars_eq, decimal_value, field, parse_json, parsed_json, str_eq, str_of, JsonValue};
use crate::services::error::{unsupported_method, ServiceError};
use crate::strings::{join, join_lines, views};
use crate::text::{
    all_digits, all_digits_vec, before_char, before_char_vec, find_from, find_from_ci,
    first_occurrence, first_occurrence_ci, from_chars, occurs_at, occurs_at_ci, push_str, slice, starts_with,
    starts_with_vec, strip_prefixes, strip_prefixes_vec, to_chars, trim, trim_vec,
};

verus! {

/// The assignments a source update makes: the name, the URL template and
/// the configuration where given (not empty), the enabled flag and the
/// fetch interval where given.
pub open spec fn source_update_assignments(name: bool, url: bool, config: bool, enabled: bool, interval: bool) -> Seq<Seq<char>> {
    (if name { seq!["name = :name"@] } else { Seq::empty() })
        + (if url { seq!["url_template = :url"@] } else { Seq::empty() })
        + (if config { seq!["config_json = :config"@] } else { Seq::empty() })
        + (if enabled { seq!["enabled = :enabled"@] } else { Seq::empty() })
        + (if interval { seq!["fetch_interval = :fi"@] } else { Seq::empty() })
}

/// The methods the service answers.
#[derive(Clone, Copy, PartialEq, Eq, Structural, Debug)]
pub enum IntelligenceMethod {
    Sources,
    SourceCreate,
    SourceUpdate,
    SourceDelete,
    SourceTest,
    SourceFetch,
    FetchEnabled,
    Items,
    Templates,
    Defaults,
}

/// The method named `name`.
pub open spec fn intelligence_method_named(name: Seq<char>) -> Option<IntelligenceMethod> {
    if name == "sources"@ {
        Some(IntelligenceMethod::Sources)
    } else if name == "source_create"@ {
        Some(IntelligenceMethod::SourceCreate)
    } else if name == "source_update"@ {
        Some(IntelligenceMethod::SourceUpdate)
    } else if name == "source_delete"@ {
        Some(IntelligenceMethod::SourceDelete)
    } else if name == "source_test"@ {
        Some(IntelligenceMethod::SourceTest)
    } else if name == "source_fetch"@ {
        Some(IntelligenceMethod::SourceFetch)
    } else if name == "fetch_enabled"@ {
        Some(IntelligenceMethod::FetchEnabled)
    } else if name == "items"@ {
        Some(IntelligenceMethod::Items)
    } else if name == "templates"@ {
        Some(IntelligenceMethod::Templates)
    } else if name == "defaults"@ {
        Some(IntelligenceMethod::Defaults)
    } else {
        None
    }
}

pub struct IntelligenceService {}

impl IntelligenceService {
    pub fn new() -> (s: Self) {
        IntelligenceService {}
    }

    /// The method a request names; an unknown one is a routing error
    /// `intelligence不支持方法: <method>`.
    pub fn dispatch(&self, method: &str) -> (r: Result<IntelligenceMethod, ServiceError>)
        ensures
            match intelligence_method_named(method@) {
                Some(m) => r == Ok::<IntelligenceMethod, ServiceError>(m),
                None => r matches Err(ServiceError::ApiRouting(msg)) && msg@ == "intelligence不支持方法: "@ + method@,
            },
    {
        let r = if str_eq(method, "sources") {
            Some(IntelligenceMethod::Sources)
        } else if str_eq(method, "source_create") {
            Some(IntelligenceMethod::SourceCreate)
        } else if str_eq(method, "source_update") {
            Some(IntelligenceMethod::SourceUpdate)
        } else if str_eq(method, "source_delete") {
            Some(IntelligenceMethod::SourceDelete)
        } else if str_eq(method, "source_test") {
            Some(IntelligenceMethod::SourceTest)
        } else if str_eq(method, "source_fetch") {
            Some(IntelligenceMethod::SourceFetch)
        } else if str_eq(method, "fetch_enabled") {
            Some(IntelligenceMethod::FetchEnabled)
        } else if str_eq(method, "items") {
            Some(IntelligenceMethod::Items)
        } else if str_eq(method, "templates") {
            Some(IntelligenceMethod::Templates)
        } else if str_eq(method, "defaults") {
            Some(IntelligenceMethod::Defaults)
        } else {
            None
        };
        match r {
            Some(m) => Ok(m),
            None => Err(unsupported_method("intelligence不支持方法: ", method)),
        }
    }
}


/// The authority of a URL: what follows the scheme, up to the first `/`.
pub open spec fn url_authority(url: Seq<char>) -> Seq<char> {
    before_char(strip_prefixes(strip_prefixes(url, "http://"@), "https://"@), '/')
}

/// The host a URL names: for a bracketed IPv6 authority (`[::1]:8080`) the
/// address between `[` and `]`; otherwise the authority up to the first `:`.
pub open spec fn url_host_part(url: Seq<char>) -> Seq<char> {
    let auth = url_authority(url);
    if auth.len() > 0 && auth[0] == '[' {
        before_char(auth.skip(1), ']')
    } else {
        before_char(auth, ':')
    }
}

/// What `str::parse::<u8>` gives for `s`: an optional `+`, then at least one
/// decimal digit, with a value of at most 255.
pub open spec fn u8_text_value(s: Seq<char>) -> Option<nat> {
    let d = if s.len() > 0 && s[0] == '+' { s.skip(1) } else { s };
    if d.len() > 0 && all_digits(d) && decimal_value(d) <= 255 {
        Some(decimal_value(d))
    } else {
        None
    }
}

/// A host in `172.16.0.0/12`: its second dot-separated part reads as a
/// number from 16 to 31.
pub open spec fn in_172_private(host: Seq<char>) -> bool {
    starts_with(host, "172."@) && match u8_text_value(before_char(host.skip(4), '.')) {
        Some(n) => 16 <= n <= 31,
        None => false,
    }
}

/// A feed address may be fetched when it is `http://` or `https://` and its
/// host is none of the loopback (including the IPv6 `::1`, written `[::1]`
/// in a URL), unspecified, private or link-local ones.
pub open spec fn spec_safe_url(url: Seq<char>) -> bool {
    let host = url_host_part(url);
    &&& (starts_with(url, "http://"@) || starts_with(url, "https://"@))
    &&& host != "localhost"@
    &&& host != "127.0.0.1"@
    &&& host != "0.0.0.0"@
    &&& host != "::1"@
    &&& !starts_with(host, "10."@)
    &&& !starts_with(host, "192.168."@)
    &&& !starts_with(host, "169.254."@)
    &&& !in_172_private(host)
}

fn parse_u8_text(v: &[char]) -> (r: Option<u8>)
    ensures
        match u8_text_value(v@) {
            Some(n) => r == Some(n as u8),
            None => r is None,
        },
{
    let d = if v.len() > 0 && v[0] == '+' { slice(v, 1, v.len()) } else { slice(v, 0, v.len()) };
    assert(d@ == (if v@.len() > 0 && v@[0] == '+' { v@.skip(1) } else { v@ }));
    if d.len() == 0 || !all_digits_vec(&d) {
        return None;
    }
    let mut acc: u32 = 0;
    let mut i: usize = 0;
    while i < d.len()
        invariant
            i <= d@.len(),
            all_digits(d@),
            d@ == (if v@.len() > 0 && v@[0] == '+' { v@.skip(1) } else { v@ }),
            acc == decimal_value(d@.subrange(0, i as int)),
            acc <= 255,
        decreases d@.len() - i,
    {
        let c = d[i];
        assert(d@.subrange(0, i + 1).drop_last() == d@.subrange(0, i as int));
        assert(crate::text::is_digit(d@[i as int]));
        assert(d@.subrange(0, i + 1).last() == c);
        let digit = c as u32 - '0' as u32;
        let next = acc * 10 + digit;
        assert(next == decimal_value(d@.subrange(0, i + 1)));
        if next > 255 {
            proof {
                lemma_decimal_prefix_le(d@, i + 1);
            }
            return None;
        }
        acc = next;
        i = i + 1;
    }
    assert(d@.subrange(0, d@.len() as int) == d@);
    Some(acc as u8)
}

/// A prefix of a digit string is worth no more than the whole.
proof fn lemma_decimal_prefix_le(s: Seq<char>, i: int)
    requires
        0 <= i <= s.len(),
        all_digits(s),
    ensures
        decimal_value(s.subrange(0, i)) <= decimal_value(s),
    decreases s.len() - i,
{
    if i < s.len() {
        lemma_decimal_prefix_le(s, i + 1);
        assert(s.subrange(0, i + 1).drop_last() == s.subrange(0, i));
        assert(crate::text::is_digit(s[i]));
    } else {
        assert(s.subrange(0, i) == s);
    }
}

/// Whether a feed address may be fetched: `http` or `https`, and not an
/// internal host.
pub fn is_safe_url(url: &str) -> (b: bool)
    ensures
        b == spec_safe_url(url@),
{
    let v = to_chars(url);
    let http = to_chars("http://");
    let https = to_chars("https://");
    if !starts_with_vec(&v, &http) && !starts_with_vec(&v, &https) {
        return false;
    }
    proof {
        reveal_strlit("http://");
        reveal_strlit("https://");
    }
    let a = strip_prefixes_vec(&v, &http);
    let b = strip_prefixes_vec(&a, &https);
    let c = before_char_vec(&b, '/');
    assert(c@ == url_authority(url@));
    let host = if c.len() > 0 && c[0] == '[' {
        let inner = slice(&c, 1, c.len());
        assert(inner@ == c@.skip(1));
        before_char_vec(&inner, ']')
    } else {
        before_char_vec(&c, ':')
    };
    assert(host@ == url_host_part(url@));
    if chars_eq(&host, &to_chars("localhost")) || chars_eq(&host, &to_chars("127.0.0.1"))
        || chars_eq(&host, &to_chars("0.0.0.0")) || chars_eq(&host, &to_chars("::1"))
        || starts_with_vec(&host, &to_chars("10.")) || starts_with_vec(&host, &to_chars("192.168."))
        || starts_with_vec(&host, &to_chars("169.254.")) {
        return false;
    }
    if starts_with_vec(&host, &to_chars("172.")) {
        proof {
            reveal_strlit("172.");
        }
        let rest = slice(&host, 4, host.len());
        assert(rest@ == host@.skip(4));
        let second = before_char_vec(&rest, '.');
        match parse_u8_text(&second) {
            Some(n) => {
                if n >= 16 && n <= 31 {
                    return false;
                }
            },
            None => {},
        }
    }
    true
}

/// The fragments of `s` from index `from` on that start at `open` and end
/// after the next `close`, both found with ASCII case ignored; the scan stops
/// at the first `open` with no `close` after it.
#[verifier::opaque]
pub open spec fn fragments(s: Seq<char>, open: Seq<char>, close: Seq<char>, from: int) -> Seq<Seq<char>>
    decreases s.len() - from,
{
    match first_occurrence_ci(s, open, from) {
        Some(a) => match first_occurrence_ci(s, close, a) {
            Some(e) => if from <= a <= e && 0 < close.len() && e + close.len() <= s.len() {
                seq![s.subrange(a, e + close.len())] + fragments(s, open, close, e + close.len())
            } else {
                Seq::empty()
            },
            None => Seq::empty(),
        },
        None => Seq::empty(),
    }
}

/// The RSS `<item>` fragments of `xml`, then its Atom `<entry>` fragments.
pub open spec fn spec_xml_items(xml: Seq<char>) -> Seq<Seq<char>> {
    fragments(xml, "<item"@, "</item>"@, 0) + fragments(xml, "<entry"@, "</entry>"@, 0)
}

/// The text between the first `<tag>` of `fragment` and the next `</tag>`,
/// trimmed; empty when either is missing.
pub open spec fn xml_open_tag(tag: Seq<char>) -> Seq<char> {
    seq!['<'] + tag + seq!['>']
}

pub open spec fn xml_close_tag(tag: Seq<char>) -> Seq<char> {
    seq!['<', '/'] + tag + seq!['>']
}

pub open spec fn spec_xml_tag(fragment: Seq<char>, tag: Seq<char>) -> Seq<char> {
    let open = xml_open_tag(tag);
    let close = xml_close_tag(tag);
    match first_occurrence(fragment, open, 0) {
        Some(a) => match first_occurrence(fragment, close, a + open.len()) {
            Some(e) => trim(fragment.subrange(a + open.len(), e)),
            None => Seq::empty(),
        },
        None => Seq::empty(),
    }
}

proof fn lemma_fragments_step(s: Seq<char>, open: Seq<char>, close: Seq<char>, from: int, a: int, e: int)
    requires
        first_occurrence_ci(s, open, from) == Some(a),
        first_occurrence_ci(s, close, a) == Some(e),
        from <= a <= e,
        occurs_at_ci(s, close, e),
        0 < close.len(),
    ensures
        fragments(s, open, close, from) == seq![s.subrange(a, e + close.len())] + fragments(s, open, close, e + close.len()),
{
    reveal(fragments);
}

proof fn lemma_fragments_end(s: Seq<char>, open: Seq<char>, close: Seq<char>, from: int)
    requires
        first_occurrence_ci(s, open, from) is None || (first_occurrence_ci(s, open, from) matches Some(a)
            && first_occurrence_ci(s, close, a) is None),
    ensures
        fragments(s, open, close, from) == Seq::<Seq<char>>::empty(),
{
    reveal(fragments);
}

fn collect_fragments(v: &[char], open: &[char], close: &[char], out: &mut Vec<String>)
    requires
        close@.len() > 0,
    ensures
        views(final(out)@) == views(old(out)@) + fragments(v@, open@, close@, 0),
{
    let ghost init = views(out@);
    let vlen = v.len();
    let mut start: usize = 0;
    assert(init + fragments(v@, open@, close@, 0) == views(out@) + fragments(v@, open@, close@, 0));
    loop
        invariant
            start <= v@.len(),
            vlen == v@.len(),
            init == views(old(out)@),
            close@.len() > 0,
            views(out@) + fragments(v@, open@, close@, start as int) == init + fragments(v@, open@, close@, 0),
        decreases v@.len() - start,
    {
        let a = match find_from_ci(v, open, start) {
            Some(a) => a,
            None => {
                proof {
                    lemma_fragments_end(v@, open@, close@, start as int);
                    assert(views(out@) + Seq::<Seq<char>>::empty() == views(out@));
                }
                return;
            },
        };
        let e = match find_from_ci(v, close, a) {
            Some(e) => e,
            None => {
                proof {
                    lemma_fragments_end(v@, open@, close@, start as int);
                    assert(views(out@) + Seq::<Seq<char>>::empty() == views(out@));
                }
                return;
            },
        };
        let end = e + close.len();
        let piece = from_chars(&slice(v, a, end));
        let ghost before = views(out@);
        let ghost rest = fragments(v@, open@, close@, end as int);
        proof {
            lemma_fragments_step(v@, open@, close@, start as int, a as int, e as int);
        }
        out.push(piece);
        assert(views(out@) == before.push(piece@));
        assert(views(out@) + rest == before + (seq![piece@] + rest));
        start = end;
    }
}

impl IntelligenceService {
    /// The `<item>` fragments of an RSS document followed by the `<entry>`
    /// fragments of an Atom one, each from its opening tag through its
    /// closing tag. Tags are matched with ASCII case ignored.
    pub fn extract_xml_items(xml: &str) -> (r: Vec<String>)
        ensures
            views(r@) == spec_xml_items(xml@),
    {
        proof {
            reveal_strlit("</item>");
            reveal_strlit("</entry>");
        }
        let v = to_chars(xml);
        let item_open = to_chars("<item");
        let item_close = to_chars("</item>");
        let entry_open = to_chars("<entry");
        let entry_close = to_chars("</entry>");
        let mut items: Vec<String> = Vec::new();
        assert(views(items@) == Seq::<Seq<char>>::empty());
        collect_fragments(&v, &item_open, &item_close, &mut items);
        collect_fragments(&v, &entry_open, &entry_close, &mut items);
        assert(Seq::<Seq<char>>::empty() + fragments(xml@, "<item"@, "</item>"@, 0) == fragments(xml@, "<item"@, "</item>"@, 0));
        items
    }

    /// The trimmed text inside the first `<tag>...</tag>` of `fragment`, or
    /// an empty string.
    pub fn extract_xml_tag(fragment: &str, tag: &str) -> (r: String)
        ensures
            r@ == spec_xml_tag(fragment@, tag@),
    {
        let f = to_chars(fragment);
        let flen = f.len();
        let t = to_chars(tag);
        let mut open: Vec<char> = Vec::new();
        open.push('<');
        crate::text::push_all(&mut open, &t);
        open.push('>');
        let mut close: Vec<char> = Vec::new();
        close.push('<');
        close.push('/');
        crate::text::push_all(&mut close, &t);
        close.push('>');
        assert(open@ == xml_open_tag(tag@));
        assert(close@ == xml_close_tag(tag@));
        let found = find_from(&f, &open, 0);
        match found {
            Some(a) => {
                assert(occurs_at(f@, open@, a as int));
                let cs = a + open.len();
                match find_from(&f, &close, cs) {
                    Some(e) => {
                        let inner = slice(&f, cs, e);
                        from_chars(&trim_vec(&inner))
                    },
                    None => String::new(),
                }
            },
            None => String::new(),
        }
    }
}


/// How a feed source is read.
#[derive(Clone, Copy, PartialEq, Eq, Structural, Debug)]
pub enum SourceKind {
    /// An RSS or Atom document.
    Feed,
    /// A JSON array of items.
    Api,
    /// Nothing is fetched.
    Other,
}

pub open spec fn source_kind(source_type: Seq<char>) -> SourceKind {
    if source_type == "rss"@ || source_type == "atom"@ {
        SourceKind::Feed
    } else if source_type == "api"@ {
        SourceKind::Api
    } else {
        SourceKind::Other
    }
}

/// One item read from a source.
pub struct FeedEntry {
    pub title: String,
    pub link: String,
    pub content: String,
}

pub open spec fn entry_view(e: FeedEntry) -> (Seq<char>, Seq<char>, Seq<char>) {
    (e.title@, e.link@, e.content@)
}

pub open spec fn entry_views(v: Seq<FeedEntry>) -> Seq<(Seq<char>, Seq<char>, Seq<char>)> {
    v.map_values(|e: FeedEntry| entry_view(e))
}

/// The entries of RSS/Atom fragments: each one's title, link and
/// description; fragments without a title are left out.
pub open spec fn feed_entries(fragments: Seq<Seq<char>>) -> Seq<(Seq<char>, Seq<char>, Seq<char>)>
    decreases fragments.len(),
{
    if fragments.len() == 0 {
        Seq::empty()
    } else {
        let f = fragments[0];
        let e = (spec_xml_tag(f, "title"@), spec_xml_tag(f, "link"@), spec_xml_tag(f, "description"@));
        (if e.0.len() > 0 { seq![e] } else { Seq::empty() }) + feed_entries(fragments.drop_first())
    }
}

/// The member `a` of an item when it has one, else its member `b`.
pub open spec fn member_or(item: JsonValue, a: Seq<char>, b: Seq<char>) -> Option<JsonValue> {
    match field(item, a) {
        Some(v) => Some(v),
        None => field(item, b),
    }
}

/// The text of a string value; empty for anything else.
pub open spec fn text_or_empty(v: Option<JsonValue>) -> Seq<char> {
    match str_of(v) {
        Some(s) => s,
        None => Seq::empty(),
    }
}

/// The entry an API item gives: its `title`, its `url` (else `link`) and
/// its `content` (else `description`).
pub open spec fn api_entry(item: JsonValue) -> (Seq<char>, Seq<char>, Seq<char>) {
    (text_or_empty(field(item, "title"@)), text_or_empty(member_or(item, "url"@, "link"@)),
        text_or_empty(member_or(item, "content"@, "description"@)))
}

/// The entries of API items; items without a title are left out.
pub open spec fn api_entries(items: Seq<JsonValue>) -> Seq<(Seq<char>, Seq<char>, Seq<char>)>
    decreases items.len(),
{
    if items.len() == 0 {
        Seq::empty()
    } else {
        let e = api_entry(items[0]);
        (if e.0.len() > 0 { seq![e] } else { Seq::empty() }) + api_entries(items.drop_first())
    }
}

/// The entries of an API response: those of its items when it reads as a
/// JSON array, none otherwise.
pub open spec fn api_body_entries(body: Seq<char>) -> Seq<(Seq<char>, Seq<char>, Seq<char>)> {
    match parsed_json(body) {
        Some(JsonValue::Array(items)) => api_entries(items@),
        _ => Seq::empty(),
    }
}

fn text_of_member(item: &JsonValue, a: &str, b: Option<&str>) -> (r: String)
    ensures
        r@ == text_or_empty(match b {
            Some(k) => member_or(*item, a@, k@),
            None => field(*item, a@),
        }),
{
    let found = match item.get(a) {
        Some(v) => Some(v),
        None => match b {
            Some(k) => item.get(k),
            None => None,
        },
    };
    match found {
        Some(v) => match v.as_str() {
            Some(t) => t,
            None => String::new(),
        },
        None => String::new(),
    }
}

fn entries_from_items(items: &Vec<JsonValue>) -> (r: Vec<FeedEntry>)
    ensures
        entry_views(r@) == api_entries(items@),
{
    let mut r: Vec<FeedEntry> = Vec::new();
    let mut i: usize = 0;
    assert(items@.skip(0) == items@);
    while i < items.len()
        invariant
            i <= items@.len(),
            entry_views(r@) + api_entries(items@.skip(i as int)) == api_entries(items@),
        decreases items@.len() - i,
    {
        let item = &items[i];
        let title = text_of_member(item, "title", None);
        let link = text_of_member(item, "url", Some("link"));
        let content = text_of_member(item, "content", Some("description"));
        let ghost before = entry_views(r@);
        let ghost rest = items@.skip(i as int);
        assert(rest[0] == items@[i as int]);
        assert(rest.drop_first() == items@.skip(i + 1));
        if title.as_str().is_empty() {
            assert(before + api_entries(rest) == before + api_entries(rest.drop_first()));
        } else {
            let e = FeedEntry { title, link, content };
            r.push(e);
            assert(entry_views(r@) == before.push(entry_view(e)));
            assert(entry_views(r@) + api_entries(rest.drop_first()) == before + api_entries(rest));
        }
        i = i + 1;
    }
    assert(items@.skip(i as int) == Seq::<JsonValue>::empty());
    assert(entry_views(r@) + Seq::<(Seq<char>, Seq<char>, Seq<char>)>::empty() == entry_views(r@));
    r
}

impl IntelligenceService {
    /// How a source of `source_type` is read.
    pub fn source_kind(&self, source_type: &str) -> (k: SourceKind)
        ensures
            k == source_kind(source_type@),
    {
        if str_eq(source_type, "rss") || str_eq(source_type, "atom") {
            SourceKind::Feed
        } else if str_eq(source_type, "api") {
            SourceKind::Api
        } else {
            SourceKind::Other
        }
    }

    /// The entries of an RSS or Atom document.
    pub fn feed_entries(&self, xml: &str) -> (r: Vec<FeedEntry>)
        ensures
            entry_views(r@) == feed_entries(spec_xml_items(xml@)),
    {
        let frags = Self::extract_xml_items(xml);
        let ghost fv = views(frags@);
        let mut r: Vec<FeedEntry> = Vec::new();
        let mut i: usize = 0;
        assert(fv.skip(0) == fv);
        while i < frags.len()
            invariant
                i <= frags@.len(),
                fv == views(frags@),
                fv == spec_xml_items(xml@),
                entry_views(r@) + feed_entries(fv.skip(i as int)) == feed_entries(fv),
            decreases frags@.len() - i,
        {
            let f = frags[i].as_str();
            let title = Self::extract_xml_tag(f, "title");
            let link = Self::extract_xml_tag(f, "link");
            let content = Self::extract_xml_tag(f, "description");
            let ghost before = entry_views(r@);
            let ghost rest = fv.skip(i as int);
            assert(rest[0] == f@);
            assert(rest.drop_first() == fv.skip(i + 1));
            if title.as_str().is_empty() {
                assert(before + feed_entries(rest) == before + feed_entries(rest.drop_first()));
            } else {
                let e = FeedEntry { title, link, content };
                r.push(e);
                assert(entry_views(r@) == before.push(entry_view(e)));
                assert(entry_views(r@) + feed_entries(rest.drop_first()) == before + feed_entries(rest));
            }
            i = i + 1;
        }
        assert(fv.skip(i as int) == Seq::<Seq<char>>::empty());
        assert(entry_views(r@) + Seq::<(Seq<char>, Seq<char>, Seq<char>)>::empty() == entry_views(r@));
        r
    }

    /// The entries of an API response.
    pub fn api_entries(&self, body: &str) -> (r: Vec<FeedEntry>)
        ensures
            entry_views(r@) == api_body_entries(body@),
    {
        match parse_json(body) {
            Some(JsonValue::Array(items)) => entries_from_items(&items),
            _ => Vec::new(),
        }
    }

    /// A new source needs a name (`请提供名称`) and a type (`请提供类型`);
    /// its market is `cn` unless one is given.
    pub fn check_new_source(&self, name: &str, source_type: &str, market: &str) -> (r: Result<String, ServiceError>)
        ensures
            name@.len() == 0 ==> (r matches Err(ServiceError::Validation(m)) && m@ == "请提供名称"@),
            name@.len() != 0 && source_type@.len() == 0 ==> (r matches Err(ServiceError::Validation(m)) && m@ == "请提供类型"@),
            name@.len() != 0 && source_type@.len() != 0 ==> (r matches Ok(mk) && mk@ == (if market@.len() == 0 { "cn"@ } else { market@ })),
    {
        if name.is_empty() {
            return Err(ServiceError::Validation("请提供名称".to_owned()));
        }
        if source_type.is_empty() {
            return Err(ServiceError::Validation("请提供类型".to_owned()));
        }
        Ok(if market.is_empty() { "cn".to_owned() } else { market.to_owned() })
    }

    /// An address may be fetched only when it is given (`请提供URL`) and
    /// safe (`不安全的URL: 不允许访问内部地址`).
    pub fn check_fetch_url(&self, url: &str) -> (r: Result<(), ServiceError>)
        ensures
            url@.len() == 0 ==> (r matches Err(ServiceError::Validation(m)) && m@ == "请提供URL"@),
            url@.len() != 0 && !spec_safe_url(url@) ==> (r matches Err(ServiceError::Validation(m)) && m@ == "不安全的URL: 不允许访问内部地址"@),
            url@.len() != 0 && spec_safe_url(url@) ==> r is Ok,
    {
        if url.is_empty() {
            return Err(ServiceError::Validation("请提供URL".to_owned()));
        }
        if !is_safe_url(url) {
            return Err(ServiceError::Validation("不安全的URL: 不允许访问内部地址".to_owned()));
        }
        Ok(())
    }

    /// Changing or deleting a source needs its id (`请提供ID`).
    pub fn check_source_id(&self, id: i64) -> (r: Result<(), ServiceError>)
        ensures
            id == 0 ==> (r matches Err(ServiceError::Validation(m)) && m@ == "请提供ID"@),
            id != 0 ==> r is Ok,
    {
        if id == 0 {
            Err(ServiceError::Validation("请提供ID".to_owned()))
        } else {
            Ok(())
        }
    }

    /// The statement that writes a source's changed fields back: the name,
    /// the URL and the configuration where not empty, the enabled flag and
    /// the fetch interval where given, then the modification time. Nothing
    /// to change gives `None` (answered `无更新内容`).
    pub fn source_update_statement(
        &self,
        name: &str,
        url: &str,
        config: &str,
        enabled_given: bool,
        interval_given: bool,
    ) -> (r: Option<String>)
        ensures
            source_update_assignments(name@.len() != 0, url@.len() != 0, config@.len() != 0, enabled_given, interval_given).len() == 0
                ==> r is None,
            source_update_assignments(name@.len() != 0, url@.len() != 0, config@.len() != 0, enabled_given, interval_given).len() != 0
                ==> (r matches Some(s) && s@ == "UPDATE intelligence_sources SET "@ + join(
                    source_update_assignments(name@.len() != 0, url@.len() != 0, config@.len() != 0, enabled_given, interval_given)
                        .push("modify_time = NOW()"@),
                    ", "@,
                ) + " WHERE id = :id"@),
    {
        let mut parts: Vec<String> = Vec::new();
        if !name.is_empty() {
            parts.push("name = :name".to_owned());
        }
        if !url.is_empty() {
            parts.push("url_template = :url".to_owned());
        }
        if !config.is_empty() {
            parts.push("config_json = :config".to_owned());
        }
        if enabled_given {
            parts.push("enabled = :enabled".to_owned());
        }
        if interval_given {
            parts.push("fetch_interval = :fi".to_owned());
        }
        let ghost given = source_update_assignments(name@.len() != 0, url@.len() != 0, config@.len() != 0, enabled_given, interval_given);
        assert(views(parts@) =~= given);
        if parts.len() == 0 {
            return None;
        }
        parts.push("modify_time = NOW()".to_owned());
        assert(views(parts@) =~= given.push("modify_time = NOW()"@));
        let body = join_lines(&parts, ", ");
        let mut out: Vec<char> = Vec::new();
        push_str(&mut out, "UPDATE intelligence_sources SET ");
        push_str(&mut out, body.as_str());
        push_str(&mut out, " WHERE id = :id");
        Some(from_chars(&out))
    }

    /// Fetching a source needs its id (`请提供sourceId`).
    pub fn check_fetch_source(&self, source_id: i64) -> (r: Result<(), ServiceError>)
        ensures
            source_id == 0 ==> (r matches Err(ServiceError::Validation(m)) && m@ == "请提供sourceId"@),
            source_id != 0 ==> r is Ok,
    {
        if source_id == 0 {
            Err(ServiceError::Validation("请提供sourceId".to_owned()))
        } else {
            Ok(())
        }
    }
}

/// A stock code starts at `i`: six ASCII digits, the first of them 6, 0, 3,
/// 8 or 4.
pub open spec fn code_at(t: Seq<char>, i: int) -> bool {
    0 <= i && i + 6 <= t.len() && all_digits(t.subrange(i, i + 6))
        && (t[i] == '6' || t[i] == '0' || t[i] == '3' || t[i] == '8' || t[i] == '4')
}

/// The codes found from index `i` on, after `found`: each new one is added
/// once, in order of first appearance, until five are found.
pub open spec fn codes_from(t: Seq<char>, i: int, found: Seq<Seq<char>>) -> Seq<Seq<char>>
    decreases t.len() - i,
{
    if i < 0 || i + 6 > t.len() || found.len() >= 5 {
        found
    } else if code_at(t, i) {
        let c = t.subrange(i, i + 6);
        codes_from(t, i + 1, if found.contains(c) { found } else { found.push(c) })
    } else {
        codes_from(t, i + 1, found)
    }
}

/// The stock codes an item mentions (in its title, a space, then its
/// content), comma-separated.
pub open spec fn spec_stock_codes(title: Seq<char>, content: Seq<char>) -> Seq<char> {
    join(codes_from(title + " "@ + content, 0, Seq::empty()), ","@)
}

fn contains_code(found: &Vec<String>, c: &Vec<char>) -> (b: bool)
    ensures
        b == views(found@).contains(c@),
{
    let mut j: usize = 0;
    while j < found.len()
        invariant
            j <= found@.len(),
            forall|k: int| 0 <= k < j ==> views(found@)[k] != c@,
        decreases found@.len() - j,
    {
        if chars_eq(&to_chars(found[j].as_str()), c) {
            assert(views(found@)[j as int] == c@);
            return true;
        }
        j = j + 1;
    }
    false
}

impl IntelligenceService {
    /// The stock codes an item mentions: up to five distinct six-digit codes
    /// of the A-share boards, in order of appearance, comma-separated.
    pub fn extract_stock_codes(title: &str, content: &str) -> (r: String)
        ensures
            r@ == spec_stock_codes(title@, content@),
    {
        let mut tv = to_chars(title);
        crate::text::push_str(&mut tv, " ");
        crate::text::push_str(&mut tv, content);
        let ghost t = tv@;
        assert(t == title@ + " "@ + content@);
        let n = tv.len();
        let mut found: Vec<String> = Vec::new();
        assert(views(found@) =~= Seq::<Seq<char>>::empty());
        let mut i: usize = 0;
        while n - i >= 6 && found.len() < 5
            invariant
                tv@ == t,
                n == t.len(),
                i <= n,
                codes_from(t, 0, Seq::empty()) == codes_from(t, i as int, views(found@)),
            decreases n - i,
        {
            let w = slice(&tv, i, i + 6);
            let c0 = tv[i];
            let is_code = all_digits_vec(&w) && (c0 == '6' || c0 == '0' || c0 == '3' || c0 == '8' || c0 == '4');
            assert(is_code == code_at(t, i as int));
            if is_code {
                if !contains_code(&found, &w) {
                    let ghost before = views(found@);
                    found.push(from_chars(&w));
                    assert(views(found@) == before.push(w@));
                }
            }
            i = i + 1;
        }
        assert(views(found@).len() == found@.len());
        join_lines(&found, ",")
    }
}

/// Codes whose texts are six characters long, none twice, at most five.
pub open spec fn well_formed_codes(found: Seq<Seq<char>>) -> bool {
    &&& found.len() <= 5
    &&& found.no_duplicates()
    &&& forall|k: int| 0 <= k < found.len() ==> (#[trigger] found[k]).len() == 6
}

proof fn lemma_codes_from_bounded(t: Seq<char>, i: int, found: Seq<Seq<char>>)
    requires
        well_formed_codes(found),
    ensures
        well_formed_codes(codes_from(t, i, found)),
    decreases t.len() - i,
{
    if i < 0 || i + 6 > t.len() || found.len() >= 5 {
    } else if code_at(t, i) {
        let c = t.subrange(i, i + 6);
        if found.contains(c) {
            lemma_codes_from_bounded(t, i + 1, found);
        } else {
            let f2 = found.push(c);
            assert forall|x: int, y: int| 0 <= x < f2.len() && 0 <= y < f2.len() && x != y implies f2[x] != f2[y] by {
                if x < found.len() && y < found.len() {
                } else if x == found.len() {
                    assert(found[y] != c);
                } else {
                    assert(found[x] != c);
                }
            }
            lemma_codes_from_bounded(t, i + 1, f2);
        }
    } else {
        lemma_codes_from_bounded(t, i + 1, found);
    }
}

/// An item never yields more than five codes, never the same code twice,
/// and every code is six characters long.
pub proof fn lemma_stock_codes_bounded(title: Seq<char>, content: Seq<char>)
    ensures
        well_formed_codes(codes_from(title + " "@ + content, 0, Seq::empty())),
{
    lemma_codes_from_bounded(title + " "@ + content, 0, Seq::empty());
}

/// A built-in feed source.
pub struct SourceTemplate {
    pub name: &'static str,
    pub source_type: &'static str,
    pub url: &'static str,
    pub market: &'static str,
    pub description: &'static str,
}

pub open spec fn template_view(t: SourceTemplate) -> (Seq<char>, Seq<char>, Seq<char>, Seq<char>, Seq<char>) {
    (t.name@, t.source_type@, t.url@, t.market@, t.description@)
}

/// The built-in sources: the East Money news feed, Sina Finance and the
/// CLS telegraph.
pub open spec fn spec_templates() -> Seq<(Seq<char>, Seq<char>, Seq<char>, Seq<char>, Seq<char>)> {
    seq![
        ("eastmoney_news"@, "rss"@, "http://feed.eastmoney.com/news.xml"@, "cn"@, "东方财富新闻"@),
        ("sina_finance"@, "rss"@, "https://finance.sina.com.cn/7x24/"@, "cn"@, "新浪财经"@),
        ("cls_telegraph"@, "api"@, "https://www.cls.cn/api/telegraph"@, "cn"@, "财联社电报"@),
    ]
}

impl IntelligenceService {
    /// The built-in sources.
    pub fn templates(&self) -> (r: Vec<SourceTemplate>)
        ensures
            r@.map_values(|t: SourceTemplate| template_view(t)) == spec_templates(),
    {
        let mut r: Vec<SourceTemplate> = Vec::new();
        r.push(SourceTemplate {
            name: "eastmoney_news",
            source_type: "rss",
            url: "http://feed.eastmoney.com/news.xml",
            market: "cn",
            description: "东方财富新闻",
        });
        r.push(SourceTemplate {
            name: "sina_finance",
            source_type: "rss",
            url: "https://finance.sina.com.cn/7x24/",
            market: "cn",
            description: "新浪财经",
        });
        r.push(SourceTemplate {
            name: "cls_telegraph",
            source_type: "api",
            url: "https://www.cls.cn/api/telegraph",
            market: "cn",
            description: "财联社电报",
        });
        assert(r@.map_values(|t: SourceTemplate| template_view(t)) =~= spec_templates());
        r
    }
}

} // verus!
