//! Platform adapters: request checks, message parsing and reply formatting
//! for DingTalk, Feishu and Discord.
use vstd::prelude::*;
use vstd::utf8::encode_utf8;
use crate::json::{
    bool_of, field, lemma_lookup_one, lemma_lookup_two, parse_json, parsed_json, str_eq, str_of,
    JsonValue,
};
use crate::text::{from_chars, push_str, to_chars};
use crate::bot::dispatcher::BotContext;

verus! {

/// A message in the form every platform is read into.
pub struct BotMessage {
    pub text: String,
    pub user_id: String,
    pub chat_id: String,
    pub platform: String,
    pub is_admin: bool,
}

pub const FNV_OFFSET_BASIS: u64 = 0xcbf29ce484222325;

pub const FNV_PRIME: u64 = 0x100000001b3;

/// FNV-1a over `bytes`, starting from `h`.
pub open spec fn fnv1a_from(h: u64, bytes: Seq<u8>) -> u64
    decreases bytes.len(),
{
    if bytes.len() == 0 {
        h
    } else {
        fnv1a_from(
            vstd::wrapping::u64_specs::wrapping_mul(h ^ (bytes[0] as u64), FNV_PRIME),
            bytes.drop_first(),
        )
    }
}

/// The 64-bit FNV-1a hash of `bytes`.
pub open spec fn fnv1a(bytes: Seq<u8>) -> u64 {
    fnv1a_from(FNV_OFFSET_BASIS, bytes)
}

pub open spec fn hex_digit(d: nat) -> char {
    if d < 10 {
        (('0' as u32) + d) as char
    } else {
        (('a' as u32) + d - 10) as char
    }
}

/// The lower-case hexadecimal text of `n`, without leading zeros.
pub open spec fn hex_text(n: nat) -> Seq<char>
    decreases n,
{
    if n < 16 {
        seq![hex_digit(n)]
    } else {
        hex_text(n / 16).push(hex_digit(n % 16))
    }
}

/// The DingTalk signature of `timestamp` under `secret`: the hexadecimal
/// FNV-1a hash of the UTF-8 bytes of `timestamp`, a newline and `secret`.
pub open spec fn spec_dingtalk_sign(timestamp: Seq<char>, secret: Seq<char>) -> Seq<char> {
    hex_text(fnv1a(encode_utf8(timestamp + "\n"@ + secret)) as nat)
}

/// The string at `key` of `v`, or the empty string.
pub open spec fn str_or_empty(v: Option<JsonValue>) -> Seq<char> {
    match str_of(v) {
        Some(s) => s,
        None => Seq::empty(),
    }
}

/// The string at `v`, or `"unknown"`.
pub open spec fn str_or_unknown(v: Option<JsonValue>) -> Seq<char> {
    match str_of(v) {
        Some(s) => s,
        None => "unknown"@,
    }
}

pub open spec fn deref_opt(v: Option<&JsonValue>) -> Option<JsonValue> {
    match v {
        Some(x) => Some(*x),
        None => None,
    }
}

/// `v[key]` when `v` is present.
pub open spec fn get_opt(v: Option<JsonValue>, key: Seq<char>) -> Option<JsonValue> {
    match v {
        Some(x) => field(x, key),
        None => None,
    }
}

/// `v[key]` as text, when present.
fn get_str(v: Option<&JsonValue>, key: &str) -> (r: Option<String>)
    ensures
        match r {
            Some(s) => str_of(get_opt(deref_opt(v), key@)) == Some(s@),
            None => str_of(get_opt(deref_opt(v), key@)) is None,
        },
{
    match v {
        Some(x) => match x.get(key) {
            Some(y) => y.as_str(),
            None => None,
        },
        None => None,
    }
}

/// `v[key]`, when `v` is present.
fn get_in<'a>(v: Option<&'a JsonValue>, key: &str) -> (r: Option<&'a JsonValue>)
    ensures
        deref_opt(r) == get_opt(deref_opt(v), key@),
{
    match v {
        Some(x) => x.get(key),
        None => None,
    }
}

fn text_or_empty(r: Option<String>) -> (s: String)
    ensures
        s@ == match r {
            Some(t) => t@,
            None => Seq::<char>::empty(),
        },
{
    match r {
        Some(t) => t,
        None => String::new(),
    }
}

fn text_or(r: Option<String>, default: &str) -> (s: String)
    ensures
        s@ == match r {
            Some(t) => t@,
            None => default@,
        },
{
    match r {
        Some(t) => t,
        None => default.to_owned(),
    }
}

/// The lower-case hexadecimal text of `n`.
pub fn hex_string(n: u64) -> (r: String)
    ensures
        r@ == hex_text(n as nat),
{
    let mut digits: Vec<char> = Vec::new();
    let mut m = n;
    while m >= 16
        invariant
            hex_text(n as nat) == hex_text(m as nat) + digits@.reverse(),
        decreases m,
    {
        let d = m % 16;
        let c = if d < 10 {
            (('0' as u32) + (d as u32)) as u8 as char
        } else {
            (('a' as u32) + (d as u32) - 10) as u8 as char
        };
        proof {
            assert(c == hex_digit(d as nat));
            assert(hex_text(m as nat) == hex_text((m / 16) as nat).push(c));
            assert(digits@.push(c).reverse() == seq![c] + digits@.reverse());
        }
        digits.push(c);
        m = m / 16;
    }
    let c = if m < 10 {
        (('0' as u32) + (m as u32)) as u8 as char
    } else {
        (('a' as u32) + (m as u32) - 10) as u8 as char
    };
    assert(c == hex_digit(m as nat));
    let mut out: Vec<char> = Vec::new();
    out.push(c);
    let mut i = digits.len();
    while i > 0
        invariant
            i <= digits@.len(),
            out@ == seq![c] + digits@.subrange(i as int, digits@.len() as int).reverse(),
        decreases i,
    {
        i = i - 1;
        out.push(digits[i]);
        assert(digits@.subrange(i as int, digits@.len() as int).reverse() == digits@.subrange(
            i + 1,
            digits@.len() as int,
        ).reverse().push(digits@[i as int]));
    }
    assert(digits@.subrange(0, digits@.len() as int) == digits@);
    from_chars(&out)
}

/// FNV-1a over `bytes`.
pub fn fnv1a_exec(bytes: &[u8]) -> (h: u64)
    ensures
        h == fnv1a(bytes@),
{
    let mut h: u64 = FNV_OFFSET_BASIS;
    let mut i: usize = 0;
    assert(bytes@.skip(0) == bytes@);
    while i < bytes.len()
        invariant
            i <= bytes@.len(),
            fnv1a(bytes@) == fnv1a_from(h, bytes@.skip(i as int)),
        decreases bytes@.len() - i,
    {
        assert(bytes@.skip(i as int).drop_first() == bytes@.skip(i + 1));
        h = (h ^ (bytes[i] as u64)).wrapping_mul(FNV_PRIME);
        i = i + 1;
    }
    h
}

// ------------------------------------------------------------------
// DingTalk
// ------------------------------------------------------------------
/// DingTalk: replies go to a webhook as markdown; callbacks carry a
/// timestamp and a signature.
pub struct DingTalkAdapter {
    pub webhook_url: String,
    pub app_secret: String,
}

pub open spec fn spec_dingtalk_verify(secret: Seq<char>, headers: JsonValue) -> bool {
    let ts = str_or_empty(field(headers, "timestamp"@));
    let sign = str_or_empty(field(headers, "sign"@));
    ts.len() != 0 && sign.len() != 0 && spec_dingtalk_sign(ts, secret) == sign
}

impl DingTalkAdapter {
    pub fn new(webhook_url: &str, app_secret: &str) -> (a: Self)
        ensures
            a.webhook_url@ == webhook_url@,
            a.app_secret@ == app_secret@,
    {
        DingTalkAdapter { webhook_url: webhook_url.to_owned(), app_secret: app_secret.to_owned() }
    }

    pub fn name(&self) -> (s: &'static str)
        ensures
            s@ == "dingtalk"@,
    {
        "dingtalk"
    }

    /// The signature of `timestamp` under this adapter's secret.
    pub fn compute_sign(&self, timestamp: &str) -> (r: String)
        ensures
            r@ == spec_dingtalk_sign(timestamp@, self.app_secret@),
    {
        let mut m: Vec<char> = Vec::new();
        push_str(&mut m, timestamp);
        push_str(&mut m, "\n");
        push_str(&mut m, self.app_secret.as_str());
        let message = from_chars(&m);
        let bytes = message.as_str().as_bytes();
        let h = fnv1a_exec(bytes);
        hex_string(h)
    }

    /// A callback is genuine when it carries a timestamp and a signature and
    /// the signature is that of the timestamp.
    pub fn verify_request(&self, headers: &JsonValue, _body: &JsonValue) -> (ok: bool)
        ensures
            ok == spec_dingtalk_verify(self.app_secret@, *headers),
    {
        let ts = text_or_empty(get_str(Some(headers), "timestamp"));
        let sign = text_or_empty(get_str(Some(headers), "sign"));
        if ts.as_str().is_empty() || sign.as_str().is_empty() {
            return false;
        }
        let expected = self.compute_sign(ts.as_str());
        str_eq(expected.as_str(), sign.as_str())
    }

    /// Reads `{"text": {"content": ..}, "senderStaffId": .., "conversationId": .., "isAdmin": ..}`.
    pub fn parse_message(&self, body: &JsonValue) -> (m: BotMessage)
        ensures
            m.text@ == str_or_empty(get_opt(get_opt(Some(*body), "text"@), "content"@)),
            m.user_id@ == str_or_unknown(field(*body, "senderStaffId"@)),
            m.chat_id@ == str_or_unknown(field(*body, "conversationId"@)),
            m.platform@ == "dingtalk"@,
            m.is_admin == (bool_of(field(*body, "isAdmin"@)) == Some(true)),
    {
        let t = get_in(Some(body), "text");
        let text = text_or_empty(get_str(t, "content"));
        let user_id = text_or(get_str(Some(body), "senderStaffId"), "unknown");
        let chat_id = text_or(get_str(Some(body), "conversationId"), "unknown");
        let is_admin = match body.get("isAdmin") {
            Some(v) => match v.as_bool() {
                Some(b) => b,
                None => false,
            },
            None => false,
        };
        proof {
        }
        BotMessage { text, user_id, chat_id, platform: "dingtalk".to_owned(), is_admin }
    }

    /// `{"msgtype": "markdown", "markdown": {"title": "DSA Bot", "text": text}}`.
    pub fn format_response(&self, text: &str, _context: &BotContext) -> (v: JsonValue)
        ensures
            str_of(field(v, "msgtype"@)) == Some("markdown"@),
            str_of(get_opt(get_opt(Some(v), "markdown"@), "title"@)) == Some("DSA Bot"@),
            str_of(get_opt(get_opt(Some(v), "markdown"@), "text"@)) == Some(text@),
    {
        let mut md: Vec<(String, JsonValue)> = Vec::new();
        md.push(("title".to_owned(), JsonValue::string("DSA Bot")));
        md.push(("text".to_owned(), JsonValue::string(text)));
        let mut top: Vec<(String, JsonValue)> = Vec::new();
        top.push(("msgtype".to_owned(), JsonValue::string("markdown")));
        top.push(("markdown".to_owned(), JsonValue::Object(md)));
        let v = JsonValue::Object(top);
        proof {
            lemma_distinct_keys();
            lemma_lookup_two(top@);
            lemma_lookup_two(md@);
        }
        v
    }
}

proof fn lemma_distinct_keys()
    ensures
        "msgtype"@ != "markdown"@,
        "title"@ != "text"@,
        "msg_type"@ != "card"@,
        "type"@ != "data"@,
        "elements"@ != "header"@,
        "tag"@ != "content"@,
{
    reveal_strlit("msgtype");
    reveal_strlit("markdown");
    reveal_strlit("title");
    reveal_strlit("text");
    reveal_strlit("msg_type");
    reveal_strlit("card");
    reveal_strlit("type");
    reveal_strlit("data");
    reveal_strlit("elements");
    reveal_strlit("header");
    reveal_strlit("tag");
    reveal_strlit("content");
    assert("msgtype"@.len() != "markdown"@.len());
    assert("title"@.len() != "text"@.len());
    assert("msg_type"@.len() != "card"@.len());
    assert("type"@[0] != "data"@[0]);
    assert("elements"@.len() != "header"@.len());
    assert("tag"@.len() != "content"@.len());
}

// ------------------------------------------------------------------
// Feishu
// ------------------------------------------------------------------
/// Feishu: replies go to a webhook as an interactive card; callbacks carry a
/// verification token.
pub struct FeishuAdapter {
    pub webhook_url: String,
    pub app_id: String,
    pub app_secret: String,
    pub verification_token: String,
}

/// The token a Feishu callback carries: the `X-Lark-Signature` header when
/// present, the `verification_token` header otherwise; empty when that is not text.
pub open spec fn feishu_token(headers: JsonValue) -> Seq<char> {
    match field(headers, "X-Lark-Signature"@) {
        Some(v) => str_or_empty(Some(v)),
        None => str_or_empty(field(headers, "verification_token"@)),
    }
}

pub open spec fn spec_feishu_verify(configured: Seq<char>, headers: JsonValue) -> bool {
    configured.len() == 0 || feishu_token(headers) == configured
}

/// The text of a Feishu message whose `content` JSON text parsed to `content`.
pub open spec fn feishu_text(content: Option<JsonValue>) -> Seq<char> {
    match content {
        Some(c) => str_or_empty(field(c, "text"@)),
        None => Seq::empty(),
    }
}

impl FeishuAdapter {
    pub fn new(webhook_url: &str, app_id: &str, app_secret: &str, verification_token: &str) -> (a: Self)
        ensures
            a.webhook_url@ == webhook_url@,
            a.app_id@ == app_id@,
            a.app_secret@ == app_secret@,
            a.verification_token@ == verification_token@,
    {
        FeishuAdapter {
            webhook_url: webhook_url.to_owned(),
            app_id: app_id.to_owned(),
            app_secret: app_secret.to_owned(),
            verification_token: verification_token.to_owned(),
        }
    }

    pub fn name(&self) -> (s: &'static str)
        ensures
            s@ == "feishu"@,
    {
        "feishu"
    }

    /// Without a configured token every callback passes; otherwise the
    /// callback's token must equal it.
    pub fn verify_request(&self, headers: &JsonValue, _body: &JsonValue) -> (ok: bool)
        ensures
            ok == spec_feishu_verify(self.verification_token@, *headers),
    {
        let token = match headers.get("X-Lark-Signature") {
            Some(v) => text_or_empty(v.as_str()),
            None => text_or_empty(get_str(Some(headers), "verification_token")),
        };
        if self.verification_token.as_str().is_empty() {
            return true;
        }
        str_eq(token.as_str(), self.verification_token.as_str())
    }

    /// The message content as JSON text: `event.message.content`.
    pub fn content_text(body: &JsonValue) -> (r: String)
        ensures
            r@ == str_or_empty(get_opt(get_opt(get_opt(Some(*body), "event"@), "message"@), "content"@)),
    {
        let e = get_in(Some(body), "event");
        let m = get_in(e, "message");
        proof {
        }
        text_or_empty(get_str(m, "content"))
    }

    /// The message, given what the content text parsed to.
    pub fn parse_message_with_content(&self, body: &JsonValue, content: &Option<JsonValue>) -> (m: BotMessage)
        ensures
            m.text@ == feishu_text(*content),
            m.user_id@ == str_or_unknown(
                get_opt(get_opt(get_opt(get_opt(Some(*body), "event"@), "sender"@), "sender_id"@), "user_id"@),
            ),
            m.chat_id@ == str_or_unknown(get_opt(get_opt(get_opt(Some(*body), "event"@), "message"@), "chat_id"@)),
            m.platform@ == "feishu"@,
            !m.is_admin,
    {
        let text = match content {
            Some(c) => text_or_empty(get_str(Some(c), "text")),
            None => String::new(),
        };
        let e = get_in(Some(body), "event");
        let s = get_in(e, "sender");
        let sid = get_in(s, "sender_id");
        let user_id = text_or(get_str(sid, "user_id"), "unknown");
        let m = get_in(e, "message");
        let chat_id = text_or(get_str(m, "chat_id"), "unknown");
        proof {
        }
        BotMessage { text, user_id, chat_id, platform: "feishu".to_owned(), is_admin: false }
    }

    /// Reads `{"event": {"message": {"content": "<JSON text>", "chat_id": ..},
    /// "sender": {"sender_id": {"user_id": ..}}}}`; the text is the `text`
    /// member of the content once parsed.
    pub fn parse_message(&self, body: &JsonValue) -> (m: BotMessage)
        ensures
            m.text@ == feishu_text(parsed_json(
                str_or_empty(get_opt(get_opt(get_opt(Some(*body), "event"@), "message"@), "content"@)),
            )),
            m.user_id@ == str_or_unknown(
                get_opt(get_opt(get_opt(get_opt(Some(*body), "event"@), "sender"@), "sender_id"@), "user_id"@),
            ),
            m.chat_id@ == str_or_unknown(get_opt(get_opt(get_opt(Some(*body), "event"@), "message"@), "chat_id"@)),
            m.platform@ == "feishu"@,
            !m.is_admin,
    {
        let content_str = Self::content_text(body);
        let content = parse_json(content_str.as_str());
        self.parse_message_with_content(body, &content)
    }

    /// An interactive card with the text as markdown and the title "DSA Bot".
    pub fn format_response(&self, text: &str, _context: &BotContext) -> (v: JsonValue)
        ensures
            str_of(field(v, "msg_type"@)) == Some("interactive"@),
            match get_opt(get_opt(Some(v), "card"@), "elements"@) {
                Some(JsonValue::Array(items)) => items@.len() == 1
                    && str_of(field(items@[0], "tag"@)) == Some("markdown"@)
                    && str_of(field(items@[0], "content"@)) == Some(text@),
                _ => false,
            },
            str_of(get_opt(get_opt(get_opt(get_opt(Some(v), "card"@), "header"@), "title"@), "tag"@)) == Some("plain_text"@),
            str_of(get_opt(get_opt(get_opt(get_opt(Some(v), "card"@), "header"@), "title"@), "content"@)) == Some("DSA Bot"@),
    {
        let mut el: Vec<(String, JsonValue)> = Vec::new();
        el.push(("tag".to_owned(), JsonValue::string("markdown")));
        el.push(("content".to_owned(), JsonValue::string(text)));
        let mut elements: Vec<JsonValue> = Vec::new();
        elements.push(JsonValue::Object(el));
        let mut title: Vec<(String, JsonValue)> = Vec::new();
        title.push(("tag".to_owned(), JsonValue::string("plain_text")));
        title.push(("content".to_owned(), JsonValue::string("DSA Bot")));
        let mut header: Vec<(String, JsonValue)> = Vec::new();
        header.push(("title".to_owned(), JsonValue::Object(title)));
        let mut card: Vec<(String, JsonValue)> = Vec::new();
        card.push(("elements".to_owned(), JsonValue::Array(elements)));
        card.push(("header".to_owned(), JsonValue::Object(header)));
        let mut top: Vec<(String, JsonValue)> = Vec::new();
        top.push(("msg_type".to_owned(), JsonValue::string("interactive")));
        top.push(("card".to_owned(), JsonValue::Object(card)));
        let v = JsonValue::Object(top);
        proof {
            lemma_distinct_keys();
            lemma_lookup_two(top@);
            lemma_lookup_two(card@);
            lemma_lookup_one(header@);
            lemma_lookup_two(title@);
            lemma_lookup_two(el@);
        }
        v
    }
}

// ------------------------------------------------------------------
// Discord
// ------------------------------------------------------------------
/// Discord: replies go to a webhook; callbacks carry an Ed25519 signature
/// and a timestamp, of which only the presence is checked.
pub struct DiscordAdapter {
    pub webhook_url: String,
    pub bot_token: String,
    pub public_key: String,
}

/// The header `key` is present, is text, and is not empty.
pub open spec fn has_text_header(headers: JsonValue, key: Seq<char>) -> bool {
    match str_of(field(headers, key)) {
        Some(s) => s.len() != 0,
        None => false,
    }
}

pub open spec fn hex_value(c: char) -> Option<nat> {
    if '0' <= c <= '9' {
        Some((c as nat - '0' as nat) as nat)
    } else if 'a' <= c <= 'f' {
        Some((c as nat - 'a' as nat + 10) as nat)
    } else if 'A' <= c <= 'F' {
        Some((c as nat - 'A' as nat + 10) as nat)
    } else {
        None
    }
}

pub open spec fn all_hex(s: Seq<char>) -> bool {
    forall|i: int| 0 <= i < s.len() ==> #[trigger] hex_value(s[i]) is Some
}

/// The value of the hexadecimal digits `s`.
pub open spec fn hex_number(s: Seq<char>) -> nat
    decreases s.len(),
{
    if s.len() == 0 {
        0
    } else {
        hex_number(s.drop_last()) * 16 + hex_value(s.last()).unwrap_or(0)
    }
}

/// What `u64::from_str_radix(s, 16)` gives: an optional `+`, then at least
/// one hexadecimal digit, with a value that fits in 64 bits.
pub open spec fn parse_hex_u64(s: Seq<char>) -> Option<u64> {
    let d = if s.len() > 0 && s[0] == '+' { s.drop_first() } else { s };
    if d.len() > 0 && all_hex(d) && hex_number(d) <= u64::MAX {
        Some(hex_number(d) as u64)
    } else {
        None
    }
}

/// The administrator bit (0x8) of a permission value written in hexadecimal.
pub open spec fn admin_bit(perms: Option<Seq<char>>) -> bool {
    match perms {
        Some(p) => match parse_hex_u64(p) {
            Some(bits) => bits & 8 != 0,
            None => false,
        },
        None => false,
    }
}

fn hex_value_exec(c: char) -> (r: Option<u64>)
    ensures
        match hex_value(c) {
            Some(v) => r == Some(v as u64),
            None => r is None,
        },
{
    if '0' <= c && c <= '9' {
        Some((c as u32 - '0' as u32) as u64)
    } else if 'a' <= c && c <= 'f' {
        Some((c as u32 - 'a' as u32 + 10) as u64)
    } else if 'A' <= c && c <= 'F' {
        Some((c as u32 - 'A' as u32 + 10) as u64)
    } else {
        None
    }
}

proof fn lemma_hex_push(s: Seq<char>, c: char)
    ensures
        hex_number(s.push(c)) == hex_number(s) * 16 + hex_value(c).unwrap_or(0),
{
    assert(s.push(c).drop_last() == s);
}

proof fn lemma_hex_monotone(s: Seq<char>, i: int)
    requires
        0 <= i <= s.len(),
    ensures
        hex_number(s.subrange(0, i)) <= hex_number(s),
    decreases s.len() - i,
{
    if i < s.len() {
        lemma_hex_monotone(s, i + 1);
        assert(s.subrange(0, i + 1) == s.subrange(0, i).push(s[i]));
        lemma_hex_push(s.subrange(0, i), s[i]);
    } else {
        assert(s.subrange(0, i) == s);
    }
}

/// `u64::from_str_radix(p, 16)`.
pub fn parse_hex(p: &str) -> (r: Option<u64>)
    ensures
        r == parse_hex_u64(p@),
{
    let v = to_chars(p);
    let start: usize = if v.len() > 0 && v[0] == '+' { 1 } else { 0 };
    let d = crate::text::slice(&v, start, v.len());
    assert(d@ == (if p@.len() > 0 && p@[0] == '+' { p@.drop_first() } else { p@ }));
    if d.len() == 0 {
        return None;
    }
    let mut acc: u64 = 0;
    let mut i: usize = 0;
    while i < d.len()
        invariant
            i <= d@.len(),
            d@ == (if p@.len() > 0 && p@[0] == '+' { p@.drop_first() } else { p@ }),
            all_hex(d@.subrange(0, i as int)),
            acc == hex_number(d@.subrange(0, i as int)),
        decreases d@.len() - i,
    {
        let c = d[i];
        proof {
            assert(d@.subrange(0, i + 1) == d@.subrange(0, i as int).push(c));
            lemma_hex_push(d@.subrange(0, i as int), c);
        }
        match hex_value_exec(c) {
            None => {
                assert(hex_value(d@[i as int]) is None);
                return None;
            },
            Some(x) => {
                if acc > (u64::MAX - x) / 16 {
                    proof {
                        let m = u64::MAX as int;
                        assert(acc * 16 + x > m) by (nonlinear_arith)
                            requires
                                acc > (m - x) / 16,
                                0 <= x <= 15,
                        ;
                        lemma_hex_monotone(d@, (i + 1) as int);
                    }
                    return None;
                }
                acc = acc * 16 + x;
            },
        }
        i = i + 1;
    }
    assert(d@.subrange(0, d@.len() as int) == d@);
    Some(acc)
}

impl DiscordAdapter {
    pub fn new(webhook_url: &str, bot_token: &str, public_key: &str) -> (a: Self)
        ensures
            a.webhook_url@ == webhook_url@,
            a.bot_token@ == bot_token@,
            a.public_key@ == public_key@,
    {
        DiscordAdapter {
            webhook_url: webhook_url.to_owned(),
            bot_token: bot_token.to_owned(),
            public_key: public_key.to_owned(),
        }
    }

    pub fn name(&self) -> (s: &'static str)
        ensures
            s@ == "discord"@,
    {
        "discord"
    }

    /// A callback passes when both signature headers are present and not empty.
    pub fn verify_request(&self, headers: &JsonValue, _body: &JsonValue) -> (ok: bool)
        ensures
            ok == (has_text_header(*headers, "X-Signature-Ed25519"@) && has_text_header(
                *headers,
                "X-Signature-Timestamp"@,
            )),
    {
        let has_sig = match get_str(Some(headers), "X-Signature-Ed25519") {
            Some(s) => !s.as_str().is_empty(),
            None => false,
        };
        let has_ts = match get_str(Some(headers), "X-Signature-Timestamp") {
            Some(s) => !s.as_str().is_empty(),
            None => false,
        };
        has_sig && has_ts
    }

    /// Reads `{"data": {"content": ..}, "member": {"user": {"id": ..},
    /// "permissions": "<hex>"}, "channel_id": ..}`; the sender is an
    /// administrator when the permission bits hold 0x8.
    pub fn parse_message(&self, body: &JsonValue) -> (m: BotMessage)
        ensures
            m.text@ == str_or_empty(get_opt(get_opt(Some(*body), "data"@), "content"@)),
            m.user_id@ == str_or_unknown(get_opt(get_opt(get_opt(Some(*body), "member"@), "user"@), "id"@)),
            m.chat_id@ == str_or_unknown(field(*body, "channel_id"@)),
            m.platform@ == "discord"@,
            m.is_admin == admin_bit(str_of(get_opt(get_opt(Some(*body), "member"@), "permissions"@))),
    {
        let d = get_in(Some(body), "data");
        let text = text_or_empty(get_str(d, "content"));
        let mem = get_in(Some(body), "member");
        let u = get_in(mem, "user");
        let user_id = text_or(get_str(u, "id"), "unknown");
        let chat_id = text_or(get_str(Some(body), "channel_id"), "unknown");
        let is_admin = match get_str(mem, "permissions") {
            Some(p) => match parse_hex(p.as_str()) {
                Some(bits) => (bits / 8) % 2 == 1,
                None => false,
            },
            None => false,
        };
        proof {
            assert(forall|b: u64| ((b / 8) % 2 == 1) == (b & 8 != 0)) by {
                assert forall|b: u64| ((b / 8) % 2 == 1) == (b & 8 != 0) by {
                    assert(((b / 8) % 2 == 1) == (b & 8 != 0)) by (bit_vector);
                }
            }
        }
        BotMessage { text, user_id, chat_id, platform: "discord".to_owned(), is_admin }
    }

    /// `{"type": 4, "data": {"content": text}}`.
    pub fn format_response(&self, text: &str, _context: &BotContext) -> (v: JsonValue)
        ensures
            match field(v, "type"@) {
                Some(JsonValue::Number(n)) => n@ == "4"@,
                _ => false,
            },
            str_of(get_opt(get_opt(Some(v), "data"@), "content"@)) == Some(text@),
    {
        let mut data: Vec<(String, JsonValue)> = Vec::new();
        data.push(("content".to_owned(), JsonValue::string(text)));
        let mut top: Vec<(String, JsonValue)> = Vec::new();
        top.push(("type".to_owned(), JsonValue::Number("4".to_owned())));
        top.push(("data".to_owned(), JsonValue::Object(data)));
        let v = JsonValue::Object(top);
        proof {
            lemma_distinct_keys();
            lemma_lookup_two(top@);
            lemma_lookup_one(data@);
        }
        v
    }
}

} // verus!
