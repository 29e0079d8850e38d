//! What each notification channel is sent: the address, the body and how
//! it is posted. The sending itself is left to the caller.
use vstd::prelude::*;
use vstd::utf8::encode_utf8;
use crate::bot::platforms::get_opt;
use crate::json::{field, lemma_lookup_at, str_of, JsonValue};
use crate::services::notification::{spec_skip_reason, Channel, NotificationConfig};
use crate::strings::remove_all;
use crate::text::{contains_seq, from_chars, lowercased, push_str, slice, to_chars, to_lowercase};

verus! {

/// A byte that URL encoding keeps as it is: an ASCII letter or digit, or
/// one of `-`, `.`, `_`, `~`.
pub open spec fn url_safe_byte(b: u8) -> bool {
    (48 <= b <= 57) || (65 <= b <= 90) || (97 <= b <= 122) || b == 45 || b == 46 || b == 95 || b == 126
}

/// The upper-case hexadecimal digit of `d` (below 16).
pub open spec fn hex_upper(d: int) -> char {
    if d < 10 {
        (48 + d) as char
    } else {
        (55 + d) as char
    }
}

/// Percent-encoding of the bytes `bs`: safe bytes as they are, every other
/// byte as `%` and two upper-case hex digits.
pub open spec fn percent_encode(bs: Seq<u8>) -> Seq<char>
    decreases bs.len(),
{
    if bs.len() == 0 {
        Seq::empty()
    } else {
        let b = bs.last();
        percent_encode(bs.drop_last()) + if url_safe_byte(b) {
            seq![b as char]
        } else {
            seq!['%', hex_upper(b as int / 16), hex_upper(b as int % 16)]
        }
    }
}

/// The URL encoding of the UTF-8 bytes of `s`.
pub open spec fn url_encoded(s: Seq<char>) -> Seq<char> {
    percent_encode(encode_utf8(s))
}

/// `urlencoding::encode`: percent-encodes every UTF-8 byte of `s` but ASCII
/// letters, digits and `-`, `.`, `_`, `~`, with upper-case hex digits.
#[verifier::external_body]
fn url_encode(s: &str) -> (r: String)
    ensures
        r@ == url_encoded(s@),
{
    urlencoding::encode(s).into_owned()
}

/// `s` without its trailing copies of `c` (`str::trim_end_matches(c)`).
pub open spec fn trim_end_char(s: Seq<char>, c: char) -> Seq<char>
    decreases s.len(),
{
    if s.len() > 0 && s.last() == c {
        trim_end_char(s.drop_last(), c)
    } else {
        s
    }
}

fn trim_end_slashes(s: &str) -> (r: Vec<char>)
    ensures
        r@ == trim_end_char(s@, '/'),
{
    let v = to_chars(s);
    let mut j = v.len();
    assert(v@.subrange(0, j as int) == v@);
    while j > 0 && v[j - 1] == '/'
        invariant
            j <= v@.len(),
            trim_end_char(v@, '/') == trim_end_char(v@.subrange(0, j as int), '/'),
        decreases j,
    {
        assert(v@.subrange(0, j as int).drop_last() == v@.subrange(0, j - 1));
        j = j - 1;
    }
    slice(&v, 0, j)
}

/// How a message goes out.
pub enum Delivery {
    /// Nothing is sent, for the reason given.
    Skipped(String),
    /// The settings are wrong; nothing is sent.
    Failed(String),
    /// A JSON body posted to `url`, with a bearer token where one is given.
    PostJson { url: String, bearer: Option<String>, body: JsonValue },
    /// A plain GET of `url`.
    Get { url: String },
    /// A form posted to `url`, with basic authentication where it is given.
    PostForm { url: String, basic_auth: Option<(String, String)>, fields: Vec<(String, String)> },
    /// A text body posted to `url` with a `Title` header.
    PostText { url: String, title: String, text: String },
    /// An e-mail through the configured SMTP server.
    Smtp,
    /// Only written to the log.
    Logged,
}

/// The views of form fields.
pub open spec fn field_views(f: Seq<(String, String)>) -> Seq<(Seq<char>, Seq<char>)> {
    f.map_values(|p: (String, String)| (p.0@, p.1@))
}

pub open spec fn member_str(body: JsonValue, path1: Seq<char>, path2: Option<Seq<char>>) -> Option<Seq<char>> {
    match path2 {
        None => str_of(field(body, path1)),
        Some(k) => str_of(get_opt(field(body, path1), k)),
    }
}

pub open spec fn dingtalk_text(title: Seq<char>, content: Seq<char>) -> Seq<char> {
    "### "@ + title + "\n\n"@ + content
}

pub open spec fn wecom_text(title: Seq<char>, content: Seq<char>) -> Seq<char> {
    "### "@ + title + "\n> "@ + content
}

pub open spec fn telegram_text(title: Seq<char>, content: Seq<char>) -> Seq<char> {
    "*"@ + title + "*\n\n"@ + content
}

/// The title and the content on two lines (Discord, Slack).
pub open spec fn two_lines(title: Seq<char>, content: Seq<char>) -> Seq<char> {
    title + "\n"@ + content
}

pub open spec fn telegram_url(token: Seq<char>) -> Seq<char> {
    "https://api.telegram.org/bot"@ + token + "/sendMessage"@
}

pub open spec fn bark_url(base: Seq<char>, title: Seq<char>, content: Seq<char>) -> Seq<char> {
    trim_end_char(base, '/') + "/"@ + url_encoded(title) + "/"@ + url_encoded(content)
}

pub open spec fn serverchan_url(token: Seq<char>) -> Seq<char> {
    "https://sctapi.ftqq.com/"@ + token + ".send"@
}

/// The ntfy server: the configured one, or `https://ntfy.sh`.
pub open spec fn ntfy_url(server: Seq<char>, topic: Seq<char>) -> Seq<char> {
    let s = if server.len() == 0 { "https://ntfy.sh"@ } else { server };
    trim_end_char(s, '/') + "/"@ + topic
}

pub open spec fn gotify_url(server: Seq<char>, token: Seq<char>) -> Seq<char> {
    trim_end_char(server, '/') + "/message?token="@ + token
}

pub open spec fn mailgun_url(domain: Seq<char>) -> Seq<char> {
    "https://api.mailgun.net/v3/"@ + domain + "/messages"@
}

/// Which service sends e-mail, by the SMTP host setting.
#[derive(Clone, Copy, PartialEq, Eq, Structural, Debug)]
pub enum EmailProvider {
    Mailgun,
    Resend,
    Smtp,
}

/// A host that names `mailgun` (any case) goes through Mailgun's API, one
/// that names `resend` through Resend's, any other to the SMTP server.
pub open spec fn email_provider(host: Seq<char>) -> EmailProvider {
    if contains_seq(lowercased(host), "mailgun"@) {
        EmailProvider::Mailgun
    } else if contains_seq(lowercased(host), "resend"@) {
        EmailProvider::Resend
    } else {
        EmailProvider::Smtp
    }
}

pub open spec fn skipped_with(d: Delivery, reason: Seq<char>) -> bool {
    d matches Delivery::Skipped(m) && m@ == reason
}

pub open spec fn json_to(d: Delivery, url: Seq<char>) -> bool {
    d matches Delivery::PostJson { url: u, bearer, body } && u@ == url && bearer is None
}

pub open spec fn body_of(d: Delivery) -> JsonValue {
    match d {
        Delivery::PostJson { body, .. } => body,
        _ => JsonValue::Null,
    }
}

/// What a configured channel is sent.
pub open spec fn channel_delivery(cfg: NotificationConfig, c: Channel, title: Seq<char>, content: Seq<char>, d: Delivery) -> bool {
    let b = body_of(d);
    match c {
        Channel::DingTalk => json_to(d, cfg.dingtalk_webhook@)
            && member_str(b, "msgtype"@, None) == Some("markdown"@)
            && member_str(b, "markdown"@, Some("title"@)) == Some(title)
            && member_str(b, "markdown"@, Some("text"@)) == Some(dingtalk_text(title, content)),
        Channel::Feishu => json_to(d, cfg.feishu_webhook@)
            && member_str(b, "msg_type"@, None) == Some("interactive"@)
            && str_of(get_opt(get_opt(get_opt(field(b, "card"@), "header"@), "title"@), "content"@)) == Some(title)
            && str_of(get_opt(get_opt(field(b, "card"@), "header"@), "template"@)) == Some("blue"@)
            && (match get_opt(field(b, "card"@), "elements"@) {
                Some(JsonValue::Array(items)) => items@.len() == 1
                    && str_of(field(items@[0], "tag"@)) == Some("markdown"@)
                    && str_of(field(items@[0], "content"@)) == Some(content),
                _ => false,
            }),
        Channel::WeCom => json_to(d, cfg.wecom_webhook@)
            && member_str(b, "msgtype"@, None) == Some("markdown"@)
            && member_str(b, "markdown"@, Some("content"@)) == Some(wecom_text(title, content)),
        Channel::Telegram => json_to(d, telegram_url(cfg.telegram_bot_token@))
            && member_str(b, "chat_id"@, None) == Some(cfg.telegram_chat_id@)
            && member_str(b, "text"@, None) == Some(telegram_text(title, content))
            && member_str(b, "parse_mode"@, None) == Some("Markdown"@),
        Channel::Bark => d matches Delivery::Get { url } && url@ == bark_url(cfg.bark_url@, title, content),
        Channel::Discord => json_to(d, cfg.discord_webhook@)
            && member_str(b, "content"@, None) == Some(two_lines(title, content)),
        Channel::Slack => json_to(d, cfg.slack_webhook@)
            && member_str(b, "text"@, None) == Some(two_lines(title, content)),
        Channel::Pushover => d matches Delivery::PostForm { url, basic_auth, fields }
            && url@ == "https://api.pushover.net/1/messages.json"@ && basic_auth is None
            && field_views(fields@) == seq![
                ("user"@, cfg.pushover_user_key@),
                ("token"@, cfg.pushover_api_token@),
                ("message"@, content),
                ("title"@, title),
            ],
        Channel::PushPlus => json_to(d, "http://www.pushplus.plus/send"@)
            && member_str(b, "token"@, None) == Some(cfg.pushplus_token@)
            && member_str(b, "title"@, None) == Some(title)
            && member_str(b, "content"@, None) == Some(content)
            && member_str(b, "template"@, None) == Some("html"@),
        Channel::ServerChan => json_to(d, serverchan_url(cfg.serverchan_token@))
            && member_str(b, "title"@, None) == Some(title)
            && member_str(b, "desp"@, None) == Some(content),
        Channel::Ntfy => d matches Delivery::PostText { url, title: t, text }
            && url@ == ntfy_url(cfg.ntfy_server@, cfg.ntfy_topic@) && t@ == title && text@ == content,
        Channel::Gotify => json_to(d, gotify_url(cfg.gotify_server@, cfg.gotify_app_token@))
            && member_str(b, "title"@, None) == Some(title)
            && member_str(b, "message"@, None) == Some(content)
            && (field(b, "priority"@) matches Some(JsonValue::Number(n)) && n@ == "5"@),
        Channel::CustomWebhook => json_to(d, cfg.custom_webhook_url@)
            && member_str(b, "title"@, None) == Some(title)
            && member_str(b, "content"@, None) == Some(content)
            && member_str(b, "channel"@, None) == Some("custom_webhook"@),
        Channel::Email => true,
        Channel::Log => d is Logged,
    }
}

/// What an e-mail is sent through, given the API key the settings resolve to.
pub open spec fn email_delivery(cfg: NotificationConfig, key: Seq<char>, title: Seq<char>, content: Seq<char>, d: Delivery) -> bool {
    match email_provider(cfg.email_smtp_host@) {
        EmailProvider::Mailgun => {
            let domain = remove_all(cfg.email_smtp_host@, "mailgun:"@);
            if domain.len() == 0 {
                d matches Delivery::Failed(m) && m@ == "Mailgun域名未配置, 格式: mailgun:your-domain.com"@
            } else if key.len() == 0 {
                skipped_with(d, "Mailgun API Key未配置"@)
            } else {
                d matches Delivery::PostForm { url, basic_auth, fields }
                    && url@ == mailgun_url(domain)
                    && (basic_auth matches Some(a) && a.0@ == "api"@ && a.1@ == key)
                    && field_views(fields@) == seq![
                        ("from"@, cfg.email_from@),
                        ("to"@, cfg.email_to@),
                        ("subject"@, title),
                        ("text"@, content),
                    ]
            }
        },
        EmailProvider::Resend => if key.len() == 0 {
            skipped_with(d, "Resend API Key未配置"@)
        } else {
            d matches Delivery::PostJson { url, bearer, body }
                && url@ == "https://api.resend.com/emails"@
                && (bearer matches Some(t) && t@ == key)
                && member_str(body, "from"@, None) == Some(cfg.email_from@)
                && member_str(body, "subject"@, None) == Some(title)
                && member_str(body, "text"@, None) == Some(content)
                && (field(body, "to"@) matches Some(JsonValue::Array(a)) && a@.len() == 1
                    && str_of(Some(a@[0])) == Some(cfg.email_to@))
        },
        EmailProvider::Smtp => d is Smtp,
    }
}

/// What a message on `c` is: skipped when its settings are missing,
/// otherwise the channel's request.
pub open spec fn spec_delivery(cfg: NotificationConfig, c: Channel, key: Seq<char>, title: Seq<char>, content: Seq<char>, d: Delivery) -> bool {
    match spec_skip_reason(cfg, c) {
        Some(m) => skipped_with(d, m),
        None => if c == Channel::Email {
            email_delivery(cfg, key, title, content, d)
        } else {
            channel_delivery(cfg, c, title, content, d)
        },
    }
}

fn str_member(key: &str, value: &str) -> (m: (String, JsonValue))
    ensures
        m.0@ == key@,
        m.1 matches JsonValue::Str(s) && s@ == value@,
{
    (key.to_owned(), JsonValue::string(value))
}

proof fn lemma_member_keys()
    ensures
        "msgtype"@ != "markdown"@,
        "title"@ != "text"@,
        "msg_type"@ != "card"@,
        "header"@ != "elements"@,
        "title"@ != "template"@,
        "tag"@ != "content"@,
        "chat_id"@ != "text"@,
        "chat_id"@ != "parse_mode"@,
        "text"@ != "parse_mode"@,
        "token"@ != "title"@,
        "token"@ != "content"@,
        "token"@ != "template"@,
        "title"@ != "content"@,
        "content"@ != "template"@,
        "title"@ != "desp"@,
        "title"@ != "message"@,
        "title"@ != "priority"@,
        "message"@ != "priority"@,
        "title"@ != "channel"@,
        "content"@ != "channel"@,
        "from"@ != "to"@,
        "from"@ != "subject"@,
        "from"@ != "text"@,
        "to"@ != "subject"@,
        "to"@ != "text"@,
        "subject"@ != "text"@,
{
    reveal_strlit("msgtype");
    reveal_strlit("markdown");
    reveal_strlit("title");
    reveal_strlit("text");
    reveal_strlit("msg_type");
    reveal_strlit("card");
    reveal_strlit("header");
    reveal_strlit("elements");
    reveal_strlit("template");
    reveal_strlit("tag");
    reveal_strlit("content");
    reveal_strlit("chat_id");
    reveal_strlit("parse_mode");
    reveal_strlit("token");
    reveal_strlit("desp");
    reveal_strlit("message");
    reveal_strlit("priority");
    reveal_strlit("channel");
    reveal_strlit("from");
    reveal_strlit("to");
    reveal_strlit("subject");
    assert("token"@[1] != "title"@[1]);
    assert("content"@[1] != "channel"@[1]);
    assert("from"@[0] != "text"@[0]);
    assert("msgtype"@.len() != "markdown"@.len());
    assert("title"@.len() != "text"@.len());
    assert("msg_type"@.len() != "card"@.len());
    assert("header"@.len() != "elements"@.len());
    assert("title"@.len() != "template"@.len());
    assert("tag"@.len() != "content"@.len());
    assert("chat_id"@.len() != "text"@.len());
    assert("chat_id"@.len() != "parse_mode"@.len());
    assert("text"@.len() != "parse_mode"@.len());
    assert("token"@.len() != "content"@.len());
    assert("token"@.len() != "template"@.len());
    assert("title"@.len() != "content"@.len());
    assert("content"@.len() != "template"@.len());
    assert("title"@.len() != "desp"@.len());
    assert("title"@.len() != "message"@.len());
    assert("title"@.len() != "priority"@.len());
    assert("message"@.len() != "priority"@.len());
    assert("title"@.len() != "channel"@.len());
    assert("from"@.len() != "to"@.len());
    assert("from"@.len() != "subject"@.len());
    assert("to"@.len() != "subject"@.len());
    assert("to"@.len() != "text"@.len());
    assert("subject"@.len() != "text"@.len());
}

fn concat2(a: &str, b: &str) -> (r: String)
    ensures
        r@ == a@ + b@,
{
    let mut out: Vec<char> = Vec::new();
    push_str(&mut out, a);
    push_str(&mut out, b);
    assert(out@ =~= a@ + b@);
    from_chars(&out)
}

fn concat3(a: &str, b: &str, c: &str) -> (r: String)
    ensures
        r@ == a@ + b@ + c@,
{
    let mut out: Vec<char> = Vec::new();
    push_str(&mut out, a);
    push_str(&mut out, b);
    push_str(&mut out, c);
    assert(out@ =~= a@ + b@ + c@);
    from_chars(&out)
}

fn concat4(a: &str, b: &str, c: &str, d: &str) -> (r: String)
    ensures
        r@ == a@ + b@ + c@ + d@,
{
    let mut out: Vec<char> = Vec::new();
    push_str(&mut out, a);
    push_str(&mut out, b);
    push_str(&mut out, c);
    push_str(&mut out, d);
    assert(out@ =~= a@ + b@ + c@ + d@);
    from_chars(&out)
}

fn json_post(url: String, body: JsonValue) -> (d: Delivery)
    ensures
        d matches Delivery::PostJson { url: u, bearer, body: b } && u@ == url@ && bearer is None && b == body,
{
    Delivery::PostJson { url, bearer: None, body }
}

fn dingtalk(webhook: &str, title: &str, content: &str) -> (d: Delivery)
    ensures
        json_to(d, webhook@),
        member_str(body_of(d), "msgtype"@, None) == Some("markdown"@),
        member_str(body_of(d), "markdown"@, Some("title"@)) == Some(title@),
        member_str(body_of(d), "markdown"@, Some("text"@)) == Some(dingtalk_text(title@, content@)),
{
    let mut md: Vec<(String, JsonValue)> = Vec::new();
    md.push(str_member("title", title));
    md.push(str_member("text", concat4("### ", title, "\n\n", content).as_str()));
    let mut top: Vec<(String, JsonValue)> = Vec::new();
    top.push(str_member("msgtype", "markdown"));
    top.push(("markdown".to_owned(), JsonValue::Object(md)));
    proof {
        lemma_member_keys();
        lemma_lookup_at(md@, 0);
        lemma_lookup_at(md@, 1);
        lemma_lookup_at(top@, 0);
        lemma_lookup_at(top@, 1);
    }
    json_post(webhook.to_owned(), JsonValue::Object(top))
}

fn feishu(webhook: &str, title: &str, content: &str) -> (d: Delivery)
    ensures
        json_to(d, webhook@),
        member_str(body_of(d), "msg_type"@, None) == Some("interactive"@),
        str_of(get_opt(get_opt(get_opt(field(body_of(d), "card"@), "header"@), "title"@), "content"@)) == Some(title@),
        str_of(get_opt(get_opt(field(body_of(d), "card"@), "header"@), "template"@)) == Some("blue"@),
        match get_opt(field(body_of(d), "card"@), "elements"@) {
            Some(JsonValue::Array(items)) => items@.len() == 1
                && str_of(field(items@[0], "tag"@)) == Some("markdown"@)
                && str_of(field(items@[0], "content"@)) == Some(content@),
            _ => false,
        },
{
    let mut t: Vec<(String, JsonValue)> = Vec::new();
    t.push(str_member("tag", "plain_text"));
    t.push(str_member("content", title));
    let mut header: Vec<(String, JsonValue)> = Vec::new();
    header.push(("title".to_owned(), JsonValue::Object(t)));
    header.push(str_member("template", "blue"));
    let mut el: Vec<(String, JsonValue)> = Vec::new();
    el.push(str_member("tag", "markdown"));
    el.push(str_member("content", content));
    let mut elements: Vec<JsonValue> = Vec::new();
    elements.push(JsonValue::Object(el));
    let mut card: Vec<(String, JsonValue)> = Vec::new();
    card.push(("header".to_owned(), JsonValue::Object(header)));
    card.push(("elements".to_owned(), JsonValue::Array(elements)));
    let mut top: Vec<(String, JsonValue)> = Vec::new();
    top.push(str_member("msg_type", "interactive"));
    top.push(("card".to_owned(), JsonValue::Object(card)));
    proof {
        lemma_member_keys();
        lemma_lookup_at(t@, 1);
        lemma_lookup_at(header@, 0);
        lemma_lookup_at(header@, 1);
        lemma_lookup_at(el@, 0);
        lemma_lookup_at(el@, 1);
        lemma_lookup_at(card@, 0);
        lemma_lookup_at(card@, 1);
        lemma_lookup_at(top@, 0);
        lemma_lookup_at(top@, 1);
    }
    json_post(webhook.to_owned(), JsonValue::Object(top))
}

fn wecom(webhook: &str, title: &str, content: &str) -> (d: Delivery)
    ensures
        json_to(d, webhook@),
        member_str(body_of(d), "msgtype"@, None) == Some("markdown"@),
        member_str(body_of(d), "markdown"@, Some("content"@)) == Some(wecom_text(title@, content@)),
{
    let mut md: Vec<(String, JsonValue)> = Vec::new();
    md.push(str_member("content", concat4("### ", title, "\n> ", content).as_str()));
    let mut top: Vec<(String, JsonValue)> = Vec::new();
    top.push(str_member("msgtype", "markdown"));
    top.push(("markdown".to_owned(), JsonValue::Object(md)));
    proof {
        lemma_member_keys();
        lemma_lookup_at(md@, 0);
        lemma_lookup_at(top@, 0);
        lemma_lookup_at(top@, 1);
    }
    json_post(webhook.to_owned(), JsonValue::Object(top))
}

fn telegram(token: &str, chat_id: &str, title: &str, content: &str) -> (d: Delivery)
    ensures
        json_to(d, telegram_url(token@)),
        member_str(body_of(d), "chat_id"@, None) == Some(chat_id@),
        member_str(body_of(d), "text"@, None) == Some(telegram_text(title@, content@)),
        member_str(body_of(d), "parse_mode"@, None) == Some("Markdown"@),
{
    let mut top: Vec<(String, JsonValue)> = Vec::new();
    top.push(str_member("chat_id", chat_id));
    top.push(str_member("text", concat4("*", title, "*\n\n", content).as_str()));
    top.push(str_member("parse_mode", "Markdown"));
    proof {
        lemma_member_keys();
        lemma_lookup_at(top@, 0);
        lemma_lookup_at(top@, 1);
        lemma_lookup_at(top@, 2);
    }
    let url = concat3("https://api.telegram.org/bot", token, "/sendMessage");
    assert(url@ == telegram_url(token@));
    json_post(url, JsonValue::Object(top))
}

fn single_member(url: &str, key: &str, value: String) -> (d: Delivery)
    ensures
        json_to(d, url@),
        member_str(body_of(d), key@, None) == Some(value@),
{
    let mut top: Vec<(String, JsonValue)> = Vec::new();
    top.push((key.to_owned(), JsonValue::Str(value)));
    proof {
        lemma_lookup_at(top@, 0);
    }
    json_post(url.to_owned(), JsonValue::Object(top))
}

fn pushplus(token: &str, title: &str, content: &str) -> (d: Delivery)
    ensures
        json_to(d, "http://www.pushplus.plus/send"@),
        member_str(body_of(d), "token"@, None) == Some(token@),
        member_str(body_of(d), "title"@, None) == Some(title@),
        member_str(body_of(d), "content"@, None) == Some(content@),
        member_str(body_of(d), "template"@, None) == Some("html"@),
{
    let mut top: Vec<(String, JsonValue)> = Vec::new();
    top.push(str_member("token", token));
    top.push(str_member("title", title));
    top.push(str_member("content", content));
    top.push(str_member("template", "html"));
    proof {
        lemma_member_keys();
        lemma_lookup_at(top@, 0);
        lemma_lookup_at(top@, 1);
        lemma_lookup_at(top@, 2);
        lemma_lookup_at(top@, 3);
    }
    json_post("http://www.pushplus.plus/send".to_owned(), JsonValue::Object(top))
}

fn serverchan(token: &str, title: &str, content: &str) -> (d: Delivery)
    ensures
        json_to(d, serverchan_url(token@)),
        member_str(body_of(d), "title"@, None) == Some(title@),
        member_str(body_of(d), "desp"@, None) == Some(content@),
{
    let mut top: Vec<(String, JsonValue)> = Vec::new();
    top.push(str_member("title", title));
    top.push(str_member("desp", content));
    proof {
        lemma_member_keys();
        lemma_lookup_at(top@, 0);
        lemma_lookup_at(top@, 1);
    }
    let url = concat3("https://sctapi.ftqq.com/", token, ".send");
    assert(url@ == serverchan_url(token@));
    json_post(url, JsonValue::Object(top))
}

fn gotify(server: &str, token: &str, title: &str, content: &str) -> (d: Delivery)
    ensures
        json_to(d, gotify_url(server@, token@)),
        member_str(body_of(d), "title"@, None) == Some(title@),
        member_str(body_of(d), "message"@, None) == Some(content@),
        field(body_of(d), "priority"@) matches Some(JsonValue::Number(n)) && n@ == "5"@,
{
    let mut top: Vec<(String, JsonValue)> = Vec::new();
    top.push(str_member("title", title));
    top.push(str_member("message", content));
    top.push(("priority".to_owned(), JsonValue::Number("5".to_owned())));
    proof {
        lemma_member_keys();
        lemma_lookup_at(top@, 0);
        lemma_lookup_at(top@, 1);
        lemma_lookup_at(top@, 2);
    }
    let base = trim_end_slashes(server);
    let mut out: Vec<char> = base;
    push_str(&mut out, "/message?token=");
    push_str(&mut out, token);
    assert(out@ =~= gotify_url(server@, token@));
    json_post(from_chars(&out), JsonValue::Object(top))
}

fn custom_webhook(url: &str, title: &str, content: &str) -> (d: Delivery)
    ensures
        json_to(d, url@),
        member_str(body_of(d), "title"@, None) == Some(title@),
        member_str(body_of(d), "content"@, None) == Some(content@),
        member_str(body_of(d), "channel"@, None) == Some("custom_webhook"@),
{
    let mut top: Vec<(String, JsonValue)> = Vec::new();
    top.push(str_member("title", title));
    top.push(str_member("content", content));
    top.push(str_member("channel", "custom_webhook"));
    proof {
        lemma_member_keys();
        lemma_lookup_at(top@, 0);
        lemma_lookup_at(top@, 1);
        lemma_lookup_at(top@, 2);
    }
    json_post(url.to_owned(), JsonValue::Object(top))
}

fn bark(base: &str, title: &str, content: &str) -> (d: Delivery)
    ensures
        d matches Delivery::Get { url } && url@ == bark_url(base@, title@, content@),
{
    let mut out: Vec<char> = trim_end_slashes(base);
    push_str(&mut out, "/");
    push_str(&mut out, url_encode(title).as_str());
    push_str(&mut out, "/");
    push_str(&mut out, url_encode(content).as_str());
    assert(out@ =~= bark_url(base@, title@, content@));
    Delivery::Get { url: from_chars(&out) }
}

fn ntfy(server: &str, topic: &str, title: &str, content: &str) -> (d: Delivery)
    ensures
        d matches Delivery::PostText { url, title: t, text } && url@ == ntfy_url(server@, topic@) && t@ == title@
            && text@ == content@,
{
    let mut out: Vec<char> = if server.is_empty() { trim_end_slashes("https://ntfy.sh") } else { trim_end_slashes(server) };
    push_str(&mut out, "/");
    push_str(&mut out, topic);
    assert(out@ =~= ntfy_url(server@, topic@));
    Delivery::PostText { url: from_chars(&out), title: title.to_owned(), text: content.to_owned() }
}

fn pair(a: &str, b: &str) -> (p: (String, String))
    ensures
        p.0@ == a@,
        p.1@ == b@,
{
    (a.to_owned(), b.to_owned())
}

fn pushover(user: &str, token: &str, title: &str, content: &str) -> (d: Delivery)
    ensures
        d matches Delivery::PostForm { url, basic_auth, fields }
            && url@ == "https://api.pushover.net/1/messages.json"@ && basic_auth is None
            && field_views(fields@) == seq![("user"@, user@), ("token"@, token@), ("message"@, content@), ("title"@, title@)],
{
    let mut fields: Vec<(String, String)> = Vec::new();
    fields.push(pair("user", user));
    fields.push(pair("token", token));
    fields.push(pair("message", content));
    fields.push(pair("title", title));
    assert(field_views(fields@) =~= seq![("user"@, user@), ("token"@, token@), ("message"@, content@), ("title"@, title@)]);
    Delivery::PostForm { url: "https://api.pushover.net/1/messages.json".to_owned(), basic_auth: None, fields }
}

fn email(cfg: &NotificationConfig, key: &str, title: &str, content: &str) -> (d: Delivery)
    ensures
        email_delivery(*cfg, key@, title@, content@, d),
{
    let host = cfg.email_smtp_host.as_str();
    let lower = to_chars(to_lowercase(host).as_str());
    if crate::text::find_from(&lower, &to_chars("mailgun"), 0).is_some() {
        proof {
            reveal_strlit("mailgun:");
        }
        let domain = crate::strings::remove_all_str(host, "mailgun:");
        if domain.as_str().is_empty() {
            return Delivery::Failed("Mailgun域名未配置, 格式: mailgun:your-domain.com".to_owned());
        }
        if key.is_empty() {
            return Delivery::Skipped("Mailgun API Key未配置".to_owned());
        }
        let url = concat3("https://api.mailgun.net/v3/", domain.as_str(), "/messages");
        let mut fields: Vec<(String, String)> = Vec::new();
        fields.push(pair("from", cfg.email_from.as_str()));
        fields.push(pair("to", cfg.email_to.as_str()));
        fields.push(pair("subject", title));
        fields.push(pair("text", content));
        assert(field_views(fields@) =~= seq![("from"@, cfg.email_from@), ("to"@, cfg.email_to@), ("subject"@, title@), ("text"@, content@)]);
        return Delivery::PostForm { url, basic_auth: Some(pair("api", key)), fields };
    }
    if crate::text::find_from(&lower, &to_chars("resend"), 0).is_some() {
        if key.is_empty() {
            return Delivery::Skipped("Resend API Key未配置".to_owned());
        }
        let mut to: Vec<JsonValue> = Vec::new();
        to.push(JsonValue::string(cfg.email_to.as_str()));
        let mut top: Vec<(String, JsonValue)> = Vec::new();
        top.push(str_member("from", cfg.email_from.as_str()));
        top.push(("to".to_owned(), JsonValue::Array(to)));
        top.push(str_member("subject", title));
        top.push(str_member("text", content));
        proof {
            lemma_member_keys();
            lemma_lookup_at(top@, 0);
            lemma_lookup_at(top@, 1);
            lemma_lookup_at(top@, 2);
            lemma_lookup_at(top@, 3);
        }
        return Delivery::PostJson {
            url: "https://api.resend.com/emails".to_owned(),
            bearer: Some(key.to_owned()),
            body: JsonValue::Object(top),
        };
    }
    Delivery::Smtp
}

impl NotificationConfig {
    /// What a message with `title` and `content` on channel `c` is sent as.
    /// `email_key` is the API key the e-mail settings resolve to (used by the
    /// Mailgun and Resend providers).
    pub fn delivery(&self, c: Channel, email_key: &str, title: &str, content: &str) -> (d: Delivery)
        ensures
            spec_delivery(*self, c, email_key@, title@, content@, d),
    {
        match self.skip_reason(c) {
            Some(m) => return Delivery::Skipped(m),
            None => {},
        }
        match c {
            Channel::DingTalk => dingtalk(self.dingtalk_webhook.as_str(), title, content),
            Channel::Feishu => feishu(self.feishu_webhook.as_str(), title, content),
            Channel::WeCom => wecom(self.wecom_webhook.as_str(), title, content),
            Channel::Telegram => telegram(self.telegram_bot_token.as_str(), self.telegram_chat_id.as_str(), title, content),
            Channel::Bark => bark(self.bark_url.as_str(), title, content),
            Channel::Email => email(self, email_key, title, content),
            Channel::Discord => single_member(self.discord_webhook.as_str(), "content", concat3(title, "\n", content)),
            Channel::Slack => single_member(self.slack_webhook.as_str(), "text", concat3(title, "\n", content)),
            Channel::Pushover => pushover(self.pushover_user_key.as_str(), self.pushover_api_token.as_str(), title, content),
            Channel::PushPlus => pushplus(self.pushplus_token.as_str(), title, content),
            Channel::ServerChan => serverchan(self.serverchan_token.as_str(), title, content),
            Channel::Ntfy => ntfy(self.ntfy_server.as_str(), self.ntfy_topic.as_str(), title, content),
            Channel::Gotify => gotify(self.gotify_server.as_str(), self.gotify_app_token.as_str(), title, content),
            Channel::CustomWebhook => custom_webhook(self.custom_webhook_url.as_str(), title, content),
            Channel::Log => Delivery::Logged,
        }
    }
}

} // verus!
