//! The agent chat stream: the request sent to the model and what the client
//! is told.
use vstd::prelude::*;
use crate::bot::platforms::get_opt;
use crate::json::{field, lemma_lookup_at, str_of, JsonValue};

verus! {

/// Why a chat stream stops before the model answers.
#[derive(Clone, Copy, PartialEq, Eq, Structural, Debug)]
pub enum ChatFailure {
    /// No model key is configured (`API Key未配置`).
    NoApiKey,
    /// The model provider is unknown (`Provider错误`).
    Provider,
}

pub open spec fn chat_failure_text(f: ChatFailure) -> Seq<char> {
    match f {
        ChatFailure::NoApiKey => "API Key未配置"@,
        ChatFailure::Provider => "Provider错误"@,
    }
}

/// The text of a chat failure.
pub fn chat_failure_message(f: ChatFailure) -> (s: &'static str)
    ensures
        s@ == chat_failure_text(f),
{
    match f {
        ChatFailure::NoApiKey => "API Key未配置",
        ChatFailure::Provider => "Provider错误",
    }
}

/// The first element of an array value.
pub open spec fn first_of(v: Option<JsonValue>) -> Option<JsonValue> {
    match v {
        Some(JsonValue::Array(items)) => if items@.len() > 0 { Some(items@[0]) } else { None },
        _ => None,
    }
}

/// The text of a chat completion: `choices[0].message.content`, empty when
/// it is missing or not text.
pub open spec fn spec_reply_text(resp: JsonValue) -> Seq<char> {
    match str_of(get_opt(get_opt(first_of(field(resp, "choices"@)), "message"@), "content"@)) {
        Some(s) => s,
        None => Seq::empty(),
    }
}

/// The model's answer in a chat completion.
pub fn reply_text(resp: &JsonValue) -> (r: String)
    ensures
        r@ == spec_reply_text(*resp),
{
    let first = match resp.get("choices") {
        Some(JsonValue::Array(items)) => if items.len() > 0 { Some(&items[0]) } else { None },
        _ => None,
    };
    let content = match first {
        Some(f) => match f.get("message") {
            Some(m) => m.get("content"),
            None => None,
        },
        None => None,
    };
    match content {
        Some(c) => match c.as_str() {
            Some(s) => s,
            None => String::new(),
        },
        None => String::new(),
    }
}

/// The chat request: `{"model": model, "messages": [{"role": "user", "content": message}]}`.
pub fn chat_request(model: &str, message: &str) -> (v: JsonValue)
    ensures
        str_of(field(v, "model"@)) == Some(model@),
        match field(v, "messages"@) {
            Some(JsonValue::Array(items)) => items@.len() == 1
                && str_of(field(items@[0], "role"@)) == Some("user"@)
                && str_of(field(items@[0], "content"@)) == Some(message@),
            _ => false,
        },
{
    let mut m: Vec<(String, JsonValue)> = Vec::new();
    m.push(("role".to_owned(), JsonValue::string("user")));
    m.push(("content".to_owned(), JsonValue::string(message)));
    let mut items: Vec<JsonValue> = Vec::new();
    items.push(JsonValue::Object(m));
    let mut top: Vec<(String, JsonValue)> = Vec::new();
    top.push(("model".to_owned(), JsonValue::string(model)));
    top.push(("messages".to_owned(), JsonValue::Array(items)));
    proof {
        reveal_strlit("role");
        reveal_strlit("content");
        reveal_strlit("model");
        reveal_strlit("messages");
        assert("role"@.len() != "content"@.len());
        assert("model"@.len() != "messages"@.len());
        lemma_lookup_at(m@, 0);
        lemma_lookup_at(m@, 1);
        lemma_lookup_at(top@, 0);
        lemma_lookup_at(top@, 1);
    }
    JsonValue::Object(top)
}

} // verus!
