//! A JSON document model: the values that request bodies, headers and platform
//! payloads carry.
//!
//! Numbers keep the decimal text they were written with, so that no value is
//! rounded on its way through the library.
use vstd::prelude::*;
use crate::text::{all_digits, is_digit, is_digit_char, to_chars};

verus! {

#[derive(Debug)]
pub enum JsonValue {
    Null,
    Bool(bool),
    /// A number, as its JSON text (for example `8`, `-3`, `4.5`).
    Number(String),
    Str(String),
    Array(Vec<JsonValue>),
    /// The members of an object, in order; a lookup finds the first member with the key.
    Object(Vec<(String, JsonValue)>),
}

/// The value of the first member of `entries` whose key is `key`.
pub open spec fn lookup(entries: Seq<(String, JsonValue)>, key: Seq<char>) -> Option<JsonValue>
    decreases entries.len(),
{
    if entries.len() == 0 {
        None
    } else if entries[0].0@ == key {
        Some(entries[0].1)
    } else {
        lookup(entries.drop_first(), key)
    }
}

/// Lookups in an object of one member.
pub proof fn lemma_lookup_one(e: Seq<(String, JsonValue)>)
    requires
        e.len() == 1,
    ensures
        forall|key: Seq<char>|
            #[trigger] lookup(e, key) == if e[0].0@ == key {
                Some(e[0].1)
            } else {
                None::<JsonValue>
            },
{
    assert forall|key: Seq<char>|
        #[trigger] lookup(e, key) == if e[0].0@ == key {
            Some(e[0].1)
        } else {
            None::<JsonValue>
        } by {
        assert(e.drop_first().len() == 0);
        assert(lookup(e.drop_first(), key) is None);
    }
}

/// Lookups in an object of two members.
pub proof fn lemma_lookup_two(e: Seq<(String, JsonValue)>)
    requires
        e.len() == 2,
    ensures
        forall|key: Seq<char>|
            #[trigger] lookup(e, key) == if e[0].0@ == key {
                Some(e[0].1)
            } else if e[1].0@ == key {
                Some(e[1].1)
            } else {
                None::<JsonValue>
            },
{
    let d = e.drop_first();
    assert(d.len() == 1 && d[0] == e[1]);
    lemma_lookup_one(d);
    assert forall|key: Seq<char>|
        #[trigger] lookup(e, key) == if e[0].0@ == key {
            Some(e[0].1)
        } else if e[1].0@ == key {
            Some(e[1].1)
        } else {
            None::<JsonValue>
        } by {
        assert(lookup(d, key) == if d[0].0@ == key {
            Some(d[0].1)
        } else {
            None::<JsonValue>
        });
    }
}

/// The first member with a key is the one a lookup finds.
pub proof fn lemma_lookup_at(e: Seq<(String, JsonValue)>, k: int)
    requires
        0 <= k < e.len(),
        forall|j: int| 0 <= j < k ==> e[j].0@ != e[k].0@,
    ensures
        lookup(e, e[k].0@) == Some(e[k].1),
    decreases k,
{
    if k > 0 {
        let d = e.drop_first();
        assert forall|j: int| 0 <= j < k - 1 implies (#[trigger] d[j]).0@ != d[k - 1].0@ by {
            assert(d[j] == e[j + 1]);
        }
        lemma_lookup_at(d, k - 1);
        assert(d[k - 1] == e[k]);
    }
}

/// `v[key]`: the member `key` of an object, `None` for anything else.
pub open spec fn field(v: JsonValue, key: Seq<char>) -> Option<JsonValue> {
    match v {
        JsonValue::Object(entries) => lookup(entries@, key),
        _ => None,
    }
}

/// The text of a string value.
pub open spec fn str_of(v: Option<JsonValue>) -> Option<Seq<char>> {
    match v {
        Some(JsonValue::Str(s)) => Some(s@),
        _ => None,
    }
}

pub open spec fn bool_of(v: Option<JsonValue>) -> Option<bool> {
    match v {
        Some(JsonValue::Bool(b)) => Some(b),
        _ => None,
    }
}

/// `v[k1][k2]...` along `path`.
pub open spec fn at_path(v: Option<JsonValue>, path: Seq<Seq<char>>) -> Option<JsonValue>
    decreases path.len(),
{
    if path.len() == 0 {
        v
    } else {
        match v {
            Some(x) => at_path(field(x, path[0]), path.drop_first()),
            None => None,
        }
    }
}

/// The value of the decimal digits `s`.
pub open spec fn decimal_value(s: Seq<char>) -> nat
    decreases s.len(),
{
    if s.len() == 0 {
        0
    } else {
        decimal_value(s.drop_last()) * 10 + (s.last() as nat - '0' as nat) as nat
    }
}

/// What `as_u64` gives for a number written `s`: its value when `s` is a
/// non-negative integer that fits in 64 bits.
pub open spec fn u64_of_text(s: Seq<char>) -> Option<u64> {
    if s.len() > 0 && all_digits(s) && decimal_value(s) <= u64::MAX {
        Some(decimal_value(s) as u64)
    } else {
        None
    }
}

pub open spec fn u64_of(v: Option<JsonValue>) -> Option<u64> {
    match v {
        Some(JsonValue::Number(n)) => u64_of_text(n@),
        _ => None,
    }
}

#[verifier::external_type_specification]
#[verifier::external_body]
pub struct ExSerdeJsonValue(serde_json::Value);

/// The document that the JSON text `text` holds, by `serde_json::from_str`;
/// `None` when `text` is not JSON.
pub uninterp spec fn parsed_json(text: Seq<char>) -> Option<JsonValue>;

/// `serde_json::from_str::<serde_json::Value>`, with the value carried over
/// member for member. The contract only names the result: it depends on
/// `text` alone; what the parser accepts is left to serde_json.
#[verifier::external_body]
pub fn parse_json(text: &str) -> (r: Option<JsonValue>)
    ensures
        r == parsed_json(text@),
{
    serde_json::from_str::<serde_json::Value>(text).ok().map(from_serde)
}

/// Carries a `serde_json::Value` over to a `JsonValue`, variant for variant;
/// a number keeps the text serde_json prints for it. Nothing is stated of
/// the result.
#[verifier::external_body]
fn from_serde(v: serde_json::Value) -> JsonValue {
    match v {
        serde_json::Value::Null => JsonValue::Null,
        serde_json::Value::Bool(b) => JsonValue::Bool(b),
        serde_json::Value::Number(n) => JsonValue::Number(n.to_string()),
        serde_json::Value::String(s) => JsonValue::Str(s),
        serde_json::Value::Array(a) => JsonValue::Array(a.into_iter().map(from_serde).collect()),
        serde_json::Value::Object(m) => JsonValue::Object(m.into_iter().map(|(k, x)| (k, from_serde(x))).collect()),
    }
}

/// Whether two character sequences are equal.
pub fn chars_eq(a: &[char], b: &[char]) -> (r: bool)
    ensures
        r == (a@ == b@),
{
    if a.len() != b.len() {
        return false;
    }
    let mut i: usize = 0;
    while i < a.len()
        invariant
            a@.len() == b@.len(),
            i <= a@.len(),
            forall|k: int| 0 <= k < i ==> a@[k] == b@[k],
        decreases a@.len() - i,
    {
        if a[i] != b[i] {
            return false;
        }
        i = i + 1;
    }
    assert(a@ == b@);
    true
}

/// Whether two strings are equal.
pub fn str_eq(a: &str, b: &str) -> (r: bool)
    ensures
        r == (a@ == b@),
{
    let x = to_chars(a);
    let y = to_chars(b);
    chars_eq(&x, &y)
}

impl JsonValue {
    pub fn string(s: &str) -> (v: JsonValue)
        ensures
            v matches JsonValue::Str(t) && t@ == s@,
    {
        JsonValue::Str(s.to_owned())
    }

    /// `v[key]`.
    pub fn get(&self, key: &str) -> (r: Option<&JsonValue>)
        ensures
            match field(*self, key@) {
                Some(x) => r is Some && *r.unwrap() == x,
                None => r is None,
            },
    {
        match self {
            JsonValue::Object(entries) => {
                let k = to_chars(key);
                let n = entries.len();
                let mut i: usize = 0;
                assert(entries@.subrange(0, n as int) == entries@);
                while i < n
                    invariant
                        *self == JsonValue::Object(*entries),
                        n == entries@.len(),
                        i <= n,
                        k@ == key@,
                        lookup(entries@, key@) == lookup(entries@.subrange(i as int, n as int), key@),
                    decreases n - i,
                {
                    let kc = to_chars(entries[i].0.as_str());
                    let ghost rest = entries@.subrange(i as int, n as int);
                    assert(rest[0] == entries@[i as int]);
                    if chars_eq(&kc, &k) {
                        assert(rest[0].0@ == key@);
                        assert(lookup(rest, key@) == Some(rest[0].1));
                        assert(field(*self, key@) == lookup(entries@, key@));
                        let r = &entries[i].1;
                        assert(*r == rest[0].1);
                        return Some(r);
                    }
                    assert(rest.drop_first() == entries@.subrange(i + 1, n as int));
                    i = i + 1;
                }
                None
            },
            _ => None,
        }
    }

    /// The text of a string value.
    pub fn as_str(&self) -> (r: Option<String>)
        ensures
            match r {
                Some(s) => str_of(Some(*self)) == Some(s@),
                None => str_of(Some(*self)) is None,
            },
    {
        match self {
            JsonValue::Str(s) => Some(s.clone()),
            _ => None,
        }
    }

    pub fn as_bool(&self) -> (r: Option<bool>)
        ensures
            r == bool_of(Some(*self)),
    {
        match self {
            JsonValue::Bool(b) => Some(*b),
            _ => None,
        }
    }

    /// The value of a number that is a non-negative integer fitting in 64 bits.
    pub fn as_u64(&self) -> (r: Option<u64>)
        ensures
            r == u64_of(Some(*self)),
    {
        match self {
            JsonValue::Number(n) => {
                let v = to_chars(n.as_str());
                parse_u64_decimal(&v)
            },
            _ => None,
        }
    }
}

proof fn lemma_decimal_push(s: Seq<char>, c: char)
    ensures
        decimal_value(s.push(c)) == decimal_value(s) * 10 + (c as nat - '0' as nat) as nat,
{
    assert(s.push(c).drop_last() == s);
}

/// Reads the decimal digits `v` as a `u64`; `None` when `v` is empty, holds
/// anything but digits, or its value does not fit.
pub fn parse_u64_decimal(v: &[char]) -> (r: Option<u64>)
    ensures
        r == u64_of_text(v@),
{
    if v.len() == 0 {
        return None;
    }
    let mut acc: u64 = 0;
    let mut i: usize = 0;
    while i < v.len()
        invariant
            i <= v@.len(),
            all_digits(v@.subrange(0, i as int)),
            acc == decimal_value(v@.subrange(0, i as int)),
        decreases v@.len() - i,
    {
        let c = v[i];
        proof {
            assert(v@.subrange(0, i + 1) == v@.subrange(0, i as int).push(c));
            lemma_decimal_push(v@.subrange(0, i as int), c);
        }
        if !is_digit_char(c) {
            assert(!is_digit(v@[i as int]));
            return None;
        }
        let d = (c as u32 - '0' as u32) as u64;
        if acc > (u64::MAX - d) / 10 {
            proof {
                let m = u64::MAX as int;
                assert(acc * 10 + d > m) by (nonlinear_arith)
                    requires
                        acc > (m - d) / 10,
                        0 <= d <= 9,
                ;
                if all_digits(v@) {
                    lemma_decimal_monotone(v@, (i + 1) as int);
                }
            }
            return None;
        }
        acc = acc * 10 + d;
        i = i + 1;
    }
    assert(v@.subrange(0, v@.len() as int) == v@);
    Some(acc)
}

proof fn lemma_decimal_monotone(s: Seq<char>, i: int)
    requires
        0 <= i <= s.len(),
        all_digits(s),
    ensures
        decimal_value(s.subrange(0, i)) <= decimal_value(s),
    decreases s.len() - i,
{
    if i < s.len() {
        lemma_decimal_monotone(s, i + 1);
        assert(s.subrange(0, i + 1) == s.subrange(0, i).push(s[i]));
        lemma_decimal_push(s.subrange(0, i), s[i]);
    }
    else {
        assert(s.subrange(0, i) == s);
    }
}

} // verus!
