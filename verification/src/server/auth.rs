//! Account endpoints backed by the remote account service: the request
//! bodies sent there and how its replies are read.
use vstd::prelude::*;
use crate::json::{field, str_of, u64_of, JsonValue};
use crate::text::{from_chars, push_str};

verus! {

pub struct LoginRequest {
    pub mobile: String,
    pub password: String,
}

pub struct RegisterRequest {
    pub mobile: String,
    pub password: String,
    pub name: Option<String>,
}

pub struct ProfileUpdateRequest {
    pub token: String,
    pub name: String,
    pub avatar: Option<String>,
}

pub struct ChangePasswordRequest {
    pub token: String,
    pub old_password: String,
    pub new_password: String,
}

pub struct TokenOnlyRequest {
    pub token: String,
}

/// The base URL of the remote account service.
pub open spec fn spec_remote_auth_base() -> Seq<char> {
    "https://auth.htui.cc/api/pas"@
}

/// The URL of `path` on the remote account service.
pub fn endpoint(path: &str) -> (r: String)
    ensures
        r@ == spec_remote_auth_base() + path@,
{
    let mut out: Vec<char> = Vec::new();
    push_str(&mut out, "https://auth.htui.cc/api/pas");
    push_str(&mut out, path);
    from_chars(&out)
}

fn str_member(key: &str, value: &str) -> (r: (String, JsonValue))
    ensures
        r.0@ == key@,
        r.1 matches JsonValue::Str(s) && s@ == value@,
{
    (key.to_owned(), JsonValue::string(value))
}

/// `{"mobile": .., "password": ..}`.
pub fn login_body(req: &LoginRequest) -> (v: JsonValue)
    ensures
        v matches JsonValue::Object(m) && m@.len() == 2 && m@[0].0@ == "mobile"@ && str_of(Some(m@[0].1))
            == Some(req.mobile@) && m@[1].0@ == "password"@ && str_of(Some(m@[1].1)) == Some(
            req.password@,
        ),
{
    let mut m: Vec<(String, JsonValue)> = Vec::new();
    m.push(str_member("mobile", req.mobile.as_str()));
    m.push(str_member("password", req.password.as_str()));
    JsonValue::Object(m)
}

/// `{"mobile": .., "password": ..}`, with `"name"` when one is given.
pub fn register_body(req: &RegisterRequest) -> (v: JsonValue)
    ensures
        v matches JsonValue::Object(m) && m@.len() == (if req.name is Some { 3int } else { 2int })
            && m@[0].0@ == "mobile"@ && str_of(Some(m@[0].1)) == Some(req.mobile@) && m@[1].0@
            == "password"@ && str_of(Some(m@[1].1)) == Some(req.password@) && (req.name matches Some(n)
            ==> m@[2].0@ == "name"@ && str_of(Some(m@[2].1)) == Some(n@)),
{
    let mut m: Vec<(String, JsonValue)> = Vec::new();
    m.push(str_member("mobile", req.mobile.as_str()));
    m.push(str_member("password", req.password.as_str()));
    match &req.name {
        Some(n) => m.push(str_member("name", n.as_str())),
        None => {},
    }
    JsonValue::Object(m)
}

/// `{"name": ..}`, with `"avatar"` when one is given.
pub fn profile_update_body(req: &ProfileUpdateRequest) -> (v: JsonValue)
    ensures
        v matches JsonValue::Object(m) && m@.len() == (if req.avatar is Some { 2int } else { 1int })
            && m@[0].0@ == "name"@ && str_of(Some(m@[0].1)) == Some(req.name@) && (
        req.avatar matches Some(a) ==> m@[1].0@ == "avatar"@ && str_of(Some(m@[1].1)) == Some(a@)),
{
    let mut m: Vec<(String, JsonValue)> = Vec::new();
    m.push(str_member("name", req.name.as_str()));
    match &req.avatar {
        Some(a) => m.push(str_member("avatar", a.as_str())),
        None => {},
    }
    JsonValue::Object(m)
}

/// `{"oldPassword": .., "newPassword": ..}`.
pub fn change_password_body(req: &ChangePasswordRequest) -> (v: JsonValue)
    ensures
        v matches JsonValue::Object(m) && m@.len() == 2 && m@[0].0@ == "oldPassword"@ && str_of(
            Some(m@[0].1),
        ) == Some(req.old_password@) && m@[1].0@ == "newPassword"@ && str_of(Some(m@[1].1)) == Some(
            req.new_password@,
        ),
{
    let mut m: Vec<(String, JsonValue)> = Vec::new();
    m.push(str_member("oldPassword", req.old_password.as_str()));
    m.push(str_member("newPassword", req.new_password.as_str()));
    JsonValue::Object(m)
}

/// The payload of a reply of the account service: its `result`, else its
/// `data`, else the whole reply.
pub open spec fn spec_payload(data: JsonValue) -> JsonValue {
    match field(data, "result"@) {
        Some(r) => r,
        None => match field(data, "data"@) {
            Some(d) => d,
            None => data,
        },
    }
}

pub fn payload(data: &JsonValue) -> (r: &JsonValue)
    ensures
        *r == spec_payload(*data),
{
    match data.get("result") {
        Some(r) => r,
        None => match data.get("data") {
            Some(d) => d,
            None => data,
        },
    }
}

/// What a login reply leads to.
pub enum LoginStep {
    /// Refused, with the message to show.
    Refused { message: String },
    /// Accepted: the remote token to pass on.
    Accepted { remote_token: String },
}

/// The remote token of a login reply, empty when there is none.
pub open spec fn spec_remote_token(data: JsonValue) -> Seq<char> {
    match str_of(field(spec_payload(data), "token"@)) {
        Some(t) => t,
        None => Seq::empty(),
    }
}

/// A login reply without a token is refused with its `message` (or
/// `登录失败`); one with a token is accepted.
pub fn login_step(data: &JsonValue) -> (r: LoginStep)
    ensures
        spec_remote_token(*data).len() == 0 ==> (r matches LoginStep::Refused { message } && message@
            == match str_of(field(*data, "message"@)) {
            Some(m) => m,
            None => "登录失败"@,
        }),
        spec_remote_token(*data).len() != 0 ==> (r matches LoginStep::Accepted { remote_token }
            && remote_token@ == spec_remote_token(*data)),
{
    let p = payload(data);
    let token = match p.get("token") {
        Some(t) => match t.as_str() {
            Some(s) => s,
            None => String::new(),
        },
        None => String::new(),
    };
    if token.as_str().is_empty() {
        let message = match data.get("message") {
            Some(m) => match m.as_str() {
                Some(s) => s,
                None => "登录失败".to_owned(),
            },
            None => "登录失败".to_owned(),
        };
        LoginStep::Refused { message }
    } else {
        LoginStep::Accepted { remote_token: token }
    }
}

/// The user record of an accepted login reply, when it has one.
pub fn login_user(data: &JsonValue) -> (r: Option<&JsonValue>)
    ensures
        match field(spec_payload(*data), "user"@) {
            Some(u) => r is Some && *r.unwrap() == u,
            None => r is None,
        },
{
    payload(data).get("user")
}

/// The fields of the local identity made from a user record.
pub struct VisitorFields {
    pub id: u64,
    pub mobile: String,
    pub name: String,
    pub avatar: String,
}

/// The text at `v[first]` when that member exists, at `v[second]` otherwise; empty when not text.
pub open spec fn first_present_str(v: JsonValue, first: Seq<char>, second: Seq<char>) -> Seq<char> {
    let x = match field(v, first) {
        Some(a) => Some(a),
        None => field(v, second),
    };
    match str_of(x) {
        Some(s) => s,
        None => Seq::empty(),
    }
}

fn text_at(v: &JsonValue, key: &str) -> (r: String)
    ensures
        r@ == match str_of(field(*v, key@)) {
            Some(s) => s,
            None => Seq::empty(),
        },
{
    match v.get(key) {
        Some(x) => match x.as_str() {
            Some(s) => s,
            None => String::new(),
        },
        None => String::new(),
    }
}

fn text_first_present(v: &JsonValue, first: &str, second: &str) -> (r: String)
    ensures
        r@ == first_present_str(*v, first@, second@),
{
    let x = match v.get(first) {
        Some(a) => Some(a),
        None => v.get(second),
    };
    match x {
        Some(y) => match y.as_str() {
            Some(s) => s,
            None => String::new(),
        },
        None => String::new(),
    }
}

/// The identity fields of a user record: `id` (0 unless a non-negative
/// integer), `mobile`, `name` (else `nickname`) and `avatar` (else `avatar_url`).
pub fn visitor_fields(user: &JsonValue) -> (f: VisitorFields)
    ensures
        f.id == match u64_of(field(*user, "id"@)) {
            Some(n) => n,
            None => 0,
        },
        f.mobile@ == match str_of(field(*user, "mobile"@)) {
            Some(s) => s,
            None => Seq::empty(),
        },
        f.name@ == first_present_str(*user, "name"@, "nickname"@),
        f.avatar@ == first_present_str(*user, "avatar"@, "avatar_url"@),
{
    let id = match user.get("id") {
        Some(x) => match x.as_u64() {
            Some(n) => n,
            None => 0,
        },
        None => 0,
    };
    VisitorFields {
        id,
        mobile: text_at(user, "mobile"),
        name: text_first_present(user, "name", "nickname"),
        avatar: text_first_present(user, "avatar", "avatar_url"),
    }
}

/// Days a local token stays valid.
pub const LOCAL_TOKEN_DAYS: i64 = 30;

/// The platform code of local identities.
pub const LOCAL_PLATFORM: i8 = 9;

} // verus!
