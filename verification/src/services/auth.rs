//! Password authentication of the local service.
use vstd::prelude::*;
use vstd::utf8::encode_utf8_decode_utf8;
use crate::json::str_eq;
use crate::services::error::{unsupported_method, ServiceError};

verus! {

/// The methods the service answers.
#[derive(Clone, Copy, PartialEq, Eq, Structural, Debug)]
pub enum AuthMethod {
    Status,
    Login,
    ChangePassword,
    Logout,
    Settings,
}

/// The method named `name`.
pub open spec fn auth_method_named(name: Seq<char>) -> Option<AuthMethod> {
    if name == "status"@ {
        Some(AuthMethod::Status)
    } else if name == "login"@ {
        Some(AuthMethod::Login)
    } else if name == "change_password"@ {
        Some(AuthMethod::ChangePassword)
    } else if name == "logout"@ {
        Some(AuthMethod::Logout)
    } else if name == "settings"@ {
        Some(AuthMethod::Settings)
    } else {
        None
    }
}

pub struct AuthService {}

impl AuthService {
    pub fn new() -> (s: Self) {
        AuthService {}
    }

    /// The method a request names; an unknown one is a routing error
    /// `auth不支持方法: <method>`.
    pub fn dispatch(&self, method: &str) -> (r: Result<AuthMethod, ServiceError>)
        ensures
            match auth_method_named(method@) {
                Some(m) => r == Ok::<AuthMethod, ServiceError>(m),
                None => r matches Err(ServiceError::ApiRouting(msg)) && msg@ == "auth不支持方法: "@ + method@,
            },
    {
        let r = if str_eq(method, "status") {
            Some(AuthMethod::Status)
        } else if str_eq(method, "login") {
            Some(AuthMethod::Login)
        } else if str_eq(method, "change_password") {
            Some(AuthMethod::ChangePassword)
        } else if str_eq(method, "logout") {
            Some(AuthMethod::Logout)
        } else if str_eq(method, "settings") {
            Some(AuthMethod::Settings)
        } else {
            None
        };
        match r {
            Some(m) => Ok(m),
            None => Err(unsupported_method("auth不支持方法: ", method)),
        }
    }
}


/// Compares two passwords in time that depends on their length only: every
/// byte pair is looked at, whatever was found before.
pub fn constant_time_eq(a: &str, b: &str) -> (r: bool)
    ensures
        r == (a@ == b@),
{
    let x = a.as_bytes();
    let y = b.as_bytes();
    proof {
        encode_utf8_decode_utf8(a@);
        encode_utf8_decode_utf8(b@);
    }
    if x.len() != y.len() {
        return false;
    }
    let mut acc: u8 = 0;
    let mut i: usize = 0;
    while i < x.len()
        invariant
            x@.len() == y@.len(),
            i <= x@.len(),
            (acc == 0) == (forall|k: int| 0 <= k < i ==> #[trigger] x@[k] == y@[k]),
        decreases x@.len() - i,
    {
        let p = x[i];
        let q = y[i];
        let next = acc | (p ^ q);
        assert((next == 0) == (acc == 0 && p == q)) by (bit_vector)
            requires
                next == acc | (p ^ q),
        ;
        acc = next;
        i = i + 1;
    }
    if acc == 0 {
        assert(x@ == y@);
    } else {
        assert(x@ != y@) by {
            let k = choose|k: int| 0 <= k < x@.len() && x@[k] != y@[k];
        }
    }
    acc == 0
}

/// A lower-case hexadecimal digit.
pub open spec fn is_lower_hex(c: char) -> bool {
    ('0' <= c <= '9') || ('a' <= c <= 'f')
}

/// The hyphenated text of a random (version 4) UUID: 36 characters, hyphens
/// at 8, 13, 18 and 23, lower-case hex digits elsewhere, `4` at 14.
pub open spec fn is_v4_uuid_text(s: Seq<char>) -> bool {
    &&& s.len() == 36
    &&& forall|i: int| 0 <= i < 36 ==> if i == 8 || i == 13 || i == 18 || i == 23 {
        s[i] == '-'
    } else {
        is_lower_hex(#[trigger] s[i])
    }
    &&& s[14] == '4'
}

/// `uuid::Uuid::new_v4().to_string()`: a fresh random token. What it holds
/// is left to chance; its shape is what the `Display` impl of `Uuid` writes.
#[verifier::external_body]
fn random_token() -> (t: String)
    ensures
        is_v4_uuid_text(t@),
{
    uuid::Uuid::new_v4().to_string()
}

/// How a login attempt ends.
pub enum LoginReply {
    /// No password is configured: any attempt is let in with the fixed
    /// token `no-auth-required`.
    NoPasswordRequired,
    /// The password matched; the session gets `token`.
    Authenticated { token: String },
    /// The password did not match (`密码错误`).
    WrongPassword,
}

/// The text sent for a login that needs no password.
pub open spec fn no_auth_token() -> Seq<char> {
    "no-auth-required"@
}

impl LoginReply {
    /// The token the reply hands the client: the fixed one where no password
    /// is needed, the fresh one after a match, none after a mismatch.
    pub fn session_token(&self) -> (t: Option<String>)
        ensures
            self is NoPasswordRequired ==> (t matches Some(s) && s@ == no_auth_token()),
            self matches LoginReply::Authenticated { token } ==> (t matches Some(s) && s@ == token@),
            self is WrongPassword ==> t is None,
    {
        match self {
            LoginReply::NoPasswordRequired => Some("no-auth-required".to_owned()),
            LoginReply::Authenticated { token } => Some(token.clone()),
            LoginReply::WrongPassword => None,
        }
    }
}

impl AuthService {
    /// Checks `password` against `expected`, the configured password (empty
    /// when none is). A match gets a fresh random token.
    pub fn login(&self, password: &str, expected: &str) -> (r: LoginReply)
        ensures
            expected@.len() == 0 ==> r is NoPasswordRequired,
            expected@.len() != 0 && password@ == expected@ ==> (r matches LoginReply::Authenticated { token }
                && is_v4_uuid_text(token@)),
            expected@.len() != 0 && password@ != expected@ ==> r is WrongPassword,
    {
        if expected.is_empty() {
            return LoginReply::NoPasswordRequired;
        }
        if constant_time_eq(password, expected) {
            LoginReply::Authenticated { token: random_token() }
        } else {
            LoginReply::WrongPassword
        }
    }

    /// Whether a password change may go ahead: the new password must not be
    /// empty (`请提供新密码`), and where a password is configured the old one
    /// must match it (`原密码错误`).
    pub fn check_password_change(&self, old_password: &str, new_password: &str, expected: &str) -> (r: Result<(), ServiceError>)
        ensures
            new_password@.len() == 0 ==> (r matches Err(ServiceError::Validation(m)) && m@ == "请提供新密码"@),
            new_password@.len() != 0 && expected@.len() != 0 && old_password@ != expected@
                ==> (r matches Err(ServiceError::Validation(m)) && m@ == "原密码错误"@),
            new_password@.len() != 0 && (expected@.len() == 0 || old_password@ == expected@) ==> r is Ok,
    {
        if new_password.is_empty() {
            return Err(ServiceError::Validation("请提供新密码".to_owned()));
        }
        if !expected.is_empty() && !constant_time_eq(old_password, expected) {
            return Err(ServiceError::Validation("原密码错误".to_owned()));
        }
        Ok(())
    }
}

/// The password set through the service, which takes the place of the
/// configured one (the environment's `DSA_PASSWORD`, else the database
/// password of the configuration).
pub struct PasswordStore {
    pub override_password: Option<String>,
}

/// The password a request is checked against: the one set through the
/// service, else `configured`.
pub open spec fn expected_password(store: PasswordStore, configured: Seq<char>) -> Seq<char> {
    match store.override_password {
        Some(p) => p@,
        None => configured,
    }
}

impl PasswordStore {
    pub fn new() -> (s: Self)
        ensures
            s.override_password is None,
    {
        PasswordStore { override_password: None }
    }

    /// The password requests are checked against (see `expected_password`).
    pub fn expected(&self, configured: &str) -> (r: String)
        ensures
            r@ == expected_password(*self, configured@),
    {
        match &self.override_password {
            Some(p) => p.clone(),
            None => configured.to_owned(),
        }
    }
}

impl AuthService {
    /// Changes the password: the checks of `check_password_change` against
    /// the expected password; on success the new password is set and the
    /// answer is `密码已更新`; on failure nothing changes.
    pub fn change_password(&self, store: &mut PasswordStore, old_password: &str, new_password: &str, configured: &str)
        -> (r: Result<String, ServiceError>)
        ensures
            new_password@.len() == 0 ==> (r matches Err(ServiceError::Validation(m)) && m@ == "请提供新密码"@),
            new_password@.len() != 0 && expected_password(*old(store), configured@).len() != 0
                && old_password@ != expected_password(*old(store), configured@)
                ==> (r matches Err(ServiceError::Validation(m)) && m@ == "原密码错误"@),
            new_password@.len() != 0 && (expected_password(*old(store), configured@).len() == 0
                || old_password@ == expected_password(*old(store), configured@))
                ==> (r matches Ok(m) && m@ == "密码已更新"@),
            r is Ok ==> (final(store).override_password matches Some(p) && p@ == new_password@),
            r is Err ==> *final(store) == *old(store),
    {
        let expected = store.expected(configured);
        match self.check_password_change(old_password, new_password, expected.as_str()) {
            Ok(()) => {
                store.override_password = Some(new_password.to_owned());
                Ok("密码已更新".to_owned())
            },
            Err(e) => Err(e),
        }
    }
}

} // verus!
