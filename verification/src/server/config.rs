//! How the HTTP server is set up from its configuration.
use vstd::prelude::*;
use crate::strings::{decimal_string, decimal_text};
use crate::text::{from_chars, push_str};

verus! {

pub struct ServerConfig {
    pub host: String,
    pub port: u16,
    pub cors_origins: Vec<String>,
    pub static_dir: Option<String>,
}

/// The cross-origin policy the server applies.
pub enum CorsPolicy {
    /// Embedded use (no origins configured): any origin, method and header.
    AllowAny,
    /// GET, POST, PUT and DELETE from the configured origins only.
    Origins(Vec<String>),
}

impl ServerConfig {
    /// `host:port`, the address the server binds.
    pub fn bind_address(&self) -> (r: String)
        ensures
            r@ == self.host@ + ":"@ + decimal_text(self.port as nat),
    {
        let mut out: Vec<char> = Vec::new();
        push_str(&mut out, self.host.as_str());
        push_str(&mut out, ":");
        let p = decimal_string(self.port as u64);
        push_str(&mut out, p.as_str());
        from_chars(&out)
    }

    /// The directory of static files, `./web/dist` unless configured.
    pub fn static_dir_or_default(&self) -> (r: String)
        ensures
            r@ == match self.static_dir {
                Some(d) => d@,
                None => "./web/dist"@,
            },
    {
        match &self.static_dir {
            Some(d) => d.clone(),
            None => "./web/dist".to_owned(),
        }
    }

    /// Without configured origins the server is embedded and allows any
    /// origin; otherwise only the configured ones.
    pub fn cors_policy(&self) -> (r: CorsPolicy)
        ensures
            self.cors_origins@.len() == 0 ==> r is AllowAny,
            self.cors_origins@.len() != 0 ==> (r matches CorsPolicy::Origins(o) && o@ == self.cors_origins@),
    {
        if self.cors_origins.len() == 0 {
            CorsPolicy::AllowAny
        } else {
            let mut o: Vec<String> = Vec::new();
            let mut i: usize = 0;
            while i < self.cors_origins.len()
                invariant
                    i <= self.cors_origins@.len(),
                    o@ == self.cors_origins@.take(i as int),
                decreases self.cors_origins@.len() - i,
            {
                o.push(self.cors_origins[i].clone());
                i = i + 1;
                assert(self.cors_origins@.take(i as int) == self.cors_origins@.take(i - 1).push(self.cors_origins@[i - 1]));
            }
            assert(self.cors_origins@.take(self.cors_origins@.len() as int) == self.cors_origins@);
            CorsPolicy::Origins(o)
        }
    }
}

/// Seconds a CORS preflight answer may be cached.
pub const CORS_MAX_AGE_SECS: u32 = 3600;

/// Worker threads of the HTTP server.
pub const SERVER_WORKERS: u32 = 4;

/// Seconds an idle connection is kept open.
pub const KEEP_ALIVE_SECS: u32 = 5;

} // verus!
