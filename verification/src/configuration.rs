//! Application settings.
//!
//! Reading the configuration files and environment belongs to the process
//! runner; the library holds the settled values, the environment name
//! parser, and the derived email-client values.

use vstd::prelude::*;

use crate::subscriber_email::{is_valid_email, SubscriberEmail};

verus! {

/// All settings of one process.
#[derive(Debug, Clone)]
pub struct Settings {
    pub database: DatabaseSettings,
    pub application: ApplicationSettings,
    pub email_client: EmailClientSettings,
    pub redis: RedisSettings,
}

/// Where the session store lives.
#[derive(Debug, Clone)]
pub struct RedisSettings {
    pub uri: String,
}

/// Where the HTTP service listens and how it signs.
#[derive(Debug, Clone)]
pub struct ApplicationSettings {
    pub port: u16,
    pub host: String,
    pub base_url: String,
    pub hmac_secret: String,
}

/// How to reach the outbound email provider.
#[derive(Debug, Clone)]
pub struct EmailClientSettings {
    pub base_url: String,
    pub sender_email: String,
    pub authorization_token: String,
    pub timeout_milliseconds: u64,
}

impl EmailClientSettings {
    /// The configured sender address, accepted exactly when it passes the
    /// address check.
    pub fn sender(&self) -> (r: Result<SubscriberEmail, String>)
        ensures
            match r {
                Ok(e) => is_valid_email(self.sender_email@) && e@ == self.sender_email@,
                Err(_) => !is_valid_email(self.sender_email@),
            },
    {
        SubscriberEmail::parse(self.sender_email.clone())
    }

    /// The configured client timeout, in milliseconds.
    pub fn timeout(&self) -> (r: u64)
        ensures
            r == self.timeout_milliseconds,
    {
        self.timeout_milliseconds
    }
}

/// How to reach the database.
#[derive(Debug, Clone)]
pub struct DatabaseSettings {
    pub username: String,
    pub password: String,
    pub port: u16,
    pub host: String,
    pub database_name: String,
    pub require_ssl: bool,
}

/// The base URL under which the service is reachable from outside.
#[derive(Debug, Clone)]
pub struct ApplicationBaseUrl(pub String);

/// The running environment.
#[derive(Clone, Copy, Debug, PartialEq, Eq, Structural)]
pub enum Environment {
    Local,
    Production,
}

/// Whether `a` is `b` up to ASCII case; `b` is the lowercase pattern.
pub open spec fn char_eq_ignore_ascii_case(a: char, b: char) -> bool {
    a == b || ('a' <= b && b <= 'z' && 'A' <= a && a <= 'Z' && (a as u32) + 32 == (b as u32))
}

/// Whether `s` spells `t` up to ASCII case; `t` is the lowercase pattern.
pub open spec fn eq_ignore_ascii_case(s: Seq<char>, t: Seq<char>) -> bool {
    s.len() == t.len() && forall|i: int|
        0 <= i < s.len() ==> char_eq_ignore_ascii_case(#[trigger] s[i], t[i])
}

/// Whether `s` spells `t` up to ASCII case, decided character by
/// character.
fn str_eq_ignore_ascii_case(s: &str, t: &str) -> (r: bool)
    ensures
        r == eq_ignore_ascii_case(s@, t@),
{
    let n = s.unicode_len();
    if n != t.unicode_len() {
        return false;
    }
    let mut i: usize = 0;
    while i < n
        invariant
            i <= n,
            n == s@.len(),
            n == t@.len(),
            forall|j: int| 0 <= j < i ==> char_eq_ignore_ascii_case(#[trigger] s@[j], t@[j]),
        decreases n - i,
    {
        let a = s.get_char(i);
        let b = t.get_char(i);
        let same = a == b || ('a' <= b && b <= 'z' && 'A' <= a && a <= 'Z' && (a as u32) + 32 == (
        b as u32));
        if !same {
            return false;
        }
        i = i + 1;
    }
    true
}

impl Environment {
    /// The canonical name of each environment.
    pub fn as_str(&self) -> (r: &'static str)
        ensures
            match self {
                Environment::Local => r@ == "local"@,
                Environment::Production => r@ == "production"@,
            },
    {
        match self {
            Environment::Local => "local",
            Environment::Production => "production",
        }
    }

    /// Parses an environment name, ignoring ASCII case; anything else is
    /// rejected with the offending name in the complaint.
    pub fn try_from(s: String) -> (r: Result<Environment, String>)
        ensures
            match r {
                Ok(Environment::Local) => eq_ignore_ascii_case(s@, "local"@),
                Ok(Environment::Production) => eq_ignore_ascii_case(s@, "production"@),
                Err(m) => {
                    &&& !eq_ignore_ascii_case(s@, "local"@)
                    &&& !eq_ignore_ascii_case(s@, "production"@)
                    &&& m@ == s@
                        + " is not a supported environment. Use either `local` or `production`."@
                },
            },
    {
        if str_eq_ignore_ascii_case(s.as_str(), "local") {
            Ok(Environment::Local)
        } else if str_eq_ignore_ascii_case(s.as_str(), "production") {
            Ok(Environment::Production)
        } else {
            Err(s.concat(" is not a supported environment. Use either `local` or `production`."))
        }
    }
}

} // verus!
