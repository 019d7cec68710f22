//! Connection settings of the Supabase project (the anon key only).

use crate::text::{concat, owned};
use vstd::prelude::*;
use vstd::string::*;

verus! {

/// The desktop app's OAuth redirect.
pub const DESKTOP_REDIRECT_URI: &'static str = "com.celix.core.desktop://login-callback";

/// Where the Supabase project is and how the app signs in to it.
#[derive(Debug, Clone)]
pub struct SupabaseConfig {
    pub url: String,
    pub anon_key: String,
    pub redirect_uri: String,
}

/// Why the settings are unusable.
#[derive(Debug, Clone, Copy, PartialEq, Eq, Structural)]
pub enum ConfigError {
    MissingUrl,
    MissingAnonKey,
    Empty,
}

impl ConfigError {
    /// The error's message, as `Display` would print it.
    pub fn message(&self) -> (r: String)
        ensures
            r@ == match self {
                ConfigError::MissingUrl => "SUPABASE_URL not set"@,
                ConfigError::MissingAnonKey => "SUPABASE_ANON_KEY not set"@,
                ConfigError::Empty => "supabase config is empty"@,
            },
    {
        match self {
            ConfigError::MissingUrl => owned("SUPABASE_URL not set"),
            ConfigError::MissingAnonKey => owned("SUPABASE_ANON_KEY not set"),
            ConfigError::Empty => owned("supabase config is empty"),
        }
    }
}

/// `s` without its trailing slashes (`trim_end_matches('/')`).
pub open spec fn trim_trailing_slashes(s: Seq<char>) -> Seq<char>
    decreases s.len(),
{
    if s.len() > 0 && s.last() == '/' {
        trim_trailing_slashes(s.drop_last())
    } else {
        s
    }
}

/// `s` without its trailing slashes.
pub fn trim_end_slashes(s: &str) -> (r: String)
    ensures
        r@ == trim_trailing_slashes(s@),
{
    let mut end: usize = s.unicode_len();
    assert(s@.subrange(0, end as int) =~= s@);
    while end > 0 && s.get_char(end - 1) == '/'
        invariant
            end <= s@.len(),
            trim_trailing_slashes(s@.subrange(0, end as int)) == trim_trailing_slashes(s@),
        decreases end,
    {
        assert(s@.subrange(0, end as int).drop_last() =~= s@.subrange(0, end - 1));
        end = end - 1;
    }
    owned(s.substring_char(0, end))
}

impl SupabaseConfig {
    /// Settings with no project: empty URL and key, the desktop redirect.
    pub fn empty() -> (r: SupabaseConfig)
        ensures
            r.url@.len() == 0,
            r.anon_key@.len() == 0,
            r.redirect_uri@ == DESKTOP_REDIRECT_URI@,
    {
        proof {
            reveal_strlit("");
        }
        SupabaseConfig { url: owned(""), anon_key: owned(""), redirect_uri: owned(DESKTOP_REDIRECT_URI) }
    }

    /// Settings from the values of `SUPABASE_URL`, `SUPABASE_ANON_KEY` and
    /// `OAUTH_REDIRECT_URI`: the URL and key must be set and not empty; the
    /// URL loses its trailing slashes; the redirect defaults to the desktop
    /// one.
    pub fn from_values(url: Option<String>, anon_key: Option<String>, redirect_uri: Option<String>) -> (r: Result<SupabaseConfig, ConfigError>)
        ensures
            match (url, anon_key) {
                (None, _) => r == Err::<SupabaseConfig, ConfigError>(ConfigError::MissingUrl),
                (Some(_), None) => r == Err::<SupabaseConfig, ConfigError>(ConfigError::MissingAnonKey),
                (Some(u), Some(k)) => if u@.len() == 0 || k@.len() == 0 {
                    r == Err::<SupabaseConfig, ConfigError>(ConfigError::Empty)
                } else {
                    r matches Ok(c) && c.url@ == trim_trailing_slashes(u@) && c.anon_key@ == k@
                        && c.redirect_uri@ == match redirect_uri {
                            Some(x) => x@,
                            None => DESKTOP_REDIRECT_URI@,
                        }
                },
            },
    {
        let url = match url {
            Some(u) => u,
            None => return Err(ConfigError::MissingUrl),
        };
        let anon_key = match anon_key {
            Some(k) => k,
            None => return Err(ConfigError::MissingAnonKey),
        };
        let redirect_uri = match redirect_uri {
            Some(x) => x,
            None => owned(DESKTOP_REDIRECT_URI),
        };
        if url.as_str().unicode_len() == 0 || anon_key.as_str().unicode_len() == 0 {
            return Err(ConfigError::Empty);
        }
        Ok(SupabaseConfig { url: trim_end_slashes(url.as_str()), anon_key, redirect_uri })
    }

    /// Whether a project is set: URL and key not empty.
    pub fn is_configured(&self) -> (r: bool)
        ensures
            r == (self.url@.len() > 0 && self.anon_key@.len() > 0),
    {
        self.url.as_str().unicode_len() > 0 && self.anon_key.as_str().unicode_len() > 0
    }

    /// The URL of an auth endpoint: the project URL, `/auth/v1`, the path.
    pub fn auth_url(&self, path: &str) -> (r: String)
        ensures
            r@ == self.url@ + "/auth/v1"@ + path@,
    {
        let mut r = concat(self.url.as_str(), "/auth/v1");
        r.append(path);
        r
    }

    /// The REST URL of a table: the project URL, `/rest/v1/`, the table.
    pub fn rest_url(&self, table: &str) -> (r: String)
        ensures
            r@ == self.url@ + "/rest/v1/"@ + table@,
    {
        let mut r = concat(self.url.as_str(), "/rest/v1/");
        r.append(table);
        r
    }
}

} // verus!
