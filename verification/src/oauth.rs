//! The PKCE sign-in flow with Apple: the authorize URL with its code
//! challenge, and the code in the callback URL.

use crate::config::SupabaseConfig;
use crate::json::{members, JsonValue, JsonView};
use crate::text::{owned, str_eq};
use vstd::prelude::*;
use vstd::string::*;

verus! {

/// Where to send the user, and the verifier to exchange the code with.
#[derive(Debug, Clone)]
pub struct OAuthStart {
    pub authorize_url: String,
    pub code_verifier: String,
}

/// The sign-in flow.
pub struct OAuthFlow;

/// Why a callback URL gives no code.
#[derive(Debug, Clone, Copy, PartialEq, Eq, Structural)]
pub enum OAuthError {
    InvalidCallback,
    MissingCode,
}

impl OAuthError {
    /// The error's message, as `Display` would print it.
    pub fn message(&self) -> (r: String)
        ensures
            r@ == match self {
                OAuthError::InvalidCallback => "invalid OAuth callback URL"@,
                OAuthError::MissingCode => "authorization code missing from callback"@,
            },
    {
        match self {
            OAuthError::InvalidCallback => owned("invalid OAuth callback URL"),
            OAuthError::MissingCode => owned("authorization code missing from callback"),
        }
    }
}

/// The SHA-256 digest of some bytes (`sha2::Sha256::digest`).
pub uninterp spec fn sha256_digest(data: Seq<u8>) -> Seq<u8>;

/// The character of a 6-bit value in the URL-safe base64 alphabet: `A`-`Z`,
/// `a`-`z`, `0`-`9`, `-`, `_`.
pub open spec fn base64url_char(v: int) -> char {
    if v < 26 {
        (0x41 + v) as char
    } else if v < 52 {
        (0x61 + v - 26) as char
    } else if v < 62 {
        (0x30 + v - 52) as char
    } else if v == 62 {
        '-'
    } else {
        '_'
    }
}

/// The URL-safe base64 text of some bytes, without padding
/// (`base64::engine::general_purpose::URL_SAFE_NO_PAD`): each group of three
/// bytes becomes four characters, six bits each, most significant first; a
/// last group of two bytes becomes three characters, and of one byte two,
/// the missing bits being zero.
pub open spec fn base64url_text(data: Seq<u8>) -> Seq<char>
    decreases data.len(),
{
    if data.len() >= 3 {
        let n = data[0] as int * 65536 + data[1] as int * 256 + data[2] as int;
        seq![base64url_char(n / 262144), base64url_char((n / 4096) % 64), base64url_char((n / 64) % 64),
            base64url_char(n % 64)] + base64url_text(data.subrange(3, data.len() as int))
    } else if data.len() == 2 {
        let n = data[0] as int * 256 + data[1] as int;
        seq![base64url_char(n / 1024), base64url_char((n / 16) % 64), base64url_char((n % 16) * 4)]
    } else if data.len() == 1 {
        seq![base64url_char(data[0] as int / 4), base64url_char((data[0] as int % 4) * 16)]
    } else {
        Seq::empty()
    }
}

/// A URL as `url::Url::parse` reads it: its scheme, its serialization, and
/// the name-value pairs of its query.
pub struct UrlView {
    pub scheme: Seq<char>,
    pub serialized: Seq<char>,
    pub query_pairs: Seq<(Seq<char>, Seq<char>)>,
}

/// What `url::Url::parse` gives for a text: the URL, or the error's message.
pub uninterp spec fn url_parse(text: Seq<char>) -> Result<UrlView, Seq<char>>;

/// A parsed URL.
pub struct ParsedUrl {
    pub scheme: String,
    pub serialized: String,
    pub query_pairs: Vec<(String, String)>,
}

/// The views of name-value pairs.
pub open spec fn pair_views(p: Seq<(String, String)>) -> Seq<(Seq<char>, Seq<char>)> {
    p.map_values(|x: (String, String)| (x.0@, x.1@))
}

/// Parses a URL with `url::Url::parse`, keeping its scheme, its
/// serialization (`to_string`) and its decoded query pairs
/// (`query_pairs`); a refusal carries the error's message.
#[verifier::external_body]
pub fn parse_url(text: &str) -> (r: Result<ParsedUrl, String>)
    ensures
        match r {
            Ok(u) => url_parse(text@) == Ok::<UrlView, Seq<char>>(UrlView {
                scheme: u.scheme@,
                serialized: u.serialized@,
                query_pairs: pair_views(u.query_pairs@),
            }),
            Err(m) => url_parse(text@) == Err::<UrlView, Seq<char>>(m@),
        },
{
    match url::Url::parse(text) {
        Ok(u) => Ok(ParsedUrl {
            scheme: u.scheme().to_string(),
            serialized: u.to_string(),
            query_pairs: u.query_pairs().map(|(k, v)| (k.into_owned(), v.into_owned())).collect(),
        }),
        Err(e) => Err(e.to_string()),
    }
}

/// The SHA-256 digest of `data`: 32 bytes.
#[verifier::external_body]
pub fn sha256(data: &[u8]) -> (r: Vec<u8>)
    ensures
        r@ == sha256_digest(data@),
        r@.len() == 32,
{
    <sha2::Sha256 as sha2::Digest>::digest(data).to_vec()
}

/// The URL-safe base64 text of `data`, without padding
/// (`URL_SAFE_NO_PAD.encode`; see `base64url_text`).
#[verifier::external_body]
pub fn base64url_nopad(data: &[u8]) -> (r: String)
    ensures
        r@ == base64url_text(data@),
{
    base64::Engine::encode(&base64::engine::general_purpose::URL_SAFE_NO_PAD, data)
}

/// 32 bytes from the thread-local generator of `rand` (`rand::rng`,
/// `fill_bytes`). Nothing is said of their values.
#[verifier::external_body]
pub fn random_bytes32() -> (r: Vec<u8>)
    ensures
        r@.len() == 32,
{
    let mut bytes = [0u8; 32];
    rand::RngCore::fill_bytes(&mut rand::rng(), &mut bytes);
    bytes.to_vec()
}

/// Whether a byte is left as it is by percent-encoding: ASCII letters and
/// digits, `-`, `.`, `_` and `~`.
pub open spec fn unreserved(b: u8) -> bool {
    (0x30 <= b <= 0x39) || (0x41 <= b <= 0x5a) || (0x61 <= b <= 0x7a) || b == 0x2d || b == 0x2e || b == 0x5f || b == 0x7e
}

/// The upper-case hex digit of a value below 16.
pub open spec fn hex_digit(d: u8) -> char {
    if d < 10 {
        (0x30 + d) as char
    } else {
        (0x41 - 10 + d) as char
    }
}

/// Percent-encoding of bytes: unreserved bytes as their character, every
/// other byte as `%` and two upper-case hex digits.
pub open spec fn percent_encode(data: Seq<u8>) -> Seq<char>
    decreases data.len(),
{
    if data.len() == 0 {
        Seq::empty()
    } else {
        percent_encode(data.drop_last()) + if unreserved(data.last()) {
            seq![data.last() as char]
        } else {
            seq!['%', hex_digit(data.last() / 16), hex_digit(data.last() % 16)]
        }
    }
}

/// Percent-encodes the UTF-8 bytes of `s` with `urlencoding::encode`: every
/// byte but ASCII letters, digits, `-`, `.`, `_` and `~` becomes `%` and two
/// upper-case hex digits.
#[verifier::external_body]
pub fn url_encode(s: &str) -> (r: String)
    ensures
        r@ == percent_encode(vstd::utf8::encode_utf8(s@)),
{
    urlencoding::encode(s).into_owned()
}

/// The PKCE challenge of a verifier: the URL-safe base64 text, without
/// padding, of the SHA-256 digest of its UTF-8 bytes.
pub open spec fn spec_challenge(verifier: Seq<char>) -> Seq<char> {
    base64url_text(sha256_digest(vstd::utf8::encode_utf8(verifier)))
}

/// The PKCE challenge of a verifier (see `spec_challenge`).
pub fn challenge_s256(verifier: &str) -> (r: String)
    ensures
        r@ == spec_challenge(verifier@),
{
    let bytes = verifier.as_bytes();
    let digest = sha256(bytes);
    base64url_nopad(digest.as_slice())
}

/// A fresh verifier: 32 random bytes in URL-safe base64, without padding.
pub fn generate_verifier() -> (r: String)
    ensures
        exists|b: Seq<u8>| b.len() == 32 && r@ == #[trigger] base64url_text(b),
{
    let bytes = random_bytes32();
    base64url_nopad(bytes.as_slice())
}

/// The authorize URL for Apple with a challenge: the auth endpoint
/// `/authorize`, the provider, the percent-encoded redirect, the challenge,
/// and the method `s256`.
pub open spec fn spec_authorize_url(config: SupabaseConfig, challenge: Seq<char>) -> Seq<char> {
    config.url@ + "/auth/v1"@ + "/authorize"@ + "?provider=apple&redirect_to="@
        + percent_encode(vstd::utf8::encode_utf8(config.redirect_uri@)) + "&code_challenge="@ + challenge
        + "&code_challenge_method=s256"@
}

/// The last value of query parameter `code`, if any.
pub open spec fn last_code(pairs: Seq<(Seq<char>, Seq<char>)>) -> Option<Seq<char>>
    decreases pairs.len(),
{
    if pairs.len() == 0 {
        None
    } else if pairs.last().0 == "code"@ {
        Some(pairs.last().1)
    } else {
        last_code(pairs.drop_last())
    }
}

impl OAuthFlow {
    /// Starts sign-in with Apple: a fresh verifier, and the authorize URL
    /// carrying its challenge.
    pub fn start_apple(config: &SupabaseConfig) -> (r: OAuthStart)
        ensures
            r.authorize_url@ == spec_authorize_url(*config, spec_challenge(r.code_verifier@)),
            exists|b: Seq<u8>| b.len() == 32 && r.code_verifier@ == #[trigger] base64url_text(b),
    {
        let code_verifier = generate_verifier();
        let challenge = challenge_s256(code_verifier.as_str());
        let redirect = url_encode(config.redirect_uri.as_str());
        let mut url = config.auth_url("/authorize");
        url.append("?provider=apple&redirect_to=");
        url.append(redirect.as_str());
        url.append("&code_challenge=");
        url.append(challenge.as_str());
        url.append("&code_challenge_method=s256");
        OAuthStart { authorize_url: url, code_verifier }
    }

    /// The request that exchanges an authorization code for a session: the
    /// auth endpoint `/token?grant_type=pkce`, and a body with the code and
    /// the verifier.
    pub fn token_request(config: &SupabaseConfig, code: &str, code_verifier: &str) -> (r: (String, Vec<(String, JsonValue)>))
        ensures
            r.0@ == config.url@ + "/auth/v1"@ + "/token?grant_type=pkce"@,
            members(r.1@) == seq![("auth_code"@, JsonView::Str(code@)), ("code_verifier"@, JsonView::Str(code_verifier@))],
    {
        let url = config.auth_url("/token?grant_type=pkce");
        let body = vec![
            (owned("auth_code"), JsonValue::Str(owned(code))),
            (owned("code_verifier"), JsonValue::Str(owned(code_verifier))),
        ];
        assert(members(body@) =~= seq![("auth_code"@, JsonView::Str(code@)), ("code_verifier"@, JsonView::Str(code_verifier@))]);
        (url, body)
    }

    /// The authorization code in a callback URL: the last `code` query
    /// parameter; refused when the URL does not parse or has no code.
    pub fn parse_callback_code(callback_url: &str) -> (r: Result<String, OAuthError>)
        ensures
            match url_parse(callback_url@) {
                Err(_) => r == Err::<String, OAuthError>(OAuthError::InvalidCallback),
                Ok(u) => match last_code(u.query_pairs) {
                    Some(c) => r matches Ok(s) && s@ == c,
                    None => r == Err::<String, OAuthError>(OAuthError::MissingCode),
                },
            },
    {
        let parsed = match parse_url(callback_url) {
            Ok(u) => u,
            Err(_) => return Err(OAuthError::InvalidCallback),
        };
        let ghost pairs = pair_views(parsed.query_pairs@);
        let mut code: Option<String> = None;
        let mut i: usize = 0;
        assert(pairs.take(0) =~= Seq::<(Seq<char>, Seq<char>)>::empty());
        while i < parsed.query_pairs.len()
            invariant
                i <= parsed.query_pairs@.len(),
                pairs == pair_views(parsed.query_pairs@),
                crate::text::opt_view(code) == last_code(pairs.take(i as int)),
            decreases parsed.query_pairs.len() - i,
        {
            proof {
                assert(pairs.take(i + 1).drop_last() =~= pairs.take(i as int));
                assert(pairs.take(i + 1).last() == pairs[i as int]);
            }
            if str_eq(parsed.query_pairs[i].0.as_str(), "code") {
                code = Some(parsed.query_pairs[i].1.clone());
            }
            i = i + 1;
        }
        assert(pairs.take(pairs.len() as int) =~= pairs);
        match code {
            Some(c) => Ok(c),
            None => Err(OAuthError::MissingCode),
        }
    }
}

} // verus!
