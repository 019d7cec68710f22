use brian_desktop::config::{trim_end_slashes, ConfigError, SupabaseConfig, DESKTOP_REDIRECT_URI};
use brian_desktop::device::{first_workspace_id, platform_label_for, workspace_query, DeviceRegistrationService};
use brian_desktop::json::{get_str, parse_object};
use brian_desktop::oauth::{base64url_nopad, challenge_s256, generate_verifier, sha256, url_encode, OAuthError, OAuthFlow};
use brian_desktop::session::{session_info_at, session_info_inner, Session, WorkspaceContext};
use brian_desktop::shell::{health, is_signed_in_at};
use brian_desktop::store::SCHEMA_VERSION;

fn config() -> SupabaseConfig {
    SupabaseConfig::from_values(
        Some("https://proj.supabase.co/".to_string()),
        Some("anon".to_string()),
        None,
    )
    .unwrap()
}

fn session(expires_at: i64) -> Session {
    Session {
        access_token: "a".to_string(),
        refresh_token: "r".to_string(),
        expires_at,
        user_id: "user-1".to_string(),
        email: Some("me@example.com".to_string()),
    }
}

#[test]
fn config_from_values() {
    let c = config();
    assert_eq!(c.url, "https://proj.supabase.co");
    assert_eq!(c.anon_key, "anon");
    assert_eq!(c.redirect_uri, DESKTOP_REDIRECT_URI);
    assert!(c.is_configured());
    let s = |v: &str| Some(v.to_string());
    assert_eq!(SupabaseConfig::from_values(None, s("k"), None).unwrap_err(), ConfigError::MissingUrl);
    assert_eq!(SupabaseConfig::from_values(s("u"), None, None).unwrap_err(), ConfigError::MissingAnonKey);
    assert_eq!(SupabaseConfig::from_values(s(""), s("k"), None).unwrap_err(), ConfigError::Empty);
    assert_eq!(SupabaseConfig::from_values(s("u"), s(""), None).unwrap_err(), ConfigError::Empty);
    let custom = SupabaseConfig::from_values(s("u//"), s("k"), s("app://cb")).unwrap();
    assert_eq!(custom.url, "u");
    assert_eq!(custom.redirect_uri, "app://cb");
    assert_eq!(ConfigError::MissingUrl.message(), "SUPABASE_URL not set");
    assert_eq!(ConfigError::MissingAnonKey.message(), "SUPABASE_ANON_KEY not set");
    assert_eq!(ConfigError::Empty.message(), "supabase config is empty");
}

#[test]
fn empty_config_is_not_configured() {
    let c = SupabaseConfig::empty();
    assert!(!c.is_configured());
    assert_eq!(c.redirect_uri, "com.celix.core.desktop://login-callback");
}

#[test]
fn endpoint_urls() {
    let c = config();
    assert_eq!(c.auth_url("/authorize"), "https://proj.supabase.co/auth/v1/authorize");
    assert_eq!(c.rest_url("core_records"), "https://proj.supabase.co/rest/v1/core_records");
    assert_eq!(trim_end_slashes("a/b///"), "a/b");
    assert_eq!(trim_end_slashes("///"), "");
    assert_eq!(trim_end_slashes("a"), "a");
}

#[test]
fn pkce_challenge_is_the_url_safe_sha256_digest() {
    assert_eq!(challenge_s256("abc"), "ungWv48Bz-pBQUDeXa4iI7ADYaOWF3qctBD_YfIAFa0");
    assert_eq!(challenge_s256(""), "47DEQpj8HBSa-_TImW-5JCeuQeRkm5NMpJWZG3hSuFU");
    assert_eq!(
        challenge_s256("dBjftJeZ4CVP-mJ92K9qpbmgkMyqCmr5DaFM76QJ3hRA"),
        "wdj3dYKzDC4ecravHeD6JBW3MpH2wkR0f5ipowt5Z_I"
    );
}

#[test]
fn url_safe_base64_without_padding() {
    assert_eq!(base64url_nopad(b"hello"), "aGVsbG8");
    assert_eq!(base64url_nopad(&[0xfb, 0xff]), "-_8");
    assert_eq!(base64url_nopad(&[0xff]), "_w");
    assert_eq!(base64url_nopad(&[]), "");
    assert_eq!(sha256(b"abc").len(), 32);
    assert_eq!(sha256(b"abc")[0], 0xba);
}

#[test]
fn verifiers_are_43_url_safe_characters() {
    let v = generate_verifier();
    assert_eq!(v.len(), 43);
    assert!(v.chars().all(|c| c.is_ascii_alphanumeric() || c == '-' || c == '_'));
    assert_ne!(v, generate_verifier());
}

#[test]
fn url_encoding_keeps_unreserved_characters() {
    assert_eq!(url_encode("com.celix.core.desktop://login-callback"), "com.celix.core.desktop%3A%2F%2Flogin-callback");
    assert_eq!(url_encode("a b~_"), "a%20b~_");
    assert_eq!(url_encode("é"), "%C3%A9");
}

#[test]
fn apple_sign_in_starts_with_the_challenge() {
    let c = config();
    let start = OAuthFlow::start_apple(&c);
    let expected = format!(
        "https://proj.supabase.co/auth/v1/authorize?provider=apple&redirect_to=com.celix.core.desktop%3A%2F%2Flogin-callback&code_challenge={}&code_challenge_method=s256",
        challenge_s256(&start.code_verifier)
    );
    assert_eq!(start.authorize_url, expected);
}

#[test]
fn callback_code_is_the_last_code_parameter() {
    assert_eq!(
        OAuthFlow::parse_callback_code("com.celix.core.desktop://login-callback?code=abc&state=x").unwrap(),
        "abc"
    );
    assert_eq!(OAuthFlow::parse_callback_code("app://cb?code=1&code=2").unwrap(), "2");
    assert_eq!(OAuthFlow::parse_callback_code("app://cb?state=x").unwrap_err(), OAuthError::MissingCode);
    assert_eq!(OAuthFlow::parse_callback_code("not a url").unwrap_err(), OAuthError::InvalidCallback);
    assert_eq!(OAuthError::InvalidCallback.message(), "invalid OAuth callback URL");
    assert_eq!(OAuthError::MissingCode.message(), "authorization code missing from callback");
}

#[test]
fn token_request_carries_code_and_verifier() {
    let (url, body) = OAuthFlow::token_request(&config(), "c0de", "v3r");
    assert_eq!(url, "https://proj.supabase.co/auth/v1/token?grant_type=pkce");
    assert_eq!(get_str(&body, "auth_code"), Some("c0de".to_string()));
    assert_eq!(get_str(&body, "code_verifier"), Some("v3r".to_string()));
    assert_eq!(body.len(), 2);
}

#[test]
fn sessions_expire_at_their_second() {
    let s = Session::from_token("a".to_string(), "r".to_string(), 3600, "u".to_string(), None, 1_000);
    assert_eq!(s.expires_at, 4_600);
    assert!(!s.is_expired_at(4_599));
    assert!(s.is_expired_at(4_600));
    assert!(session(0).is_expired());
    assert!(!session(i64::MAX).is_expired());
    assert!(is_signed_in_at(Some(&session(10)), 9));
    assert!(!is_signed_in_at(Some(&session(10)), 10));
    assert!(!is_signed_in_at(None, 0));
}

#[test]
fn session_info_reports_user_and_workspace() {
    let mut ws = WorkspaceContext::new();
    assert_eq!(ws.workspace_id(), None);
    ws.set_workspace_id(Some("ws-9".to_string()));
    assert_eq!(ws.workspace_id(), Some("ws-9"));
    let s = session(100);
    let info = session_info_at(Some(&s), &ws, 50);
    assert!(info.signed_in);
    assert_eq!(info.user_id.as_deref(), Some("user-1"));
    assert_eq!(info.email.as_deref(), Some("me@example.com"));
    assert_eq!(info.workspace_id.as_deref(), Some("ws-9"));
    assert!(!session_info_at(Some(&s), &ws, 100).signed_in);
    ws.clear();
    let none = session_info_inner(None, &ws);
    assert!(!none.signed_in);
    assert_eq!((none.user_id, none.email, none.workspace_id), (None, None, None));
    assert_eq!(WorkspaceContext::default().workspace_id, None);
}

#[test]
fn health_report() {
    let h = health(true, false, true);
    assert!(h.ok);
    assert_eq!(h.schema_version, SCHEMA_VERSION);
    assert_eq!(h.schema_version, 14);
    assert!(h.contracts_present && !h.supabase_configured && h.signed_in);
}

#[test]
fn device_registration_requests() {
    assert_eq!(DeviceRegistrationService::usable_cached_id(Some("d1".to_string())), Some("d1".to_string()));
    assert_eq!(DeviceRegistrationService::usable_cached_id(Some(String::new())), None);
    assert_eq!(DeviceRegistrationService::usable_cached_id(None), None);
    let c = config();
    assert_eq!(DeviceRegistrationService::registration_url(&c), "https://proj.supabase.co/rest/v1/devices?select=id");
    assert_eq!(DeviceRegistrationService::touch_url(&c, "d1"), "https://proj.supabase.co/rest/v1/devices?id=eq.d1");
    let body = DeviceRegistrationService::registration_body("u", "w", "Brian Desktop", "linux");
    assert_eq!(get_str(&body, "user_id"), Some("u".to_string()));
    assert_eq!(get_str(&body, "workspace_id"), Some("w".to_string()));
    assert_eq!(get_str(&body, "label"), Some("Brian Desktop".to_string()));
    assert_eq!(get_str(&body, "platform"), Some("linux".to_string()));
    assert!(get_str(&body, "last_seen_at").is_some());
    let touch = DeviceRegistrationService::touch_body();
    assert_eq!(touch.len(), 1);
    assert!(get_str(&touch, "last_seen_at").unwrap().contains('T'));
}

#[test]
fn registration_answers() {
    let row = |t: &str| parse_object(t).unwrap();
    assert_eq!(
        DeviceRegistrationService::registered_id(&vec![row("{\"id\": \"dev-7\"}"), row("{\"id\": \"dev-8\"}")]),
        Ok(Some("dev-7".to_string()))
    );
    assert_eq!(DeviceRegistrationService::registered_id(&vec![]), Ok(None));
    assert_eq!(DeviceRegistrationService::registered_id(&vec![row("{\"id\": 7}")]), Err(()));
    assert_eq!(first_workspace_id(&vec![row("{\"id\": \"ws-1\"}")]), Some("ws-1".to_string()));
    assert_eq!(first_workspace_id(&vec![row("{\"id\": 1}")]), None);
    assert_eq!(first_workspace_id(&vec![]), None);
    assert_eq!(workspace_query("u1"), "?select=id&owner_id=eq.u1&order=created_at.asc&limit=1");
}

#[test]
fn platform_labels() {
    assert_eq!(platform_label_for("windows"), "windows");
    assert_eq!(platform_label_for("macos"), "macos");
    assert_eq!(platform_label_for("linux"), "linux");
    assert_eq!(platform_label_for("freebsd"), "unknown");
}
