use sheets_link::authorize::{begin_sign_in, start_sign_in};
use sheets_link::callback::{CallbackListener, ListenerAction};
use sheets_link::config::ProviderConfig;
use sheets_link::error::LinkError;
use sheets_link::session::AuthSession;

fn config() -> ProviderConfig {
    ProviderConfig::new("cid".to_string(), "secret".to_string(), None, None)
}

#[test]
fn start_sign_in_builds_consent_url_and_stores_verifier() {
    let mut session = AuthSession::new();
    let verifier = "dBjftJeZ4CVP-mB92K27uhbUJU1p1r_wW1gFWFOEjXk".to_string();
    let start = start_sign_in(&mut session, &config(), verifier, "csrf123".to_string()).unwrap();
    let url = start.url.as_str();
    assert!(url.starts_with("https://accounts.google.com/o/oauth2/auth?"));
    assert!(url.contains("response_type=code"));
    assert!(url.contains("client_id=cid"));
    assert!(url.contains("state=csrf123"));
    assert!(url.contains("code_challenge=E9Melhoa2OwvFrEMTJguCHaoeK1t8URWbuGJSstw-cM"));
    assert!(url.contains("code_challenge_method=S256"));
    assert!(url.contains("redirect_uri=http%3A%2F%2F127.0.0.1%3A3010%2Fcallback"));
    assert!(url.contains("scope=https%3A%2F%2Fwww.googleapis.com%2Fauth%2Fspreadsheets+https%3A%2F%2Fwww.googleapis.com%2Fauth%2Fdrive"));
    assert!(url.contains("access_type=offline"));
    assert!(url.contains("prompt=consent"));
    assert_eq!(start.csrf_token, "csrf123");
    assert!(session.has_pending_verifier());
    assert_eq!(session.csrf_token(), Some("csrf123".to_string()));
}

#[test]
fn start_sign_in_rejects_bad_endpoint_and_keeps_session() {
    let mut session = AuthSession::new();
    let cfg = ProviderConfig::new("cid".to_string(), String::new(), Some("not a url".to_string()), None);
    let r = start_sign_in(&mut session, &cfg, "a".repeat(43), "s".to_string());
    assert!(matches!(r, Err(LinkError::InvalidEndpoint)));
    assert!(!session.has_pending_verifier());
}

#[test]
fn start_sign_in_rejects_short_verifier() {
    let mut session = AuthSession::new();
    let r = start_sign_in(&mut session, &config(), "a".repeat(42), "s".to_string());
    assert!(matches!(r, Err(LinkError::InvalidVerifier)));
    let r = start_sign_in(&mut session, &config(), "é".repeat(50), "s".to_string());
    assert!(matches!(r, Err(LinkError::InvalidVerifier)));
    assert!(!session.has_pending_verifier());
}

#[test]
fn begin_sign_in_draws_fresh_secrets() {
    let mut session = AuthSession::new();
    let first = begin_sign_in(&mut session, &config()).unwrap();
    let second = begin_sign_in(&mut session, &config()).unwrap();
    assert_ne!(first.csrf_token, second.csrf_token);
    assert_ne!(first.url, second.url);
    assert_eq!(session.csrf_token(), Some(second.csrf_token));
}

#[test]
fn listener_delivers_first_code_and_stops() {
    let mut listener = CallbackListener::new();
    assert!(matches!(listener.on_request("/favicon.ico"), ListenerAction::Ignore));
    assert!(!listener.is_finished());
    match listener.on_request("/callback?state=x&code=abc123&scope=s") {
        ListenerAction::Deliver { code, page } => {
            assert_eq!(code, "abc123");
            assert_eq!(page, "Authentication successful! You can close this window.");
        }
        ListenerAction::Ignore => panic!("code not seen"),
    }
    assert!(listener.is_finished());
    assert_eq!(listener.code(), Some("abc123".to_string()));
}

#[test]
fn listener_decodes_code() {
    let mut listener = CallbackListener::new();
    match listener.on_request("/callback?code=4%2F0Ab%20c") {
        ListenerAction::Deliver { code, .. } => assert_eq!(code, "4/0Ab c"),
        ListenerAction::Ignore => panic!("code not seen"),
    }
}
