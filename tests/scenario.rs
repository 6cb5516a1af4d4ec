use sheets_link::authorize::begin_sign_in;
use sheets_link::callback::{CallbackListener, ListenerAction};
use sheets_link::config::ProviderConfig;
use sheets_link::credential::{Credential, Storage};
use sheets_link::session::AuthSession;
use sheets_link::sheets::{HttpOutcome, Method};
use sheets_link::token::{begin_code_exchange, finish_code_exchange_at, plan_credential_at, CredentialPlan};
use sheets_link::writer::{TableWrite, WriteStep};

#[test]
fn sign_in_exchange_then_write() {
    let config = ProviderConfig::new("cid".to_string(), "secret".to_string(), None, None);
    let mut session = AuthSession::new();
    let mut store = Storage::empty();
    let start = begin_sign_in(&mut session, &config).unwrap();
    assert!(start.url.contains("client_id=cid"));

    let mut listener = CallbackListener::new();
    let code = match listener.on_request("/callback?code=abc123") {
        ListenerAction::Deliver { code, .. } => code,
        ListenerAction::Ignore => panic!("no code"),
    };
    assert_eq!(code, "abc123");

    let request = begin_code_exchange(&mut session, &config, &code).unwrap();
    assert_eq!(request.url, "https://oauth2.googleapis.com/token");
    let now: u64 = 1_700_000_000;
    let reply = r#"{"access_token":"T1","refresh_token":"R1","expires_in":3600}"#;
    let credential = finish_code_exchange_at(&mut store, reply, now).unwrap();
    assert_eq!(credential.expiry, now + 3600);
    assert_eq!(
        store.load_credential(),
        Some(Credential::new("T1".to_string(), "R1".to_string(), now + 3600))
    );

    let bearer = match plan_credential_at(&store, &config, now + 10).unwrap() {
        CredentialPlan::Ready(c) => c.access_token,
        CredentialPlan::Refresh(_) => panic!("fresh credential refreshed"),
    };
    let rows = vec![vec!["a".to_string(), "b".to_string()]];
    let (mut write, ensure) = TableWrite::start("id".to_string(), "Sheet1".to_string(), rows, bearer);
    assert_eq!(ensure.bearer, "T1");
    let put = match write.advance(HttpOutcome::Answered { status: 200, body: "{}".to_string() }) {
        WriteStep::Send(req) => req,
        WriteStep::Finished(r) => panic!("ended before writing: {:?}", r),
    };
    assert_eq!(put.method, Method::Put);
    assert_eq!(put.body.as_deref(), Some(r#"{"values":[["a","b"]]}"#));
    match write.advance(HttpOutcome::Answered { status: 200, body: "{}".to_string() }) {
        WriteStep::Finished(r) => assert_eq!(r, Ok(())),
        WriteStep::Send(_) => panic!("more than one write"),
    }
}
