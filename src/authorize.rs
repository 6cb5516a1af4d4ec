use vstd::prelude::*;
use oauth2::basic::BasicClient;
use oauth2::{AuthUrl, ClientId, CsrfToken, PkceCodeChallenge, PkceCodeVerifier, RedirectUrl, Scope};
use crate::config::{ProviderConfig, REDIRECT_URI, SCOPE_DRIVE, SCOPE_SPREADSHEETS};
use crate::credential::option_view;
use crate::error::{ErrorModel, LinkError};
use crate::session::{session_begun, AuthSession};
use crate::token::form_view;

verus! {

/// The consent URL that oauth2 builds for a client with these settings, the
/// S256 challenge of `verifier` and the state `csrf`; none where the
/// authorization or redirect address is not a URL.
pub uninterp spec fn authorization_url_of(
    auth_uri: Seq<char>,
    client_id: Seq<char>,
    redirect_uri: Seq<char>,
    scopes: Seq<Seq<char>>,
    extra: Seq<(Seq<char>, Seq<char>)>,
    verifier: Seq<char>,
    csrf: Seq<char>,
) -> Option<Seq<char>>;

/// Relies on oauth2's PkceCodeChallenge::new_random_sha256 for a fresh random
/// verifier: 32 random bytes in unpadded URL-safe base64, so 43 ASCII characters.
#[verifier::external_body]
fn random_verifier() -> (r: String)
    ensures
        r@.len() == 43,
        vstd::utf8::is_ascii_chars(r@),
{
    PkceCodeChallenge::new_random_sha256().1.secret().clone()
}

/// Relies on oauth2's CsrfToken::new_random for a fresh random state token.
#[verifier::external_body]
fn random_csrf_token() -> (r: String) {
    CsrfToken::new_random().secret().clone()
}

/// Relies on oauth2's BasicClient::authorize_url and AuthorizationRequest::url,
/// with the challenge that PkceCodeChallenge::from_code_verifier_sha256 makes of
/// `verifier` (which asserts a verifier of 43 to 128 bytes); none where AuthUrl::new
/// or RedirectUrl::new refuses its address.
#[verifier::external_body]
fn consent_url(
    auth_uri: &str,
    client_id: &str,
    redirect_uri: &str,
    scopes: &Vec<String>,
    extra: &Vec<(String, String)>,
    verifier: &str,
    csrf: &str,
) -> (r: Option<String>)
    requires
        vstd::utf8::is_ascii_chars(verifier@),
        43 <= verifier@.len() <= 128,
    ensures
        option_view(r) == authorization_url_of(
            auth_uri@,
            client_id@,
            redirect_uri@,
            strings_view(scopes@),
            form_view(extra@),
            verifier@,
            csrf@,
        ),
{
    let auth = AuthUrl::new(auth_uri.to_string()).ok()?;
    let redirect = RedirectUrl::new(redirect_uri.to_string()).ok()?;
    let client = BasicClient::new(ClientId::new(client_id.to_string()), None, auth, None)
        .set_redirect_uri(redirect);
    let challenge = PkceCodeChallenge::from_code_verifier_sha256(&PkceCodeVerifier::new(verifier.to_string()));
    let mut request = client.authorize_url(|| CsrfToken::new(csrf.to_string())).set_pkce_challenge(challenge);
    for scope in scopes.iter() {
        request = request.add_scope(Scope::new(scope.clone()));
    }
    for (name, value) in extra.iter() {
        request = request.add_extra_param(name.clone(), value.clone());
    }
    Some(request.url().0.to_string())
}

pub open spec fn strings_view(v: Seq<String>) -> Seq<Seq<char>> {
    Seq::new(v.len(), |i: int| v[i]@)
}

/// The scopes that a sign-in requests.
pub open spec fn requested_scopes() -> Seq<Seq<char>> {
    seq![SCOPE_SPREADSHEETS@, SCOPE_DRIVE@]
}

/// The provider's extra parameters of a sign-in: offline access and forced
/// consent, so that a refresh token is issued even on repeated consent.
pub open spec fn extra_parameters() -> Seq<(Seq<char>, Seq<char>)> {
    seq![("access_type"@, "offline"@), ("prompt"@, "consent"@)]
}

/// Whether `v` can serve as a PKCE verifier: 43 to 128 ASCII characters.
pub open spec fn is_usable_verifier(v: Seq<char>) -> bool {
    vstd::utf8::is_ascii_chars(v) && 43 <= v.len() <= 128
}

/// The consent URL of a sign-in with `verifier` and `csrf`.
pub open spec fn sign_in_url(config: &ProviderConfig, verifier: Seq<char>, csrf: Seq<char>) -> Option<Seq<char>> {
    authorization_url_of(
        config.auth_uri@,
        config.client_id@,
        REDIRECT_URI@,
        requested_scopes(),
        extra_parameters(),
        verifier,
        csrf,
    )
}

/// A sign-in that has begun: the consent URL to open, and the CSRF token to
/// show.
pub struct SignInStart {
    pub url: String,
    pub csrf_token: String,
}

fn ascii_length(s: &str) -> (r: Option<usize>)
    ensures
        match r {
            Some(n) => vstd::utf8::is_ascii_chars(s@) && n == s@.len(),
            None => !vstd::utf8::is_ascii_chars(s@),
        },
{
    if s.is_ascii() {
        Some(s.unicode_len())
    } else {
        None
    }
}

/// Begins a sign-in with the given verifier and CSRF token: builds the consent
/// URL and records both secrets in `session`, replacing those of any earlier
/// sign-in. On failure the session is left as it was.
pub fn start_sign_in(session: &mut AuthSession, config: &ProviderConfig, verifier: String, csrf_token: String) -> (r: Result<SignInStart, LinkError>)
    ensures
        !is_usable_verifier(verifier@) ==> (r matches Err(e) && e@ == ErrorModel::InvalidVerifier),
        is_usable_verifier(verifier@) ==> match sign_in_url(config, verifier@, csrf_token@) {
            None => r matches Err(e) && e@ == ErrorModel::InvalidEndpoint,
            Some(u) => r matches Ok(s) && s.url@ == u && s.csrf_token@ == csrf_token@,
        },
        r is Ok ==> final(session)@ == session_begun(verifier@, csrf_token@),
        r is Err ==> final(session)@ == old(session)@,
{
    match ascii_length(verifier.as_str()) {
        Some(n) => {
            if n < 43 || n > 128 {
                return Err(LinkError::InvalidVerifier);
            }
        },
        None => return Err(LinkError::InvalidVerifier),
    }
    let mut scopes: Vec<String> = Vec::new();
    scopes.push(String::from_str(SCOPE_SPREADSHEETS));
    scopes.push(String::from_str(SCOPE_DRIVE));
    let mut extra: Vec<(String, String)> = Vec::new();
    extra.push((String::from_str("access_type"), String::from_str("offline")));
    extra.push((String::from_str("prompt"), String::from_str("consent")));
    assert(strings_view(scopes@) =~= requested_scopes());
    assert(form_view(extra@) =~= extra_parameters());
    let url = consent_url(
        config.auth_uri.as_str(),
        config.client_id.as_str(),
        REDIRECT_URI,
        &scopes,
        &extra,
        verifier.as_str(),
        csrf_token.as_str(),
    );
    match url {
        Some(url) => {
            let shown = csrf_token.clone();
            session.begin(verifier, csrf_token);
            Ok(SignInStart { url, csrf_token: shown })
        },
        None => Err(LinkError::InvalidEndpoint),
    }
}

/// Begins a sign-in with a fresh random verifier and CSRF token. Succeeds
/// exactly where the configured authorization address is a URL.
pub fn begin_sign_in(session: &mut AuthSession, config: &ProviderConfig) -> (r: Result<SignInStart, LinkError>)
    ensures
        exists|verifier: Seq<char>, csrf: Seq<char>|
            is_usable_verifier(verifier) && #[trigger] sign_in_url(config, verifier, csrf) == match r {
                Ok(s) => Some(s.url@),
                Err(_) => None::<Seq<char>>,
            } && (r matches Ok(s) ==> (s.csrf_token@ == csrf && final(session)@ == session_begun(
                verifier,
                csrf,
            ))),
        r matches Err(e) ==> (e@ == ErrorModel::InvalidEndpoint && final(session)@ == old(session)@),
{
    let verifier = random_verifier();
    let csrf_token = random_csrf_token();
    start_sign_in(session, config, verifier, csrf_token)
}

} // verus!
