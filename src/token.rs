use vstd::prelude::*;
use crate::clock::now_epoch_seconds;
use crate::config::{ProviderConfig, REDIRECT_URI};
use crate::credential::{
    is_expired, with_credential, Credential, CredentialModel, Storage, StorageModel,
};
use crate::error::{result_view, ErrorModel, LinkError, ReplyField};
use crate::json::{
    has_member, is_json, json_has_member, json_member_str, json_member_text, json_member_u64,
    member_str, member_text, member_u64, parses_as_json,
};
use crate::session::{session_after_take, AuthSession};

verus! {

/// A form POST to the token endpoint.
pub struct TokenRequest {
    pub url: String,
    pub form: Vec<(String, String)>,
}

/// The mathematical form of a [`TokenRequest`].
pub struct TokenRequestModel {
    pub url: Seq<char>,
    pub form: Seq<(Seq<char>, Seq<char>)>,
}

pub open spec fn form_view(form: Seq<(String, String)>) -> Seq<(Seq<char>, Seq<char>)> {
    Seq::new(form.len(), |i: int| (form[i].0@, form[i].1@))
}

impl View for TokenRequest {
    type V = TokenRequestModel;

    open spec fn view(&self) -> TokenRequestModel {
        TokenRequestModel { url: self.url@, form: form_view(self.form@) }
    }
}

/// The authorization-code grant: the fields that trade `code`, with the
/// verifier of the sign-in that produced it, for a credential.
pub open spec fn code_grant(config: &ProviderConfig, code: Seq<char>, verifier: Seq<char>) -> TokenRequestModel {
    TokenRequestModel {
        url: config.token_uri@,
        form: seq![
            ("code"@, code),
            ("client_id"@, config.client_id@),
            ("client_secret"@, config.client_secret@),
            ("redirect_uri"@, REDIRECT_URI@),
            ("grant_type"@, "authorization_code"@),
            ("code_verifier"@, verifier),
        ],
    }
}

/// The refresh-token grant: the fields that trade a refresh token for a new
/// access token.
pub open spec fn refresh_grant(config: &ProviderConfig, refresh_token: Seq<char>) -> TokenRequestModel {
    TokenRequestModel {
        url: config.token_uri@,
        form: seq![
            ("refresh_token"@, refresh_token),
            ("client_id"@, config.client_id@),
            ("client_secret"@, config.client_secret@),
            ("grant_type"@, "refresh_token"@),
        ],
    }
}

/// The failure that a reply with an `error` member stands for: the provider's
/// error code (its JSON text where it is not a string) and its description.
pub open spec fn provider_error(body: Seq<char>) -> ErrorModel {
    ErrorModel::Provider(
        match json_member_str(body, "error"@) {
            Some(c) => c,
            None => match json_member_text(body, "error"@) {
                Some(t) => t,
                None => Seq::empty(),
            },
        },
        match json_member_str(body, "error_description"@) {
            Some(d) => d,
            None => "No description"@,
        },
    )
}

/// The credential that the token endpoint's reply `body` to a code grant
/// gives at time `now`, or why it gives none.
pub open spec fn code_reply_outcome(body: Seq<char>, now: u64) -> Result<CredentialModel, ErrorModel> {
    if !parses_as_json(body) {
        Err(ErrorModel::NotJson)
    } else if json_has_member(body, "error"@) {
        Err(provider_error(body))
    } else if json_member_str(body, "access_token"@) is None {
        Err(ErrorModel::MissingField(ReplyField::AccessToken))
    } else if json_member_str(body, "refresh_token"@) is None {
        Err(ErrorModel::MissingField(ReplyField::RefreshToken))
    } else if json_member_u64(body, "expires_in"@) is None {
        Err(ErrorModel::MissingField(ReplyField::ExpiresIn))
    } else if now + json_member_u64(body, "expires_in"@)->Some_0 > u64::MAX {
        Err(ErrorModel::ExpiryOverflow)
    } else {
        Ok(
            CredentialModel {
                access_token: json_member_str(body, "access_token"@)->Some_0,
                refresh_token: json_member_str(body, "refresh_token"@)->Some_0,
                expiry: (now + json_member_u64(body, "expires_in"@)->Some_0) as u64,
            },
        )
    }
}

/// The credential that replaces `current` after the token endpoint's reply
/// `body` to a refresh grant at time `now`, or why none does. A reply without
/// a refresh token keeps the current one; one without a lifetime expires at
/// `now`; one whose lifetime is not an unsigned 64-bit integer is malformed.
pub open spec fn refresh_reply_outcome(current: CredentialModel, body: Seq<char>, now: u64) -> Result<
    CredentialModel,
    ErrorModel,
> {
    let lifetime: u64 = match json_member_u64(body, "expires_in"@) {
        Some(e) => e,
        None => 0,
    };
    if !parses_as_json(body) {
        Err(ErrorModel::NotJson)
    } else if json_has_member(body, "error"@) {
        Err(provider_error(body))
    } else if json_member_str(body, "access_token"@) is None {
        Err(ErrorModel::MissingField(ReplyField::AccessToken))
    } else if json_has_member(body, "expires_in"@) && json_member_u64(body, "expires_in"@) is None {
        Err(ErrorModel::MissingField(ReplyField::ExpiresIn))
    } else if now + lifetime > u64::MAX {
        Err(ErrorModel::ExpiryOverflow)
    } else {
        Ok(
            CredentialModel {
                access_token: json_member_str(body, "access_token"@)->Some_0,
                refresh_token: match json_member_str(body, "refresh_token"@) {
                    Some(r) => r,
                    None => current.refresh_token,
                },
                expiry: (now + lifetime) as u64,
            },
        )
    }
}

fn field(name: &str, value: String) -> (r: (String, String))
    ensures
        r.0@ == name@,
        r.1@ == value@,
{
    (String::from_str(name), value)
}

/// The token request of the authorization-code grant.
pub fn code_grant_request(config: &ProviderConfig, code: &str, verifier: String) -> (r: TokenRequest)
    ensures
        r@ == code_grant(config, code@, verifier@),
{
    let mut form: Vec<(String, String)> = Vec::new();
    form.push(field("code", String::from_str(code)));
    form.push(field("client_id", config.client_id.clone()));
    form.push(field("client_secret", config.client_secret.clone()));
    form.push(field("redirect_uri", String::from_str(REDIRECT_URI)));
    form.push(field("grant_type", String::from_str("authorization_code")));
    form.push(field("code_verifier", verifier));
    let r = TokenRequest { url: config.token_uri.clone(), form };
    assert(r@.form =~= code_grant(config, code@, verifier@).form);
    r
}

/// The token request of the refresh-token grant.
pub fn refresh_grant_request(config: &ProviderConfig, refresh_token: &str) -> (r: TokenRequest)
    ensures
        r@ == refresh_grant(config, refresh_token@),
{
    let mut form: Vec<(String, String)> = Vec::new();
    form.push(field("refresh_token", String::from_str(refresh_token)));
    form.push(field("client_id", config.client_id.clone()));
    form.push(field("client_secret", config.client_secret.clone()));
    form.push(field("grant_type", String::from_str("refresh_token")));
    let r = TokenRequest { url: config.token_uri.clone(), form };
    assert(r@.form =~= refresh_grant(config, refresh_token@).form);
    r
}

fn read_provider_error(body: &str) -> (e: LinkError)
    ensures
        e@ == provider_error(body@),
{
    let code = match member_str(body, "error") {
        Some(c) => c,
        None => match member_text(body, "error") {
            Some(t) => t,
            None => String::new(),
        },
    };
    let description = match member_str(body, "error_description") {
        Some(d) => d,
        None => String::from_str("No description"),
    };
    LinkError::Provider { code, description }
}

/// Reads the token endpoint's reply to a code grant into a credential that
/// expires `expires_in` seconds after `now`.
pub fn read_code_reply(body: &str, now: u64) -> (r: Result<Credential, LinkError>)
    ensures
        result_view(r) == code_reply_outcome(body@, now),
{
    if !is_json(body) {
        return Err(LinkError::NotJson);
    }
    if has_member(body, "error") {
        return Err(read_provider_error(body));
    }
    let access_token = match member_str(body, "access_token") {
        Some(t) => t,
        None => return Err(LinkError::MissingField { field: ReplyField::AccessToken }),
    };
    let refresh_token = match member_str(body, "refresh_token") {
        Some(t) => t,
        None => return Err(LinkError::MissingField { field: ReplyField::RefreshToken }),
    };
    let expires_in = match member_u64(body, "expires_in") {
        Some(e) => e,
        None => return Err(LinkError::MissingField { field: ReplyField::ExpiresIn }),
    };
    match now.checked_add(expires_in) {
        Some(expiry) => Ok(Credential::new(access_token, refresh_token, expiry)),
        None => Err(LinkError::ExpiryOverflow),
    }
}

/// Reads the token endpoint's reply to a refresh grant into the credential that
/// replaces `current`.
pub fn read_refresh_reply(current: &Credential, body: &str, now: u64) -> (r: Result<Credential, LinkError>)
    ensures
        result_view(r) == refresh_reply_outcome(current@, body@, now),
{
    if !is_json(body) {
        return Err(LinkError::NotJson);
    }
    if has_member(body, "error") {
        return Err(read_provider_error(body));
    }
    let access_token = match member_str(body, "access_token") {
        Some(t) => t,
        None => return Err(LinkError::MissingField { field: ReplyField::AccessToken }),
    };
    let refresh_token = match member_str(body, "refresh_token") {
        Some(t) => t,
        None => current.refresh_token.clone(),
    };
    let lifetime: u64 = match member_u64(body, "expires_in") {
        Some(e) => e,
        None => {
            if has_member(body, "expires_in") {
                return Err(LinkError::MissingField { field: ReplyField::ExpiresIn });
            }
            0
        },
    };
    match now.checked_add(lifetime) {
        Some(expiry) => Ok(Credential::new(access_token, refresh_token, expiry)),
        None => Err(LinkError::ExpiryOverflow),
    }
}

/// Takes the pending verifier out of `session` and forms the code grant for
/// `code`. Without a pending verifier it fails with `VerifierMissing`; either
/// way no verifier is left.
pub fn begin_code_exchange(session: &mut AuthSession, config: &ProviderConfig, code: &str) -> (r:
    Result<TokenRequest, LinkError>)
    ensures
        final(session)@ == session_after_take(old(session)@),
        match old(session)@.verifier {
            Some(v) => r matches Ok(req) && req@ == code_grant(config, code@, v),
            None => r matches Err(e) && e@ == ErrorModel::VerifierMissing,
        },
{
    let verifier = session.take_verifier()?;
    Ok(code_grant_request(config, code, verifier))
}

/// Reads the reply to a code grant at time `now` and, on success, saves the
/// credential.
pub fn finish_code_exchange_at(store: &mut Storage, body: &str, now: u64) -> (r: Result<Credential, LinkError>)
    ensures
        result_view(r) == code_reply_outcome(body@, now),
        match r {
            Ok(c) => final(store)@ == with_credential(old(store)@, c@),
            Err(_) => final(store)@ == old(store)@,
        },
{
    let c = read_code_reply(body, now)?;
    store.save_credential(c.duplicate());
    Ok(c)
}

/// Reads the reply to a code grant now and, on success, saves the credential.
pub fn finish_code_exchange(store: &mut Storage, body: &str) -> (r: Result<Credential, LinkError>)
    ensures
        exists|now: u64| result_view(r) == #[trigger] code_reply_outcome(body@, now),
        match r {
            Ok(c) => final(store)@ == with_credential(old(store)@, c@),
            Err(_) => final(store)@ == old(store)@,
        },
{
    let now = now_epoch_seconds();
    finish_code_exchange_at(store, body, now)
}

/// What to do to obtain a currently valid credential.
pub enum CredentialPlan {
    /// The stored credential is still valid.
    Ready(Credential),
    /// The stored credential has expired: send this refresh grant, then call
    /// `finish_refresh`.
    Refresh(TokenRequest),
}

/// Whether `r` is the right plan at time `now`: no credential is an error; an
/// expired one is refreshed with its refresh token; any other is used as it is.
pub open spec fn is_plan_at(
    store: &Storage,
    config: &ProviderConfig,
    now: u64,
    r: &Result<CredentialPlan, LinkError>,
) -> bool {
    match store@.credential {
        None => *r matches Err(e) && e@ == ErrorModel::NoCredential,
        Some(c) => if is_expired(c, now) {
            *r matches Ok(CredentialPlan::Refresh(req)) && req@ == refresh_grant(config, c.refresh_token)
        } else {
            *r matches Ok(CredentialPlan::Ready(k)) && k@ == c
        },
    }
}

/// Decides, at time `now`, whether the stored credential can be used or must
/// be refreshed. It must be refreshed from its expiry on, the expiry included.
pub fn plan_credential_at(store: &Storage, config: &ProviderConfig, now: u64) -> (r: Result<CredentialPlan, LinkError>)
    ensures
        is_plan_at(store, config, now, &r),
{
    match store.load_credential() {
        None => Err(LinkError::NoCredential),
        Some(c) => {
            if c.needs_refresh(now) {
                Ok(CredentialPlan::Refresh(refresh_grant_request(config, c.refresh_token.as_str())))
            } else {
                Ok(CredentialPlan::Ready(c))
            }
        },
    }
}

/// Decides, now, whether the stored credential can be used or must be refreshed.
pub fn plan_credential(store: &Storage, config: &ProviderConfig) -> (r: Result<CredentialPlan, LinkError>)
    ensures
        exists|now: u64| is_plan_at(store, config, now, &r),
{
    let now = now_epoch_seconds();
    plan_credential_at(store, config, now)
}

/// A refresh reply that carries a new access token and no refresh token
/// keeps the current refresh token: where the reply is JSON without an `error`
/// member, its lifetime (if any) is an unsigned 64-bit integer, and the new
/// expiry fits in 64 bits, the new credential has the reply's access token, the
/// current refresh token, and the expiry `now` plus the lifetime.
pub proof fn lemma_refresh_keeps_refresh_token(current: CredentialModel, body: Seq<char>, now: u64)
    requires
        parses_as_json(body),
        !json_has_member(body, "error"@),
        json_member_str(body, "access_token"@) is Some,
        json_member_str(body, "refresh_token"@) is None,
        json_has_member(body, "expires_in"@) ==> json_member_u64(body, "expires_in"@) is Some,
        now + match json_member_u64(body, "expires_in"@) {
            Some(n) => n,
            None => 0,
        } <= u64::MAX,
    ensures
        refresh_reply_outcome(current, body, now) == Ok::<CredentialModel, ErrorModel>(
            CredentialModel {
                access_token: json_member_str(body, "access_token"@)->Some_0,
                refresh_token: current.refresh_token,
                expiry: (now + match json_member_u64(body, "expires_in"@) {
                    Some(n) => n,
                    None => 0,
                }) as u64,
            },
        ),
{
}

/// What refreshing the stored credential with the reply `body` at time `now`
/// yields.
pub open spec fn refresh_outcome(m: StorageModel, body: Seq<char>, now: u64) -> Result<
    CredentialModel,
    ErrorModel,
> {
    match m.credential {
        None => Err(ErrorModel::NoCredential),
        Some(c) => refresh_reply_outcome(c, body, now),
    }
}

/// Reads the reply to a refresh grant at time `now` and, on success, saves the
/// new credential in place of the stored one. A reply without a refresh token
/// keeps the stored refresh token.
pub fn finish_refresh_at(store: &mut Storage, body: &str, now: u64) -> (r: Result<Credential, LinkError>)
    ensures
        result_view(r) == refresh_outcome(old(store)@, body@, now),
        match r {
            Ok(c) => final(store)@ == with_credential(old(store)@, c@),
            Err(_) => final(store)@ == old(store)@,
        },
        r is Ok && json_member_str(body@, "refresh_token"@) is None ==> final(store)@.credential->Some_0.refresh_token == old(store)@.credential->Some_0.refresh_token,
{
    let current = match store.load_credential() {
        Some(c) => c,
        None => return Err(LinkError::NoCredential),
    };
    let c = read_refresh_reply(&current, body, now)?;
    store.save_credential(c.duplicate());
    Ok(c)
}

/// Reads the reply to a refresh grant now and, on success, saves the new
/// credential in place of the stored one.
pub fn finish_refresh(store: &mut Storage, body: &str) -> (r: Result<Credential, LinkError>)
    ensures
        exists|now: u64| result_view(r) == #[trigger] refresh_outcome(old(store)@, body@, now),
        match r {
            Ok(c) => final(store)@ == with_credential(old(store)@, c@),
            Err(_) => final(store)@ == old(store)@,
        },
        r is Ok && json_member_str(body@, "refresh_token"@) is None ==> final(store)@.credential->Some_0.refresh_token == old(store)@.credential->Some_0.refresh_token,
{
    let now = now_epoch_seconds();
    finish_refresh_at(store, body, now)
}

} // verus!
