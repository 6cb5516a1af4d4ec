use vstd::prelude::*;

verus! {

/// A field that an endpoint's JSON reply must carry.
#[derive(Debug, Clone, Copy, PartialEq, Eq)]
pub enum ReplyField {
    AccessToken,
    RefreshToken,
    ExpiresIn,
    SpreadsheetId,
}

/// Every failure of the library, one variant per kind, so that callers branch
/// on the kind rather than on message text.
#[derive(Debug, Clone, PartialEq, Eq)]
pub enum LinkError {
    /// The authorization endpoint or the redirect address is not a valid URL.
    InvalidEndpoint,
    /// A PKCE verifier is not 43 to 128 ASCII characters.
    InvalidVerifier,
    /// The local redirect listener could not bind its port.
    ListenerBind { detail: String },
    /// The sign-in flow ended without an authorization code.
    NoCode { detail: String },
    /// The sign-in session could not be locked.
    SessionUnavailable,
    /// No PKCE verifier is pending: no sign-in was begun, or it was consumed.
    VerifierMissing,
    /// No credential is stored.
    NoCredential,
    /// The token endpoint answered with an explicit `error` member.
    Provider { code: String, description: String },
    /// An endpoint answered with a status outside 200..=299.
    Status { status: u16, body: String },
    /// The request could not be sent or its answer could not be read.
    Transport { detail: String },
    /// Reading or writing a stored record failed.
    Persistence { detail: String },
    /// A reply body is not JSON.
    NotJson,
    /// A reply lacks a required field, or holds it with the wrong type.
    MissingField { field: ReplyField },
    /// `now + expires_in` does not fit in 64 bits.
    ExpiryOverflow,
}

/// The mathematical form of a [`LinkError`].
pub enum ErrorModel {
    InvalidEndpoint,
    InvalidVerifier,
    ListenerBind(Seq<char>),
    NoCode(Seq<char>),
    SessionUnavailable,
    VerifierMissing,
    NoCredential,
    Provider(Seq<char>, Seq<char>),
    Status(u16, Seq<char>),
    Transport(Seq<char>),
    Persistence(Seq<char>),
    NotJson,
    MissingField(ReplyField),
    ExpiryOverflow,
}

impl View for LinkError {
    type V = ErrorModel;

    open spec fn view(&self) -> ErrorModel {
        match self {
            LinkError::InvalidEndpoint => ErrorModel::InvalidEndpoint,
            LinkError::InvalidVerifier => ErrorModel::InvalidVerifier,
            LinkError::ListenerBind { detail } => ErrorModel::ListenerBind(detail@),
            LinkError::NoCode { detail } => ErrorModel::NoCode(detail@),
            LinkError::SessionUnavailable => ErrorModel::SessionUnavailable,
            LinkError::VerifierMissing => ErrorModel::VerifierMissing,
            LinkError::NoCredential => ErrorModel::NoCredential,
            LinkError::Provider { code, description } => ErrorModel::Provider(
                code@,
                description@,
            ),
            LinkError::Status { status, body } => ErrorModel::Status(*status, body@),
            LinkError::Transport { detail } => ErrorModel::Transport(detail@),
            LinkError::Persistence { detail } => ErrorModel::Persistence(detail@),
            LinkError::NotJson => ErrorModel::NotJson,
            LinkError::MissingField { field } => ErrorModel::MissingField(*field),
            LinkError::ExpiryOverflow => ErrorModel::ExpiryOverflow,
        }
    }
}

/// The view of a result whose success value is viewed as well.
pub open spec fn result_view<T: View>(r: Result<T, LinkError>) -> Result<T::V, ErrorModel> {
    match r {
        Ok(v) => Ok(v@),
        Err(e) => Err(e@),
    }
}

} // verus!
