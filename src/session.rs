use vstd::prelude::*;
use crate::error::{ErrorModel, LinkError};

verus! {

/// The state of the one sign-in attempt that may be pending: the PKCE verifier,
/// which may be consumed once, and the CSRF token shown to the user.
///
/// Beginning a second sign-in before the first is exchanged replaces the
/// verifier, so the first attempt's code can no longer be exchanged.
pub struct AuthSession {
    verifier: Option<String>,
    csrf_token: Option<String>,
}

/// The mathematical form of an [`AuthSession`].
pub struct SessionModel {
    pub verifier: Option<Seq<char>>,
    pub csrf_token: Option<Seq<char>>,
}

impl View for AuthSession {
    type V = SessionModel;

    closed spec fn view(&self) -> SessionModel {
        SessionModel {
            verifier: match self.verifier {
                Some(v) => Some(v@),
                None => None,
            },
            csrf_token: match self.csrf_token {
                Some(t) => Some(t@),
                None => None,
            },
        }
    }
}

/// The session once a sign-in with `verifier` and `csrf` has begun.
pub open spec fn session_begun(verifier: Seq<char>, csrf: Seq<char>) -> SessionModel {
    SessionModel { verifier: Some(verifier), csrf_token: Some(csrf) }
}

/// The session once its verifier has been taken: the verifier is gone.
pub open spec fn session_after_take(m: SessionModel) -> SessionModel {
    SessionModel { verifier: None, ..m }
}

/// What taking the verifier yields: the verifier, or `VerifierMissing`.
pub open spec fn take_outcome(m: SessionModel) -> Result<Seq<char>, ErrorModel> {
    match m.verifier {
        Some(v) => Ok(v),
        None => Err(ErrorModel::VerifierMissing),
    }
}

impl AuthSession {
    /// A session with no sign-in pending.
    pub fn new() -> (r: AuthSession)
        ensures
            r@.verifier is None,
            r@.csrf_token is None,
    {
        AuthSession { verifier: None, csrf_token: None }
    }

    /// Records the secrets of a sign-in that has just begun, replacing those of
    /// any earlier one.
    pub fn begin(&mut self, verifier: String, csrf_token: String)
        ensures
            final(self)@ == session_begun(verifier@, csrf_token@),
    {
        self.verifier = Some(verifier);
        self.csrf_token = Some(csrf_token);
    }

    /// Whether a verifier is waiting to be exchanged.
    pub fn has_pending_verifier(&self) -> (r: bool)
        ensures
            r == (self@.verifier is Some),
    {
        self.verifier.is_some()
    }

    /// The CSRF token of the sign-in last begun, for display.
    pub fn csrf_token(&self) -> (r: Option<String>)
        ensures
            match r {
                Some(t) => self@.csrf_token == Some(t@),
                None => self@.csrf_token is None,
            },
    {
        match &self.csrf_token {
            Some(t) => Some(t.clone()),
            None => None,
        }
    }

    /// Takes the verifier out of the session, so that it cannot be used twice.
    pub fn take_verifier(&mut self) -> (r: Result<String, LinkError>)
        ensures
            match r {
                Ok(v) => take_outcome(old(self)@) == Ok::<Seq<char>, ErrorModel>(v@),
                Err(e) => take_outcome(old(self)@) == Err::<Seq<char>, ErrorModel>(e@),
            },
            final(self)@ == session_after_take(old(self)@),
    {
        match self.verifier.take() {
            Some(v) => Ok(v),
            None => Err(LinkError::VerifierMissing),
        }
    }
}

/// A verifier is single-use: once taken, taking it again, with no sign-in begun
/// in between, fails with `VerifierMissing`.
pub proof fn lemma_verifier_single_use(m: SessionModel)
    ensures
        session_after_take(m).verifier is None,
        take_outcome(session_after_take(m)) == Err::<Seq<char>, ErrorModel>(
            ErrorModel::VerifierMissing,
        ),
{
}

} // verus!
