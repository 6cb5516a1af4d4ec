use vstd::prelude::*;
use crate::config::CALLBACK_ORIGIN;
use crate::credential::option_view;

verus! {

/// The first value of the query parameter `key` in `url`, percent-decoded; none
/// where `url` does not parse or has no such parameter.
pub uninterp spec fn query_value_of(url: Seq<char>, key: Seq<char>) -> Option<Seq<char>>;

/// Relies on url::Url::parse and Url::query_pairs: the first value of the query
/// parameter `key`.
#[verifier::external_body]
fn query_value(url: &str, key: &str) -> (r: Option<String>)
    ensures
        option_view(r) == query_value_of(url@, key@),
{
    let parsed = url::Url::parse(url).ok()?;
    parsed.query_pairs().find(|(k, _)| k == key).map(|(_, v)| v.into_owned())
}

/// The page that answers the request that carried the code.
pub const SUCCESS_PAGE: &'static str = "Authentication successful! You can close this window.";

/// The authorization code that a request to the redirect listener for `path`
/// carries, if any.
pub open spec fn code_in_request(path: Seq<char>) -> Option<Seq<char>> {
    query_value_of(CALLBACK_ORIGIN@ + path, "code"@)
}

/// What the redirect listener does with one request.
pub enum ListenerAction {
    /// Answer with `page`, hand `code` to the sign-in, and accept no more requests.
    Deliver { code: String, page: String },
    /// Read the request and go on waiting.
    Ignore,
}

/// The redirect listener of one sign-in: it waits for the first request that
/// carries a code, and then accepts no more.
pub struct CallbackListener {
    code: Option<String>,
}

impl CallbackListener {
    pub closed spec fn received(&self) -> Option<Seq<char>> {
        option_view(self.code)
    }

    /// A listener that has received nothing yet.
    pub fn new() -> (r: CallbackListener)
        ensures
            r.received() is None,
    {
        CallbackListener { code: None }
    }

    /// Whether a code has arrived, so that the listener must stop accepting.
    pub fn is_finished(&self) -> (r: bool)
        ensures
            r == (self.received() is Some),
    {
        self.code.is_some()
    }

    /// The code received, if any.
    pub fn code(&self) -> (r: Option<String>)
        ensures
            option_view(r) == self.received(),
    {
        match &self.code {
            Some(c) => Some(c.clone()),
            None => None,
        }
    }

    /// Handles a request for `path` (path and query, as the request line gives it).
    pub fn on_request(&mut self, path: &str) -> (r: ListenerAction)
        requires
            old(self).received() is None,
        ensures
            match code_in_request(path@) {
                Some(c) => r matches ListenerAction::Deliver { code, page } && code@ == c
                    && page@ == SUCCESS_PAGE@ && final(self).received() == Some(c),
                None => r is Ignore && final(self).received() is None,
            },
    {
        let mut url = String::from_str(CALLBACK_ORIGIN);
        url.append(path);
        match query_value(url.as_str(), "code") {
            Some(code) => {
                self.code = Some(code.clone());
                ListenerAction::Deliver { code, page: String::from_str(SUCCESS_PAGE) }
            },
            None => ListenerAction::Ignore,
        }
    }
}

} // verus!
