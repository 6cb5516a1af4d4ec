use vstd::prelude::*;

verus! {

/// Where the provider's consent page lives unless the configuration names another.
pub const DEFAULT_AUTH_URI: &'static str = "https://accounts.google.com/o/oauth2/auth";

/// Where the provider's token endpoint lives unless the configuration names another.
pub const DEFAULT_TOKEN_URI: &'static str = "https://oauth2.googleapis.com/token";

/// The port of the local redirect listener.
pub const CALLBACK_PORT: u16 = 3010;

/// The address that the local redirect listener binds.
pub const LISTEN_ADDRESS: &'static str = "127.0.0.1:3010";

/// The scheme and authority of the local redirect listener, to which a
/// request's path is appended.
pub const CALLBACK_ORIGIN: &'static str = "http://127.0.0.1:3010";

/// The redirect URI registered with the provider.
pub const REDIRECT_URI: &'static str = "http://127.0.0.1:3010/callback";

/// The scope that grants access to spreadsheets.
pub const SCOPE_SPREADSHEETS: &'static str = "https://www.googleapis.com/auth/spreadsheets";

/// The scope that grants access to the user's drive.
pub const SCOPE_DRIVE: &'static str = "https://www.googleapis.com/auth/drive";

/// The OAuth2 client's settings, read once per process.
pub struct ProviderConfig {
    pub client_id: String,
    pub client_secret: String,
    pub auth_uri: String,
    pub token_uri: String,
}

/// `given`, or `default` where nothing is given.
pub open spec fn or_default(given: Option<Seq<char>>, default: Seq<char>) -> Seq<char> {
    match given {
        Some(s) => s,
        None => default,
    }
}

fn given_or(given: Option<String>, default: &str) -> (r: String)
    ensures
        r@ == or_default(
            match given {
                Some(s) => Some(s@),
                None => None,
            },
            default@,
        ),
{
    match given {
        Some(s) => s,
        None => String::from_str(default),
    }
}

impl ProviderConfig {
    /// The configuration, with the provider's default endpoints where none is given.
    pub fn new(
        client_id: String,
        client_secret: String,
        auth_uri: Option<String>,
        token_uri: Option<String>,
    ) -> (r: ProviderConfig)
        ensures
            r.client_id@ == client_id@,
            r.client_secret@ == client_secret@,
            r.auth_uri@ == or_default(
                match auth_uri {
                    Some(s) => Some(s@),
                    None => None,
                },
                DEFAULT_AUTH_URI@,
            ),
            r.token_uri@ == or_default(
                match token_uri {
                    Some(s) => Some(s@),
                    None => None,
                },
                DEFAULT_TOKEN_URI@,
            ),
    {
        ProviderConfig {
            client_id,
            client_secret,
            auth_uri: given_or(auth_uri, DEFAULT_AUTH_URI),
            token_uri: given_or(token_uri, DEFAULT_TOKEN_URI),
        }
    }
}

} // verus!
