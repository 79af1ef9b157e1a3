use vstd::prelude::*;

verus! {

/// Settings of the metrics endpoint.
#[derive(Clone, Debug)]
pub struct Metrics {
    pub auth_enabled: bool,
    pub auth_username: Option<String>,
    pub auth_password: Option<String>,
}

/// Settings of channels: the API keys (none means the API-key gate is open),
/// the token secret, and the token lifetime in seconds.
#[derive(Clone, Debug)]
pub struct Channel {
    pub api_keys: Option<Vec<String>>,
    pub secret_key: String,
    pub ttl: u16,
}

/// The standard base64 encoding of the UTF-8 bytes of `text`.
pub uninterp spec fn base64_of(text: Seq<char>) -> Seq<char>;

/// Relies on `base64::encode` (standard alphabet, padded).
#[verifier::external_body]
fn base64_encode(text: &str) -> (r: String)
    ensures
        r@ == base64_of(text@),
{
    base64::encode(text)
}

pub open spec fn or_empty(o: Option<String>) -> Seq<char> {
    match o {
        Some(s) => s@,
        None => Seq::empty(),
    }
}

/// The `Authorization` header that the metrics credentials call for:
/// `"Basic "` and the base64 of `user:password` (a missing part is empty).
pub open spec fn basic_auth_header(user: Option<String>, password: Option<String>) -> Seq<char> {
    seq!['B', 'a', 's', 'i', 'c', ' '] + base64_of(or_empty(user) + seq![':'] + or_empty(password))
}

impl Metrics {
    pub fn make_basic_auth_header(self) -> (r: String)
        ensures
            r@ == basic_auth_header(self.auth_username, self.auth_password),
    {
        proof {
            reveal_strlit(":");
            reveal_strlit("Basic ");
        }
        let user = match self.auth_username {
            Some(u) => u,
            None => String::new(),
        };
        let password = match self.auth_password {
            Some(p) => p,
            None => String::new(),
        };
        let credentials = user.concat(":").concat(password.as_str());
        let encoded = base64_encode(credentials.as_str());
        let header = String::from_str("Basic ");
        assert(header@ =~= seq!['B', 'a', 's', 'i', 'c', ' ']);
        assert(credentials@ =~= or_empty(self.auth_username) + seq![':'] + or_empty(self.auth_password));
        header.concat(encoded.as_str())
    }
}

/// The metrics endpoint's own gate: open when auth is off; otherwise the
/// `Authorization` header must be there and equal the expected basic-auth header.
pub fn check_metrics_auth(settings: Metrics, auth_header: Option<String>) -> (r: bool)
    ensures
        r == (!settings.auth_enabled || (auth_header matches Some(h) && h@ == basic_auth_header(
            settings.auth_username,
            settings.auth_password,
        ))),
{
    if !settings.auth_enabled {
        return true;
    }
    match auth_header {
        Some(h) => h == settings.make_basic_auth_header(),
        None => false,
    }
}

} // verus!
