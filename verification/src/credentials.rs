//! Object-store credentials: the credential record, its expiry rule, the
//! auto-refreshing cache's decisions, and the parsing of the IAM endpoint's
//! response.

use vstd::prelude::*;

use crate::codec::parse_rfc3339_secs;
use crate::codec::rfc3339_secs_of;
use crate::json::get_json_nested_str_field;
use crate::json::json_nested_str_field;

verus! {

/// What can go wrong while producing credentials: the endpoint's response
/// was unusable, or its expiry timestamp did not parse.
#[derive(Clone, Copy, Debug, PartialEq, Eq, Structural)]
pub enum ObsError {
    Request,
    TimeParse,
}

/// Short-lived object-store credentials, with their expiry as a Unix time.
#[derive(Clone, Debug)]
pub struct ObsCredentials {
    pub access: String,
    pub secret: String,
    pub security_token: Option<String>,
    pub expires_at: i64,
}

/// How many seconds before actual expiry credentials are already treated as
/// expired, so a caller does not sit on a credential that lapses mid-request.
pub const EXPIRY_SLACK_SECS: i64 = 20;

impl ObsCredentials {
    pub fn new(access: String, secret: String, security_token: Option<String>, expires_at: i64) -> (c:
        ObsCredentials)
        ensures
            c.access@ == access@,
            c.secret@ == secret@,
            c.security_token == security_token,
            c.expires_at == expires_at,
    {
        ObsCredentials { access, secret, security_token, expires_at }
    }

    pub fn access(&self) -> (r: &str)
        ensures
            r@ == self.access@,
    {
        self.access.as_str()
    }

    pub fn secret(&self) -> (r: &str)
        ensures
            r@ == self.secret@,
    {
        self.secret.as_str()
    }

    pub fn security_token(&self) -> (r: &Option<String>)
        ensures
            r == &self.security_token,
    {
        &self.security_token
    }

    pub fn expires_at(&self) -> (r: i64)
        ensures
            r == self.expires_at,
    {
        self.expires_at
    }

    /// Whether the credentials are already expired for practical purposes:
    /// their expiry lies strictly before now plus the slack.
    pub fn credentials_are_expired(&self, now_secs: i64) -> (r: bool)
        requires
            now_secs + EXPIRY_SLACK_SECS <= i64::MAX,
        ensures
            r == (self.expires_at < now_secs + EXPIRY_SLACK_SECS),
    {
        self.expires_at < now_secs + EXPIRY_SLACK_SECS
    }
}

/// The auto-refreshing provider's cache: the last credentials fetched, if
/// any. The caller fetches anew exactly when `needs_refresh` says so and
/// stores what it fetched.
pub struct CredentialsCache {
    pub cached: Option<ObsCredentials>,
}

impl CredentialsCache {
    /// An empty cache: the first use must fetch.
    pub fn new() -> (r: CredentialsCache)
        ensures
            r.cached is None,
    {
        CredentialsCache { cached: None }
    }

    /// Whether a fresh fetch is required: nothing cached yet, or the cached
    /// credentials are expired.
    pub fn needs_refresh(&self, now_secs: i64) -> (r: bool)
        requires
            now_secs + EXPIRY_SLACK_SECS <= i64::MAX,
        ensures
            r == match self.cached {
                Option::None => true,
                Option::Some(c) => c.expires_at < now_secs + EXPIRY_SLACK_SECS,
            },
    {
        match &self.cached {
            None => true,
            Some(c) => c.credentials_are_expired(now_secs),
        }
    }

    /// Stores freshly fetched credentials.
    pub fn store(&mut self, creds: ObsCredentials)
        ensures
            final(self).cached matches Some(c) && c == creds,
    {
        self.cached = Some(creds);
    }
}

/// The credential fields of the IAM endpoint's response body, if they all
/// parse: access, secret, security token, and the expiry time.
pub open spec fn iam_credentials(s: Seq<char>) -> Option<(Seq<char>, Seq<char>, Seq<char>, i64)> {
    let access = json_nested_str_field(s, "credential"@, "access"@);
    let secret = json_nested_str_field(s, "credential"@, "secret"@);
    let token = json_nested_str_field(s, "credential"@, "securitytoken"@);
    let expires = json_nested_str_field(s, "credential"@, "expires_at"@);
    if access is Some && secret is Some && token is Some && expires is Some {
        match rfc3339_secs_of(expires->0) {
            Some(t) => Some((access->0, secret->0, token->0, t)),
            None => None,
        }
    } else {
        None
    }
}

/// Whether a response body fails on its fields rather than on its timestamp.
pub open spec fn iam_fields_present(s: Seq<char>) -> bool {
    &&& json_nested_str_field(s, "credential"@, "access"@) is Some
    &&& json_nested_str_field(s, "credential"@, "secret"@) is Some
    &&& json_nested_str_field(s, "credential"@, "securitytoken"@) is Some
    &&& json_nested_str_field(s, "credential"@, "expires_at"@) is Some
}

/// Parses the IAM endpoint's response body into credentials: the `credential`
/// object must carry the access key, secret, security token and a parseable
/// RFC 3339 expiry. A body without the fields is a `Request` error, one whose
/// expiry does not parse a `TimeParse` error.
pub fn credentials_from_response(body: &str) -> (r: Result<ObsCredentials, ObsError>)
    ensures
        r is Ok <==> iam_credentials(body@) is Some,
        r matches Ok(c) ==> {
            &&& c.access@ == (iam_credentials(body@)->0).0
            &&& c.secret@ == (iam_credentials(body@)->0).1
            &&& c.security_token matches Some(t) && t@ == (iam_credentials(body@)->0).2
            &&& c.expires_at == (iam_credentials(body@)->0).3
        },
        !iam_fields_present(body@) ==> r == Result::<ObsCredentials, ObsError>::Err(
            ObsError::Request,
        ),
        iam_fields_present(body@) && iam_credentials(body@) is None ==> r == Result::<
            ObsCredentials,
            ObsError,
        >::Err(ObsError::TimeParse),
{
    let access = match get_json_nested_str_field(body, "credential", "access") {
        Some(v) => v,
        None => {
            return Err(ObsError::Request);
        },
    };
    let secret = match get_json_nested_str_field(body, "credential", "secret") {
        Some(v) => v,
        None => {
            return Err(ObsError::Request);
        },
    };
    let token = match get_json_nested_str_field(body, "credential", "securitytoken") {
        Some(v) => v,
        None => {
            return Err(ObsError::Request);
        },
    };
    let expires_text = match get_json_nested_str_field(body, "credential", "expires_at") {
        Some(v) => v,
        None => {
            return Err(ObsError::Request);
        },
    };
    let expires_at = match parse_rfc3339_secs(expires_text.as_str()) {
        Some(t) => t,
        None => {
            return Err(ObsError::TimeParse);
        },
    };
    Ok(ObsCredentials { access, secret, security_token: Some(token), expires_at })
}

} // verus!
