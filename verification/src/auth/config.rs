//! How requests are authenticated.
use vstd::prelude::*;

verus! {

/// How requests are authenticated.
pub struct AuthConfig {
    /// Whether bearer tokens are asked for.
    pub enabled: bool,
    /// Whether a request without a bearer token is given the development user.
    pub dev_mode: bool,
    /// The issuer of the tokens.
    pub issuer_url: String,
    /// The audience a token must be meant for, where it is looked at.
    pub expected_audience: Option<String>,
    /// Where claims are completed, where it is not the issuer's own place.
    pub userinfo_url: Option<String>,
}

impl Default for AuthConfig {
    fn default() -> (r: Self)
        ensures
            !r.enabled,
            !r.dev_mode,
            r.issuer_url@ == "http://localhost:8080"@,
            r.expected_audience is None,
            r.userinfo_url is None,
    {
        AuthConfig {
            enabled: false,
            dev_mode: false,
            issuer_url: "http://localhost:8080".to_owned(),
            expected_audience: None,
            userinfo_url: None,
        }
    }
}

} // verus!
