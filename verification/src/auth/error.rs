//! Refusals of the authentication layer.
use crate::api::{self, FORBIDDEN, INTERNAL_SERVER_ERROR, UNAUTHORIZED};
use crate::auth::validator;
use crate::json::{empty_object, text, with, Json, JsonView};
use crate::text::{self, join2, join3, replace_char};
use vstd::prelude::*;

verus! {

/// Why a request is not let through.
pub enum AuthError {
    /// There is no token.
    MissingToken,
    /// The token is not valid.
    InvalidToken(String),
    /// The claims do not permit the request.
    InvalidClaims(String),
    /// The claims of the token could not be completed.  This is a failure to
    /// authenticate, so it answers like a rejected token and never like a denial.
    EnrichmentFailed(String),
    /// The token validator refused the token, with a status and a message.
    PepError { status: u16, message: String },
    /// A failure on this side.
    Internal(String),
}

/// The body of an answer of the authentication layer.
pub enum AuthBody {
    Json(Json),
    Text(String),
}

/// What the body of an answer says.
pub enum AuthBodyView {
    Json(JsonView),
    Text(Seq<char>),
}

impl View for AuthBody {
    type V = AuthBodyView;

    open spec fn view(&self) -> AuthBodyView {
        match *self {
            AuthBody::Json(j) => AuthBodyView::Json(j.model()),
            AuthBody::Text(t) => AuthBodyView::Text(t@),
        }
    }
}

/// An answer of the authentication layer.
pub struct AuthResponse {
    pub status: u16,
    /// The value of the `WWW-Authenticate` header, where it is sent.
    pub www_authenticate: Option<String>,
    pub body: AuthBody,
}

/// What an answer says.
#[verifier::ext_equal]
pub struct AuthResponseView {
    pub status: u16,
    pub www_authenticate: Option<Seq<char>>,
    pub body: AuthBodyView,
}

impl DeepView for AuthResponse {
    type V = AuthResponseView;

    open spec fn deep_view(&self) -> AuthResponseView {
        AuthResponseView {
            status: self.status,
            www_authenticate: self.www_authenticate.deep_view(),
            body: self.body@,
        }
    }
}

/// The challenge that every refusal of a token carries.
pub open spec fn challenge(reason: Seq<char>) -> Seq<char> {
    "Bearer error=\"invalid_token\", error_description=\""@ + text::replaced(reason, '"', '\'')
        + "\""@
}

/// The body that tells a client to get a new token and try again.
pub open spec fn retry_body(detail: Seq<char>) -> JsonView {
    JsonView::Object(
        Map::empty().insert("error"@, JsonView::Text("token_expired"@)).insert(
            "retryable"@,
            JsonView::Bool(true),
        ).insert("detail"@, JsonView::Text(detail)),
    )
}

impl AuthError {
    /// The message of an error.
    pub open spec fn text(self) -> Seq<char> {
        match self {
            AuthError::MissingToken => "Missing authentication token"@,
            AuthError::InvalidToken(m) => "Invalid token: "@ + m@,
            AuthError::InvalidClaims(m) => "Invalid claims: "@ + m@,
            AuthError::EnrichmentFailed(m) => "Token enrichment failed: "@ + m@,
            AuthError::PepError { status: _, message } => "PEP error: "@ + message@,
            AuthError::Internal(m) => "Internal error: "@ + m@,
        }
    }

    /// The message of an error.
    pub fn message(&self) -> (r: String)
        ensures
            r@ == self.text(),
    {
        match self {
            AuthError::MissingToken => "Missing authentication token".to_owned(),
            AuthError::InvalidToken(m) => join2("Invalid token: ", m.as_str()),
            AuthError::InvalidClaims(m) => join2("Invalid claims: ", m.as_str()),
            AuthError::EnrichmentFailed(m) => join2("Token enrichment failed: ", m.as_str()),
            AuthError::PepError { status: _, message } => join2("PEP error: ", message.as_str()),
            AuthError::Internal(m) => join2("Internal error: ", m.as_str()),
        }
    }

    /// The error of the token validator, as one of this layer's: with its status and
    /// with the text that it displays.
    pub fn from_pep(e: &pep::error::PepError) -> (r: Self)
        ensures
            r matches AuthError::PepError { status, message } && status == validator::pep_status(*e)
                && validator::may_display(*e, message),
    {
        AuthError::PepError { status: validator::status_code(e), message: validator::displayed(e) }
    }

    /// The value of the `WWW-Authenticate` header.  Quotes of the reason become
    /// apostrophes, so that they do not end the description.
    pub fn www_authenticate(reason: &str) -> (r: String)
        ensures
            r@ == challenge(reason@),
    {
        join3(
            "Bearer error=\"invalid_token\", error_description=\"",
            replace_char(reason, '"', '\'').as_str(),
            "\"",
        )
    }
}

/// The answer to a request whose token is rejected: authentication is asked for
/// again, and the body says that a new try is in order.
pub open spec fn rejection(reason: Seq<char>, detail: Seq<char>) -> AuthResponseView {
    AuthResponseView {
        status: api::UNAUTHORIZED,
        www_authenticate: Some(challenge(reason)),
        body: AuthBodyView::Json(retry_body(detail)),
    }
}

/// The answer to an error of the token validator, given its status.
pub open spec fn validator_answer(status: u16, message: Seq<char>) -> AuthResponseView {
    if status == api::UNAUTHORIZED {
        rejection("missing or invalid bearer token"@, message)
    } else {
        AuthResponseView { status, www_authenticate: None, body: AuthBodyView::Text(message) }
    }
}

/// The answer to an error.
pub open spec fn answer(e: AuthError) -> AuthResponseView {
    match e {
        AuthError::EnrichmentFailed(reason) => rejection("token enrichment failed"@, reason@),
        AuthError::MissingToken => AuthResponseView {
            status: api::UNAUTHORIZED,
            www_authenticate: Some(challenge("missing or invalid bearer token"@)),
            body: AuthBodyView::Text(e.text()),
        },
        AuthError::InvalidToken(_) => rejection("missing or invalid bearer token"@, e.text()),
        AuthError::InvalidClaims(_) => AuthResponseView {
            status: api::FORBIDDEN,
            www_authenticate: None,
            body: AuthBodyView::Text(e.text()),
        },
        AuthError::PepError { status, message: _ } => validator_answer(status, e.text()),
        AuthError::Internal(_) => AuthResponseView {
            status: api::INTERNAL_SERVER_ERROR,
            www_authenticate: None,
            body: AuthBodyView::Text(e.text()),
        },
    }
}

fn reject(reason: &str, detail: &str) -> (r: AuthResponse)
    ensures
        r.deep_view() == rejection(reason@, detail@),
{
    let o = with(empty_object(), "error", text("token_expired"));
    let o = with(o, "retryable", Json::Bool(true));
    let o = with(o, "detail", text(detail));
    AuthResponse {
        status: UNAUTHORIZED,
        www_authenticate: Some(AuthError::www_authenticate(reason)),
        body: AuthBody::Json(Json::Object(o)),
    }
}

/// The answer to an error of the token validator, given its status and message.
///
/// A rejected token answers like every other: with a challenge and a body that
/// says that a new try is in order.
pub fn validator_response(status: u16, message: String) -> (r: AuthResponse)
    ensures
        r.deep_view() == validator_answer(status, message@),
{
    if status == UNAUTHORIZED {
        reject("missing or invalid bearer token", message.as_str())
    } else {
        AuthResponse { status, www_authenticate: None, body: AuthBody::Text(message) }
    }
}

impl AuthError {
    /// The answer to an error.
    pub fn into_response(self) -> (r: AuthResponse)
        ensures
            r.deep_view() == answer(self),
    {
        let text = self.message();
        match self {
            AuthError::EnrichmentFailed(reason) => reject(
                "token enrichment failed",
                reason.as_str(),
            ),
            AuthError::MissingToken => AuthResponse {
                status: UNAUTHORIZED,
                www_authenticate: Some(
                    AuthError::www_authenticate("missing or invalid bearer token"),
                ),
                body: AuthBody::Text(text),
            },
            AuthError::InvalidToken(_) => reject(
                "missing or invalid bearer token",
                text.as_str(),
            ),
            AuthError::InvalidClaims(_) => AuthResponse {
                status: FORBIDDEN,
                www_authenticate: None,
                body: AuthBody::Text(text),
            },
            AuthError::PepError { status, message: _ } => validator_response(status, text),
            AuthError::Internal(_) => AuthResponse {
                status: INTERNAL_SERVER_ERROR,
                www_authenticate: None,
                body: AuthBody::Text(text),
            },
        }
    }
}

/// Every refusal that asks for authentication carries the challenge, with the
/// error `invalid_token`.
pub proof fn law_challenge_on_every_401(e: AuthError)
    requires
        answer(e).status == api::UNAUTHORIZED,
    ensures
        answer(e).www_authenticate is Some,
        text::has_prefix(answer(e).www_authenticate->0, "Bearer error=\"invalid_token\""@),
{
    reveal_strlit("Bearer error=\"invalid_token\"");
    reveal_strlit("Bearer error=\"invalid_token\", error_description=\"");
    let c = answer(e).www_authenticate->0;
    assert(c.subrange(0, "Bearer error=\"invalid_token\""@.len() as int)
        =~= "Bearer error=\"invalid_token\""@);
}

/// A token that is rejected answers with a body that says that a new try is in
/// order, and never like a denial.
pub proof fn law_rejected_token_is_retryable(e: AuthError)
    requires
        e is EnrichmentFailed || e is InvalidToken || (e matches AuthError::PepError {
            status,
            message: _,
        } && status == api::UNAUTHORIZED),
    ensures
        answer(e).status == api::UNAUTHORIZED,
        answer(e).status != api::FORBIDDEN,
        answer(e).body matches AuthBodyView::Json(b) && b.text_member("error"@) == Some(
            "token_expired"@,
        ) && b.member("retryable"@) == Some(JsonView::Bool(true)),
{
    reveal_strlit("error");
    reveal_strlit("retryable");
    reveal_strlit("detail");
    assert("error"@.len() != "retryable"@.len());
    assert("detail"@.len() != "retryable"@.len());
    assert("error"@.len() != "detail"@.len());
}

} // verus!
