//! Answers: a status and a JSON body.
use crate::json::{empty_object, text, with, Json, JsonView};
use vstd::prelude::*;

verus! {

/// The status of an answer that gives what was asked for.
pub const OK: u16 = 200;

/// The status of an answer to a creation.
pub const CREATED: u16 = 201;

/// The status of a request that cannot be understood.
pub const BAD_REQUEST: u16 = 400;

/// The status of a request without a valid identity.
pub const UNAUTHORIZED: u16 = 401;

/// The status of a request that is not permitted.
pub const FORBIDDEN: u16 = 403;

/// The status of a request for something that is not there.
pub const NOT_FOUND: u16 = 404;

/// The status of a failure on this side.
pub const INTERNAL_SERVER_ERROR: u16 = 500;

/// A refusal.
pub struct ApiError {
    pub status: u16,
    pub body: Json,
}

/// What a refusal says.
#[verifier::ext_equal]
pub struct ApiErrorView {
    pub status: u16,
    pub body: JsonView,
}

impl DeepView for ApiError {
    type V = ApiErrorView;

    open spec fn deep_view(&self) -> ApiErrorView {
        ApiErrorView { status: self.status, body: self.body.model() }
    }
}

/// A refusal with a message under `error`.
pub open spec fn refusal(status: u16, message: Seq<char>) -> ApiErrorView {
    ApiErrorView {
        status,
        body: JsonView::Object(Map::empty().insert("error"@, JsonView::Text(message))),
    }
}

/// A refusal with a message under `error`.
pub fn refuse(status: u16, message: &str) -> (r: ApiError)
    ensures
        r.deep_view() == refusal(status, message@),
{
    ApiError { status, body: Json::Object(with(empty_object(), "error", text(message))) }
}

} // verus!
