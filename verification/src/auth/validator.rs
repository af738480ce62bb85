//! The token validator's errors.
use vstd::prelude::*;

verus! {

/// `pep::error::PepError`: why a token was not accepted.
#[verifier::external_type_specification]
#[verifier::external_body]
pub struct ExPepError(pep::error::PepError);

/// The HTTP status that `PepError::status_code` gives for an error.
pub uninterp spec fn pep_status(e: pep::error::PepError) -> u16;

/// `PepError::status_code`, as a number.  It depends on the error alone, and is
/// one of the statuses that the validator answers with.
#[verifier::external_body]
pub(crate) fn status_code(e: &pep::error::PepError) -> (r: u16)
    ensures
        r == pep_status(*e),
        r == 400 || r == 401 || r == 403 || r == 500 || r == 502 || r == 503,
{
    e.status_code().as_u16()
}

/// The text that `PepError` displays.  Nothing is said of it: the texts of errors
/// of the operating system, which it can hold, differ between machines.
#[verifier::external_body]
pub(crate) fn display(e: &pep::error::PepError) -> (r: String) {
    format!("{}", e)
}

/// A text that `PepError` may display for an error.
pub closed spec fn may_display(e: pep::error::PepError, text: String) -> bool {
    call_ensures(display, (&e,), text)
}

/// The text that an error displays.
pub fn displayed(e: &pep::error::PepError) -> (r: String)
    ensures
        may_display(*e, r),
{
    display(e)
}

} // verus!
