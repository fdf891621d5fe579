use vstd::prelude::*;

use crate::compression::CompressionError;
use crate::retry::{classify_status, is_transient_status, ErrorClass};

verus! {

/// Errors of the web backend.
#[derive(Debug)]
pub enum FileUtilWebError {
    /// The request failed; the text describes why.
    HttpAccessError(String),
    CompressionError(CompressionError),
}

/// What a read does once the response status is known.
#[derive(Clone, Copy, Debug, PartialEq, Eq, Structural)]
pub enum WebReadStep {
    /// Take the body as the contents.
    Body,
    /// The resource is confirmed absent.
    NotFound,
    /// The request failed with an error of this class.
    Fail(ErrorClass),
}

pub open spec fn is_success(status: u16) -> bool {
    200 <= status <= 299
}

/// What a response status says of a URL's existence: a success status means it exists,
/// 404 that it does not; any other status is a failure, transient for a timeout or a
/// server error and permanent otherwise.
pub fn url_exists_from_status(status: u16) -> (r: Result<bool, ErrorClass>)
    ensures
        is_success(status) ==> r == Ok::<bool, ErrorClass>(true),
        status == 404 ==> r == Ok::<bool, ErrorClass>(false),
        !is_success(status) && status != 404 ==> r is Err && (r->Err_0 == ErrorClass::Transient
            <==> is_transient_status(status)),
{
    if 200 <= status && status <= 299 {
        Ok(true)
    } else if status == 404 {
        Ok(false)
    } else {
        Err(classify_status(status))
    }
}

/// The step a read takes on a response status: success gives the body, 404 means
/// absent, a timeout or server error is transient, anything else permanent.
pub fn read_step(status: u16) -> (r: WebReadStep)
    ensures
        is_success(status) ==> r == WebReadStep::Body,
        status == 404 ==> r == WebReadStep::NotFound,
        !is_success(status) && status != 404 && is_transient_status(status) ==> r
            == WebReadStep::Fail(ErrorClass::Transient),
        !is_success(status) && status != 404 && !is_transient_status(status) ==> r
            == WebReadStep::Fail(ErrorClass::Permanent),
{
    if 200 <= status && status <= 299 {
        WebReadStep::Body
    } else if status == 404 {
        WebReadStep::NotFound
    } else {
        WebReadStep::Fail(classify_status(status))
    }
}

} // verus!
