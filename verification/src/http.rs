//! The checks the bridge makes of each Paperclip response before it trusts
//! the body.
use crate::error::{invalid, unit_result_view, AppError, AppErrorView};
use vstd::prelude::*;

verus! {

/// The largest response body the bridge reads: 2 MiB.
pub const MAX_RESPONSE_BYTES: u64 = 2097152;

/// A 2xx status.
pub open spec fn is_success(status: u16) -> bool {
    200 <= status && status <= 299
}

pub open spec fn msg_unbounded() -> Seq<char> {
    "Paperclip response did not include a bounded content length."@
}

pub open spec fn msg_too_large() -> Seq<char> {
    "Paperclip response exceeded the 2 MiB safety limit."@
}

/// What `check_json_response` answers for a response with `status` and
/// `content_length` to the request that `label` names.
pub open spec fn json_response_outcome(
    label: Seq<char>,
    status: u16,
    content_length: Option<u64>,
) -> Result<(), AppErrorView> {
    if !is_success(status) {
        Err(AppErrorView::HttpStatus(label, status))
    } else {
        match content_length {
            None => Err(AppErrorView::InvalidArgument(msg_unbounded())),
            Some(n) => if n > MAX_RESPONSE_BYTES {
                Err(AppErrorView::InvalidArgument(msg_too_large()))
            } else {
                Ok(())
            },
        }
    }
}

/// Accepts a JSON response only with a 2xx status and a declared length of
/// at most 2 MiB.
pub fn check_json_response(label: &str, status: u16, content_length: Option<u64>) -> (r: Result<
    (),
    AppError,
>)
    ensures
        unit_result_view(&r) == json_response_outcome(label@, status, content_length),
{
    if !(200 <= status && status <= 299) {
        return Err(AppError::HttpStatus { url: label.to_owned(), status });
    }
    match content_length {
        None => Err(invalid("Paperclip response did not include a bounded content length.")),
        Some(n) => if n > MAX_RESPONSE_BYTES {
            Err(invalid("Paperclip response exceeded the 2 MiB safety limit."))
        } else {
            Ok(())
        },
    }
}

/// Accepts a body that was read only if it holds at most 2 MiB.
pub fn check_body_length(len: usize) -> (r: Result<(), AppError>)
    ensures
        len as u64 > MAX_RESPONSE_BYTES ==> unit_result_view(&r) == Err::<(), AppErrorView>(
            AppErrorView::InvalidArgument(msg_too_large()),
        ),
        len as u64 <= MAX_RESPONSE_BYTES ==> r is Ok,
{
    if len as u64 > MAX_RESPONSE_BYTES {
        Err(invalid("Paperclip response exceeded the 2 MiB safety limit."))
    } else {
        Ok(())
    }
}

/// Accepts the answer to a request whose body the bridge ignores: a 2xx
/// status, or 401 and 404, which mean there was nothing left to act on.
pub fn check_empty_response(label: &str, status: u16) -> (r: Result<(), AppError>)
    ensures
        (is_success(status) || status == 401 || status == 404) ==> r is Ok,
        !(is_success(status) || status == 401 || status == 404) ==> unit_result_view(&r) == Err::<
            (),
            AppErrorView,
        >(AppErrorView::HttpStatus(label@, status)),
{
    if !(200 <= status && status <= 299) && status != 401 && status != 404 {
        return Err(AppError::HttpStatus { url: label.to_owned(), status });
    }
    Ok(())
}

/// The error for a request to `label` that could not be sent or answered.
pub fn request_failed(label: &str) -> (e: AppError)
    ensures
        e@ == AppErrorView::Network(label@, "request failed"@),
{
    AppError::Network { url: label.to_owned(), message: "request failed".to_owned() }
}

/// The error for a response to `label` whose body could not be read.
pub fn body_unreadable(label: &str) -> (e: AppError)
    ensures
        e@ == AppErrorView::Network(label@, "response body could not be read"@),
{
    AppError::Network {
        url: label.to_owned(),
        message: "response body could not be read".to_owned(),
    }
}

/// The error for a response body that is not the JSON the bridge expects.
pub fn invalid_json_response() -> (e: AppError)
    ensures
        e@ == AppErrorView::Internal("Paperclip returned an invalid JSON response."@),
{
    AppError::Internal { message: "Paperclip returned an invalid JSON response.".to_owned() }
}

} // verus!
