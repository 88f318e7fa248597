//! The parser for typed results: a successful response is decoded, any other
//! becomes an HTTP failure.

use vstd::prelude::*;
use crate::error::{ErrorKind, RequestError};
use crate::request::Request;
use crate::response::{is_success_status, Response};

verus! {

/// Makes a typed result of a response. With a status from 200 to 299 the body
/// goes through `decode`, and what comes back is the result: the value, or a
/// decoding failure that holds the request. With any other status `decode` is
/// not called, and the result is an HTTP failure that holds request and
/// response.
pub fn parse_json<T, D>(req: Request, res: Response, decode: D) -> (result: Result<
    T,
    RequestError,
>) where D: FnOnce(&Vec<u8>) -> Result<T, serde_json::Error>
    requires
        is_success_status(res.status_code) ==> decode.requires((&res.body,)),
    ensures
        is_success_status(res.status_code) ==> match result {
            Ok(value) => decode.ensures((&res.body,), Ok(value)),
            Err(error) => {
                &&& error.request == req
                &&& error.kind matches ErrorKind::JsonParseError(cause)
                &&& decode.ensures((&res.body,), Err(cause))
            },
        },
        !is_success_status(res.status_code) ==> result == Err::<T, RequestError>(
            RequestError { request: req, kind: ErrorKind::HttpError(res) },
        ),
{
    if res.is_success() {
        match decode(&res.body) {
            Ok(value) => Ok(value),
            Err(cause) => Err(RequestError { request: req, kind: ErrorKind::JsonParseError(cause) }),
        }
    } else {
        Err(RequestError { request: req, kind: ErrorKind::HttpError(res) })
    }
}

/// The parser for calls without a result: a status from 200 to 299 is
/// success, and the body is dropped; any other is an HTTP failure that holds
/// request and response.
pub fn parse_void(req: Request, res: Response) -> (result: Result<(), RequestError>)
    ensures
        is_success_status(res.status_code) ==> result is Ok,
        !is_success_status(res.status_code) ==> result == Err::<(), RequestError>(
            RequestError { request: req, kind: ErrorKind::HttpError(res) },
        ),
{
    if res.is_success() {
        Ok(())
    } else {
        Err(RequestError { request: req, kind: ErrorKind::HttpError(res) })
    }
}

} // verus!
