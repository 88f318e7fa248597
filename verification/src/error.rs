//! The one error type of the engine: a call fails in transport, by its HTTP
//! status, or in decoding, and the error keeps the request that failed.

use vstd::prelude::*;
use vstd::string::*;
use vstd::std_specs::convert::FromSpecImpl;
use vstd::utf8::*;
use crate::hexdump::{hexdump, hexdump_text};
use crate::text::{decimal_text, push_decimal, utf8_text};
use crate::request::Request;
use crate::response::{Response, ResponseView};

verus! {

#[verifier::external_type_specification]
#[verifier::external_body]
pub struct ExCurlError(curl::Error);

#[verifier::external_type_specification]
#[verifier::external_body]
pub struct ExJsonError(serde_json::Error);

#[verifier::external_type_specification]
#[verifier::external_body]
pub struct ExUrlParseError(url::ParseError);

/// Why a string was not accepted as a URL.
pub type UrlParseError = url::ParseError;

/// A failed call, with the request that was made.
pub struct RequestError {
    pub request: Request,
    pub kind: ErrorKind,
}

/// The three ways for a call to fail.
pub enum ErrorKind {
    /// The transfer completed, and the parser took the response for a
    /// failure.
    HttpError(Response),
    /// No response came: the transfer itself failed, and no attempt was left.
    CurlError(curl::Error),
    /// The response was fine, and its body could not be decoded.
    JsonParseError(serde_json::Error),
}

impl From<(Request, curl::Error)> for RequestError {
    fn from(pair: (Request, curl::Error)) -> (error: RequestError) {
        RequestError { request: pair.0, kind: ErrorKind::CurlError(pair.1) }
    }
}

impl FromSpecImpl<(Request, curl::Error)> for RequestError {
    open spec fn obeys_from_spec() -> bool {
        true
    }

    open spec fn from_spec(pair: (Request, curl::Error)) -> RequestError {
        RequestError { request: pair.0, kind: ErrorKind::CurlError(pair.1) }
    }
}

impl From<(Request, serde_json::Error)> for RequestError {
    fn from(pair: (Request, serde_json::Error)) -> (error: RequestError) {
        RequestError { request: pair.0, kind: ErrorKind::JsonParseError(pair.1) }
    }
}

impl FromSpecImpl<(Request, serde_json::Error)> for RequestError {
    open spec fn obeys_from_spec() -> bool {
        true
    }

    open spec fn from_spec(pair: (Request, serde_json::Error)) -> RequestError {
        RequestError { request: pair.0, kind: ErrorKind::JsonParseError(pair.1) }
    }
}

impl From<(Request, Response)> for RequestError {
    fn from(pair: (Request, Response)) -> (error: RequestError) {
        RequestError { request: pair.0, kind: ErrorKind::HttpError(pair.1) }
    }
}

impl FromSpecImpl<(Request, Response)> for RequestError {
    open spec fn obeys_from_spec() -> bool {
        true
    }

    open spec fn from_spec(pair: (Request, Response)) -> RequestError {
        RequestError { request: pair.0, kind: ErrorKind::HttpError(pair.1) }
    }
}

/// The message of a `curl::Error`, as its `Display` writes it. Nothing is
/// claimed of the text.
#[verifier::external_body]
fn transport_message(cause: &curl::Error) -> String {
    format!("{}", cause)
}

/// A `curl::Error` as its `Debug` writes it. Nothing is claimed of the text.
#[verifier::external_body]
fn transport_detail(cause: &curl::Error) -> String {
    format!("{:?}", cause)
}

/// The message of a `serde_json::Error`, as its `Display` writes it. Nothing
/// is claimed of the text.
#[verifier::external_body]
fn decode_message(cause: &serde_json::Error) -> String {
    format!("{}", cause)
}

/// A `serde_json::Error` as its `Debug` writes it. Nothing is claimed of the
/// text.
#[verifier::external_body]
fn decode_detail(cause: &serde_json::Error) -> String {
    format!("{:?}", cause)
}

impl ErrorKind {
    /// How the debug rendering opens: the variant's name, up to the request.
    pub open spec fn opening(&self) -> Seq<char> {
        match self {
            ErrorKind::HttpError(_) => "HttpError { request: "@,
            ErrorKind::CurlError(_) => "CurlError { request: "@,
            ErrorKind::JsonParseError(_) => "JsonParseError { request: "@,
        }
    }

    /// How the debug rendering introduces the cause.
    pub open spec fn cause_label(&self) -> Seq<char> {
        match self {
            ErrorKind::HttpError(_) => ", response: "@,
            ErrorKind::CurlError(_) => ", error: "@,
            ErrorKind::JsonParseError(_) => ", error: "@,
        }
    }
}

impl RequestError {
    /// The debug rendering, given the renderings of the request and of the
    /// cause: the kind, the request, the cause.
    pub open spec fn debug_frame_text(&self, request: Seq<char>, cause: Seq<char>) -> Seq<char> {
        self.kind.opening() + request + self.kind.cause_label() + cause + " }"@
    }

    /// The debug rendering around the rendering `cause` of what went wrong.
    pub open spec fn debug_text(&self, cause: Seq<char>) -> Seq<char> {
        self.debug_frame_text(self.request@.debug_text(false), cause)
    }

    /// A body for a reader: its text where the bytes are UTF-8, and the dump
    /// where they are not.
    pub open spec fn body_message(body: Seq<u8>) -> Seq<char> {
        if valid_utf8(body) {
            decode_utf8(body)
        } else {
            hexdump_text(body)
        }
    }

    /// The message of an HTTP failure: the status on the first line, and the
    /// body below it.
    pub open spec fn http_message(response: ResponseView) -> Seq<char> {
        "HTTP Error: Status: "@ + decimal_text(response.status_code as nat) + "\n"@
            + Self::body_message(response.body)
    }

    /// Renders the error as a message. An HTTP failure gives its status and
    /// its body, as text or as a dump; the other two give the message of their
    /// cause.
    pub fn to_string(&self) -> (out: String)
        ensures
            self.kind matches ErrorKind::HttpError(response) ==> out@ == Self::http_message(
                response@,
            ),
    {
        match &self.kind {
            ErrorKind::CurlError(cause) => transport_message(cause),
            ErrorKind::JsonParseError(cause) => decode_message(cause),
            ErrorKind::HttpError(response) => {
                let mut out = String::new();
                out.append("HTTP Error: Status: ");
                push_decimal(&mut out, response.status_code as u64);
                out.append("\n");
                match utf8_text(response.body.as_slice()) {
                    Some(text) => out.append(text.as_str()),
                    None => out.append(hexdump(response.body.as_slice()).as_str()),
                }
                out
            },
        }
    }

    /// Renders the error for diagnostics around `request` and `cause`, which
    /// stand for the request and for what went wrong.
    pub fn debug_frame(&self, request: &str, cause: &str) -> (out: String)
        ensures
            out@ == self.debug_frame_text(request@, cause@),
    {
        let mut out = String::new();
        match &self.kind {
            ErrorKind::HttpError(_) => {
                out.append("HttpError { request: ");
                out.append(request);
                out.append(", response: ");
            },
            ErrorKind::CurlError(_) => {
                out.append("CurlError { request: ");
                out.append(request);
                out.append(", error: ");
            },
            ErrorKind::JsonParseError(_) => {
                out.append("JsonParseError { request: ");
                out.append(request);
                out.append(", error: ");
            },
        }
        out.append(cause);
        out.append(" }");
        out
    }

    /// Renders the error for diagnostics: the kind, the request, and the
    /// cause. The cause of an HTTP failure is the response in its own debug
    /// rendering.
    pub fn to_debug_string(&self) -> (out: String)
        ensures
            exists|cause: Seq<char>| out@ == self.debug_text(cause),
            self.kind matches ErrorKind::HttpError(response) ==> out@ == self.debug_text(
                response@.debug_text(),
            ),
    {
        let cause = match &self.kind {
            ErrorKind::CurlError(cause) => transport_detail(cause),
            ErrorKind::JsonParseError(cause) => decode_detail(cause),
            ErrorKind::HttpError(response) => response.to_debug_string(),
        };
        let request = self.request.to_debug_string(false);
        let out = self.debug_frame(request.as_str(), cause.as_str());
        assert(out@ == self.debug_text(cause@));
        out
    }
}

} // verus!
