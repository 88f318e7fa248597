//! An embeddable HTTP request engine: requests and responses, the retry state
//! machine with its backoff, result parsers and the error taxonomy. The
//! transfer itself is the caller's: the engine says what to do next and takes
//! what happened.

pub mod backoff;
pub mod client;
pub mod engine;
pub mod error;
pub mod hexdump;
pub mod json;
pub mod request;
pub mod response;
pub mod text;
pub mod urls;

pub use backoff::delay_for_attempt;
pub use client::{add_headers_to_list, HttpClient, Interceptor, NoInterceptor};
pub use engine::{Action, Event, Execution};
pub use error::{ErrorKind, RequestError, UrlParseError};
pub use json::{parse_json, parse_void};
pub use request::{HttpMethod, Request};
pub use response::Response;
