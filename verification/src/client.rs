//! The client: a base URL, the headers that every request gets, and an
//! interceptor. It builds requests and prepares them for the transfer.

use vstd::prelude::*;
use vstd::string::*;
use vstd::utf8::*;
use crate::error::UrlParseError;
use crate::request::{Request, RequestView};
use crate::urls::{
    extend_path,
    extend_query,
    pairs_fit,
    pairs_weight,
    parse_url,
    parsed_url,
    segments_fit,
    segments_weight,
    url_with_query,
    url_with_segments,
    MAX_URL_INPUT,
};

verus! {

/// Looks at each request before it is sent. `T` is the handle of the transfer
/// mechanism.
pub trait Interceptor<T> {
    /// What `add_headers` may make of a list. An interceptor says here what it
    /// does, as far as it wants to be held to it; unless it says otherwise,
    /// anything goes.
    open spec fn may_leave(
        &self,
        request: &Request,
        given: Seq<Seq<char>>,
        left: Seq<Seq<char>>,
    ) -> bool {
        true
    }

    /// What `modify` may make of a transport; as `may_leave`, it is for the
    /// interceptor to say.
    open spec fn may_set(&self, request: &Request, given: T, left: T) -> bool {
        true
    }

    /// May set on the transport what a request does not describe. The header
    /// lines are set after it: headers are for `add_headers`.
    fn modify(&self, transport: &mut T, request: &Request)
        ensures
            self.may_set(request, *old(transport), *final(transport)),
    ;

    /// May add header lines, `Name: value`. The client hands it an empty list,
    /// and sends what it leaves there after its own and the request's headers.
    fn add_headers(&self, headers: &mut Vec<String>, request: &Request)
        ensures
            self.may_leave(request, old(headers).deep_view(), final(headers).deep_view()),
    ;
}

/// The interceptor that does nothing.
pub struct NoInterceptor;

impl<T> Interceptor<T> for NoInterceptor {
    open spec fn may_leave(
        &self,
        request: &Request,
        given: Seq<Seq<char>>,
        left: Seq<Seq<char>>,
    ) -> bool {
        left == given
    }

    open spec fn may_set(&self, request: &Request, given: T, left: T) -> bool {
        left == given
    }

    fn modify(&self, transport: &mut T, request: &Request) {
    }

    fn add_headers(&self, headers: &mut Vec<String>, request: &Request) {
    }
}

/// A header as one line.
pub open spec fn header_text(pair: (Seq<char>, Seq<char>)) -> Seq<char> {
    pair.0 + ": "@ + pair.1
}

/// Headers as lines, in the same order.
pub open spec fn header_lines(pairs: Seq<(Seq<char>, Seq<char>)>) -> Seq<Seq<char>> {
    Seq::new(pairs.len(), |i: int| header_text(pairs[i]))
}

/// The headers that a request goes out with, before the interceptor adds its
/// own: the client's default headers, then the request's. A name that occurs
/// in both occurs twice.
pub open spec fn merged_header_lines(
    default_headers: Seq<(Seq<char>, Seq<char>)>,
    request_headers: Seq<(Seq<char>, Seq<char>)>,
) -> Seq<Seq<char>> {
    header_lines(default_headers) + header_lines(request_headers)
}

/// Appends each header of `headers` to `list` as a line `Name: value`.
pub fn add_headers_to_list(headers: &Vec<(String, String)>, list: &mut Vec<String>)
    ensures
        final(list).deep_view() == old(list).deep_view() + header_lines(headers.deep_view()),
{
    let mut i: usize = 0;
    while i < headers.len()
        invariant
            i <= headers@.len(),
            list.deep_view() == old(list).deep_view() + header_lines(headers.deep_view()).take(
                i as int,
            ),
        decreases headers@.len() - i,
    {
        let mut line = String::new();
        line.append(headers[i].0.as_str());
        line.append(": ");
        line.append(headers[i].1.as_str());
        let ghost before = list.deep_view();
        list.push(line);
        assert(list.deep_view() == before.push(line@));
        assert(header_lines(headers.deep_view()).take(i + 1) == header_lines(
            headers.deep_view(),
        ).take(i as int).push(line@));
        i += 1;
    }
    assert(header_lines(headers.deep_view()).take(i as int) == header_lines(
        headers.deep_view(),
    ));
}

/// Both groups of headers are on the wire in full: every default header and
/// every header of the request has its line, at the place its order gives it.
pub proof fn lemma_merged_keeps_all(
    default_headers: Seq<(Seq<char>, Seq<char>)>,
    request_headers: Seq<(Seq<char>, Seq<char>)>,
)
    ensures
        merged_header_lines(default_headers, request_headers).len() == default_headers.len()
            + request_headers.len(),
        forall|i: int|
            0 <= i < default_headers.len() ==> #[trigger] merged_header_lines(
                default_headers,
                request_headers,
            )[i] == header_text(default_headers[i]),
        forall|j: int|
            0 <= j < request_headers.len() ==> #[trigger] merged_header_lines(
                default_headers,
                request_headers,
            )[default_headers.len() + j] == header_text(request_headers[j]),
{
}

/// The base of the URLs, the default headers and the interceptor of a group
/// of requests.
pub struct HttpClient<I> {
    base_url: String,
    default_headers: Option<Vec<(String, String)>>,
    interceptor: I,
}

impl HttpClient<NoInterceptor> {
    /// A client for the URLs under `base_url`, without default headers and
    /// without an interceptor. It fails where `base_url` is no absolute URL.
    pub fn new(base_url: &str) -> (client: Result<HttpClient<NoInterceptor>, UrlParseError>)
        ensures
            match client {
                Ok(client) => {
                    &&& parsed_url(base_url@) == Some(client.base())
                    &&& client.default_pairs() == Seq::<(Seq<char>, Seq<char>)>::empty()
                },
                Err(_) => parsed_url(base_url@) is None,
            },
    {
        match parse_url(base_url) {
            Ok(base_url) => Ok(Self::with_base(base_url)),
            Err(cause) => Err(cause),
        }
    }

    /// A client whose base URL is `base_url` as it stands, without default
    /// headers and without an interceptor.
    pub fn with_base(base_url: String) -> (client: HttpClient<NoInterceptor>)
        ensures
            client.base() == base_url@,
            client.default_pairs() == Seq::<(Seq<char>, Seq<char>)>::empty(),
    {
        HttpClient { base_url, default_headers: None, interceptor: NoInterceptor }
    }
}

impl<I> HttpClient<I> {
    /// The base URL, serialised.
    pub closed spec fn base(&self) -> Seq<char> {
        self.base_url@
    }

    /// The default headers; none where none were set.
    pub closed spec fn default_pairs(&self) -> Seq<(Seq<char>, Seq<char>)> {
        match self.default_headers {
            Some(headers) => headers.deep_view(),
            None => Seq::empty(),
        }
    }

    /// The interceptor.
    pub closed spec fn interceptor_of(&self) -> I {
        self.interceptor
    }

    /// The base URL, serialised.
    pub fn base_url(&self) -> (url: &str)
        ensures
            url@ == self.base(),
    {
        self.base_url.as_str()
    }

    /// Replaces the default headers by `headers`.
    pub fn set_default_headers(&mut self, headers: &[(&str, &str)])
        ensures
            final(self).default_pairs() == headers.deep_view(),
            final(self).base() == old(self).base(),
            final(self).interceptor_of() == old(self).interceptor_of(),
    {
        let mut default_headers: Vec<(String, String)> = Vec::new();
        let mut i: usize = 0;
        while i < headers.len()
            invariant
                i <= headers@.len(),
                default_headers.deep_view() == headers.deep_view().take(i as int),
            decreases headers@.len() - i,
        {
            let (name, value) = headers[i];
            let ghost before = default_headers.deep_view();
            default_headers.push((name.to_owned(), value.to_owned()));
            assert(default_headers.deep_view() == before.push((name@, value@)));
            assert(headers.deep_view().take(i + 1) == headers.deep_view().take(i as int).push(
                (name@, value@),
            ));
            i += 1;
        }
        assert(headers.deep_view().take(i as int) == headers.deep_view());
        self.default_headers = Some(default_headers)
    }

    /// Replaces the interceptor.
    pub fn set_interceptor(&mut self, interceptor: I)
        ensures
            final(self).interceptor_of() == interceptor,
            final(self).base() == old(self).base(),
            final(self).default_pairs() == old(self).default_pairs(),
    {
        self.interceptor = interceptor
    }

    /// The same client with another interceptor.
    pub fn with_interceptor<J>(self, interceptor: J) -> (client: HttpClient<J>)
        ensures
            client.interceptor_of() == interceptor,
            client.base() == self.base(),
            client.default_pairs() == self.default_pairs(),
    {
        HttpClient {
            base_url: self.base_url,
            default_headers: self.default_headers,
            interceptor,
        }
    }

    /// Whether `path` can be joined to the base URL: the base can be a base,
    /// and the input is within `MAX_URL_INPUT`.
    pub open spec fn joins(&self, path: Seq<Seq<char>>) -> bool {
        &&& encode_utf8(self.base()).len() + segments_weight(path) <= MAX_URL_INPUT
        &&& url_with_segments(self.base(), path) is Some
    }

    /// The URL of `path` under the base URL.
    pub open spec fn joined(&self, path: Seq<Seq<char>>) -> Seq<char> {
        url_with_segments(self.base(), path)->0
    }

    /// Whether `params` can be added to the URL of `path`.
    pub open spec fn joins_with_params(
        &self,
        path: Seq<Seq<char>>,
        params: Seq<(Seq<char>, Seq<char>)>,
    ) -> bool {
        &&& self.joins(path)
        &&& encode_utf8(self.joined(path)).len() + pairs_weight(params) <= MAX_URL_INPUT
        &&& url_with_query(self.joined(path), params) is Some
    }

    /// The URL of `path` under the base URL, with `params` as its query.
    pub open spec fn joined_with_params(
        &self,
        path: Seq<Seq<char>>,
        params: Seq<(Seq<char>, Seq<char>)>,
    ) -> Seq<char> {
        url_with_query(self.joined(path), params)->0
    }

    fn prepare_url_with_path(&self, path: &[&str]) -> (url: String)
        requires
            self.joins(path.deep_view()),
        ensures
            url@ == self.joined(path.deep_view()),
    {
        match extend_path(self.base_url.as_str(), path) {
            Some(url) => url,
            None => vstd::pervasive::unreached(),
        }
    }

    /// A `GET` request for `path` under the base URL. The segments of `path`
    /// are percent-encoded and joined by `/`; an empty last segment of the
    /// base is dropped before.
    pub fn new_request(&self, path: &[&str]) -> (request: Request)
        requires
            self.joins(path.deep_view()),
        ensures
            request@ == RequestView::get(self.joined(path.deep_view())),
    {
        Request::new(self.prepare_url_with_path(path))
    }

    /// As `new_request`, where `path` can be joined to the base URL; nothing
    /// where it cannot.
    pub fn try_new_request(&self, path: &[&str]) -> (request: Option<Request>)
        ensures
            request is Some <==> self.joins(path.deep_view()),
            request matches Some(request) ==> request@ == RequestView::get(
                self.joined(path.deep_view()),
            ),
    {
        if !segments_fit(self.base_url.as_str(), path) {
            return None;
        }
        if extend_path(self.base_url.as_str(), path).is_none() {
            return None;
        }
        Some(self.new_request(path))
    }

    /// A `GET` request for `path` under the base URL, with `params` as the
    /// query, form-encoded.
    pub fn new_request_with_params(&self, path: &[&str], params: &[(&str, &str)]) -> (request:
        Request)
        requires
            self.joins_with_params(path.deep_view(), params.deep_view()),
        ensures
            request@ == RequestView::get(
                self.joined_with_params(path.deep_view(), params.deep_view()),
            ),
    {
        let url = self.prepare_url_with_path(path);
        match extend_query(url.as_str(), params) {
            Some(url) => Request::new(url),
            None => vstd::pervasive::unreached(),
        }
    }

    /// As `new_request_with_params`, where path and query can be joined to the
    /// base URL; nothing where they cannot.
    pub fn try_new_request_with_params(&self, path: &[&str], params: &[(&str, &str)]) -> (request:
        Option<Request>)
        ensures
            request is Some <==> self.joins_with_params(path.deep_view(), params.deep_view()),
            request matches Some(request) ==> request@ == RequestView::get(
                self.joined_with_params(path.deep_view(), params.deep_view()),
            ),
    {
        if !segments_fit(self.base_url.as_str(), path) {
            return None;
        }
        let url = match extend_path(self.base_url.as_str(), path) {
            Some(url) => url,
            None => {
                return None;
            },
        };
        if !pairs_fit(url.as_str(), params) {
            return None;
        }
        if extend_query(url.as_str(), params).is_none() {
            return None;
        }
        Some(self.new_request_with_params(path, params))
    }

    /// A `GET` request for `url`, which need not lie under the base URL. It
    /// fails where `url` is no absolute URL.
    pub fn new_request_with_url(&self, url: &str) -> (request: Result<Request, UrlParseError>)
        ensures
            match request {
                Ok(request) => {
                    &&& parsed_url(url@) == Some(request@.url)
                    &&& request@ == RequestView::get(request@.url)
                },
                Err(_) => parsed_url(url@) is None,
            },
    {
        match parse_url(url) {
            Ok(url) => Ok(Request::new(url)),
            Err(cause) => Err(cause),
        }
    }

    /// The header lines of `request` before the interceptor sees it: the
    /// default headers, then the request's own, none left out and none merged.
    pub fn merged_headers(&self, request: &Request) -> (lines: Vec<String>)
        ensures
            lines.deep_view() == merged_header_lines(self.default_pairs(), request@.header_pairs()),
    {
        let mut lines: Vec<String> = Vec::new();
        assert(lines.deep_view() == Seq::<Seq<char>>::empty());
        if let Some(default_headers) = &self.default_headers {
            add_headers_to_list(default_headers, &mut lines);
        }
        assert(lines.deep_view() == header_lines(self.default_pairs()));
        if let Some(request_headers) = &request.headers {
            add_headers_to_list(request_headers, &mut lines);
        }
        lines
    }

    /// Prepares `request` for its transfer: merges the headers, lets the
    /// interceptor add its own after them, and lets it set up `transport`.
    /// The lines that come back are the headers to send, in order.
    pub fn prepare<T>(&self, request: &Request, transport: &mut T) -> (lines: Vec<String>) where
        I: Interceptor<T>,

        ensures
            self.interceptor_of().may_set(request, *old(transport), *final(transport)),
            exists|added: Seq<Seq<char>>|
                {
                    &&& self.interceptor_of().may_leave(request, Seq::empty(), added)
                    &&& lines.deep_view() == merged_header_lines(
                        self.default_pairs(),
                        request@.header_pairs(),
                    ) + added
                },
    {
        let mut lines = self.merged_headers(request);
        let mut added: Vec<String> = Vec::new();
        assert(added.deep_view() == Seq::<Seq<char>>::empty());
        self.interceptor.add_headers(&mut added, request);
        let ghost left = added.deep_view();
        append_lines(&mut lines, added);
        self.interceptor.modify(transport, request);
        assert(self.interceptor_of().may_leave(request, Seq::empty(), left));
        lines
    }
}

/// Moves the lines of `added` to the end of `lines`.
pub fn append_lines(lines: &mut Vec<String>, added: Vec<String>)
    ensures
        final(lines).deep_view() == old(lines).deep_view() + added.deep_view(),
{
    let mut added = added;
    let ghost all = added.deep_view();
    assert(lines.deep_view() + added.deep_view() == old(lines).deep_view() + all);
    lines.append(&mut added);
    assert(lines.deep_view() == old(lines).deep_view() + all);
}

} // verus!
