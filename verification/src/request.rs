//! The description of one HTTP call, and the operations that build it.

use vstd::prelude::*;
use vstd::string::*;
use vstd::utf8::*;
use crate::hexdump::{hexdump, hexdump_text};
use crate::text::{debug_quoted, decimal_text, push_decimal, quote};
use crate::urls::{form_urlencoded, urlencode};

verus! {

/// The HTTP verb of a request.
#[derive(Debug, Clone, Copy, PartialEq, Eq, Structural)]
pub enum HttpMethod {
    Get,
    Post,
    Put,
    Delete,
}

impl Default for HttpMethod {
    fn default() -> (method: HttpMethod)
        ensures
            method == HttpMethod::Get,
    {
        HttpMethod::Get
    }
}

impl HttpMethod {
    /// The verb's name as the debug rendering writes it.
    pub open spec fn name(self) -> Seq<char> {
        match self {
            HttpMethod::Get => "Get"@,
            HttpMethod::Post => "Post"@,
            HttpMethod::Put => "Put"@,
            HttpMethod::Delete => "Delete"@,
        }
    }

    /// The verb on the wire.
    pub open spec fn verb(self) -> Seq<char> {
        match self {
            HttpMethod::Get => "GET"@,
            HttpMethod::Post => "POST"@,
            HttpMethod::Put => "PUT"@,
            HttpMethod::Delete => "DELETE"@,
        }
    }

    /// The verb on the wire, in upper case.
    pub fn as_str(&self) -> (verb: &'static str)
        ensures
            verb@ == self.verb(),
    {
        match self {
            HttpMethod::Get => "GET",
            HttpMethod::Post => "POST",
            HttpMethod::Put => "PUT",
            HttpMethod::Delete => "DELETE",
        }
    }
}

/// One HTTP call: where it goes, how, and with what.
pub struct Request {
    /// The absolute URL, serialised.
    pub url: String,
    pub method: HttpMethod,
    /// Name and value pairs in the order they were added; a name may occur
    /// more than once.
    pub headers: Option<Vec<(String, String)>>,
    /// Fields of a multipart form, in order.
    pub form: Option<Vec<(String, String)>>,
    pub body: Option<Vec<u8>>,
    /// The most attempts to make; without one, transport failures are retried
    /// without end.
    pub retry_count: Option<u8>,
}

/// A request as a value of mathematics.
pub struct RequestView {
    pub url: Seq<char>,
    pub method: HttpMethod,
    pub headers: Option<Seq<(Seq<char>, Seq<char>)>>,
    pub form: Option<Seq<(Seq<char>, Seq<char>)>>,
    pub body: Option<Seq<u8>>,
    pub retry_count: Option<u8>,
}

impl View for Request {
    type V = RequestView;

    open spec fn view(&self) -> RequestView {
        RequestView {
            url: self.url@,
            method: self.method,
            headers: self.headers.deep_view(),
            form: self.form.deep_view(),
            body: self.body.deep_view(),
            retry_count: self.retry_count,
        }
    }
}

/// The header that announces a JSON body.
pub open spec fn json_content_type() -> (Seq<char>, Seq<char>) {
    ("Content-Type"@, "application/json"@)
}

impl RequestView {
    /// The request that a client hands out: a `GET` for `url` and nothing
    /// else.
    pub open spec fn get(url: Seq<char>) -> RequestView {
        RequestView {
            url,
            method: HttpMethod::Get,
            headers: None,
            form: None,
            body: None,
            retry_count: None,
        }
    }

    /// The headers as a sequence of pairs; empty where none was ever added.
    pub open spec fn header_pairs(self) -> Seq<(Seq<char>, Seq<char>)> {
        match self.headers {
            Some(headers) => headers,
            None => Seq::empty(),
        }
    }

    /// The request with one more header after those it has.
    pub open spec fn with_header(self, header: (Seq<char>, Seq<char>)) -> RequestView {
        RequestView { headers: Some(self.header_pairs().push(header)), ..self }
    }

    /// The note that stands for a body of `len` bytes in the rendering on one
    /// line.
    pub open spec fn body_note(len: nat) -> Seq<char> {
        decimal_text(len) + " bytes"@
    }

    /// The debug rendering, given the URL and the note on the body as they
    /// are to be shown: method and URL, and the body as its note on one line,
    /// or as a dump below the block where `alternate` asks for the long form.
    pub open spec fn debug_frame(self, alternate: bool, url: Seq<char>, note: Seq<char>) -> Seq<
        char,
    > {
        if alternate {
            "Request {\n    method: "@ + self.method.name() + ",\n    url: "@ + url + ",\n}"@
                + match self.body {
                Some(body) => "\n"@ + hexdump_text(body),
                None => Seq::empty(),
            }
        } else {
            "Request { method: "@ + self.method.name() + ", url: "@ + url + match self.body {
                Some(body) => ", body: "@ + note,
                None => Seq::empty(),
            } + " }"@
        }
    }

    /// How many bytes the body has; none without a body.
    pub open spec fn body_len(self) -> nat {
        match self.body {
            Some(body) => body.len(),
            None => 0,
        }
    }

    /// The debug rendering. The URL and the note on the body are quoted as
    /// `{:?}` quotes strings.
    pub open spec fn debug_text(self, alternate: bool) -> Seq<char> {
        self.debug_frame(
            alternate,
            debug_quoted(self.url),
            debug_quoted(Self::body_note(self.body_len())),
        )
    }
}

impl Request {
    /// Everything but the headers is the same in `self` and `other`.
    pub open spec fn same_but_headers(&self, other: &Request) -> bool {
        &&& self.url == other.url
        &&& self.method == other.method
        &&& self.form == other.form
        &&& self.body == other.body
        &&& self.retry_count == other.retry_count
    }

    /// A `GET` request for `url`, with no headers, form, body or retry limit.
    pub fn new(url: String) -> (request: Request)
        ensures
            request.url == url,
            request@ == RequestView::get(url@),
    {
        Request {
            url,
            method: HttpMethod::default(),
            form: None,
            headers: None,
            body: None,
            retry_count: None,
        }
    }

    pub fn set_method(&mut self, method: HttpMethod)
        ensures
            *final(self) == (Request { method, ..*old(self) }),
    {
        self.method = method
    }

    /// Adds a header after those already there.
    pub fn add_header(&mut self, header: &str, value: &str)
        ensures
            final(self)@ == old(self)@.with_header((header@, value@)),
            final(self).same_but_headers(old(self)),
    {
        let pair = (header.to_owned(), value.to_owned());
        let mut headers = match self.headers.take() {
            Some(headers) => headers,
            None => Vec::new(),
        };
        let ghost before = headers.deep_view();
        assert(before == old(self)@.header_pairs());
        headers.push(pair);
        assert(headers.deep_view() == before.push((header@, value@)));
        self.headers = Some(headers);
    }

    /// Replaces the form by `form`.
    pub fn set_form(&mut self, form: &[(&str, &str)])
        ensures
            final(self)@ == (RequestView { form: Some(form.deep_view()), ..old(self)@ }),
            final(self).url == old(self).url,
            final(self).method == old(self).method,
            final(self).headers == old(self).headers,
            final(self).body == old(self).body,
            final(self).retry_count == old(self).retry_count,
    {
        let mut fields: Vec<(String, String)> = Vec::new();
        let mut i: usize = 0;
        while i < form.len()
            invariant
                i <= form@.len(),
                fields.deep_view() == form.deep_view().take(i as int),
            decreases form@.len() - i,
        {
            let (name, value) = form[i];
            let ghost before = fields.deep_view();
            fields.push((name.to_owned(), value.to_owned()));
            assert(fields.deep_view() == before.push((name@, value@)));
            assert(form.deep_view().take(i + 1) == form.deep_view().take(i as int).push(
                (name@, value@),
            ));
            i += 1;
        }
        assert(form.deep_view().take(i as int) == form.deep_view());
        self.form = Some(fields)
    }

    /// Replaces the body by `body`.
    pub fn set_body(&mut self, body: Vec<u8>)
        ensures
            *final(self) == (Request { body: Some(body), ..*old(self) }),
    {
        self.body = Some(body)
    }

    /// Replaces the body by `params` in `application/x-www-form-urlencoded`
    /// syntax.
    pub fn set_urlencoded_params(&mut self, params: &[(&str, &str)])
        ensures
            final(self)@ == (RequestView {
                body: Some(encode_utf8(form_urlencoded(params.deep_view()))),
                ..old(self)@
            }),
            final(self).url == old(self).url,
            final(self).method == old(self).method,
            final(self).headers == old(self).headers,
            final(self).form == old(self).form,
            final(self).retry_count == old(self).retry_count,
    {
        let text = urlencode(params);
        let bytes = text.as_str().as_bytes_vec();
        assert(bytes.deep_view() == bytes@);
        self.body = Some(bytes)
    }

    /// Takes `json`, the bytes of a JSON document, as the body and adds the
    /// header that announces it.
    pub fn set_json_body(&mut self, json: Vec<u8>)
        ensures
            final(self)@ == (RequestView { body: Some(json@), ..old(self)@ }).with_header(
                json_content_type(),
            ),
            final(self).body == Some(json),
            final(self).url == old(self).url,
            final(self).method == old(self).method,
            final(self).form == old(self).form,
            final(self).retry_count == old(self).retry_count,
    {
        assert(json.deep_view() == json@);
        self.body = Some(json);
        self.add_header("Content-Type", "application/json")
    }

    pub fn set_retry_count(&mut self, retry_count: u8)
        ensures
            *final(self) == (Request { retry_count: Some(retry_count), ..*old(self) }),
    {
        self.retry_count = Some(retry_count)
    }

    /// Renders the request for diagnostics around `url` and `note`, which
    /// stand for the URL and for the body.
    pub fn debug_frame(&self, alternate: bool, url: &str, note: &str) -> (out: String)
        ensures
            out@ == self@.debug_frame(alternate, url@, note@),
    {
        let mut out = String::new();
        if alternate {
            out.append("Request {\n    method: ");
            self.push_method_name(&mut out);
            out.append(",\n    url: ");
            out.append(url);
            out.append(",\n}");
            if let Some(body) = &self.body {
                assert(body.deep_view() == body@);
                out.append("\n");
                out.append(hexdump(body.as_slice()).as_str());
            }
        } else {
            out.append("Request { method: ");
            self.push_method_name(&mut out);
            out.append(", url: ");
            out.append(url);
            if self.body.is_some() {
                out.append(", body: ");
                out.append(note);
            }
            out.append(" }");
        }
        out
    }

    /// Renders the request for diagnostics.
    pub fn to_debug_string(&self, alternate: bool) -> (out: String)
        ensures
            out@ == self@.debug_text(alternate),
    {
        let len = match &self.body {
            Some(body) => {
                assert(body.deep_view() == body@);
                body.len()
            },
            None => 0,
        };
        let mut note = String::new();
        push_decimal(&mut note, len as u64);
        note.append(" bytes");
        let url = quote(self.url.as_str());
        let note = quote(note.as_str());
        self.debug_frame(alternate, url.as_str(), note.as_str())
    }

    fn push_method_name(&self, out: &mut String)
        ensures
            final(out)@ == old(out)@ + self.method.name(),
    {
        match self.method {
            HttpMethod::Get => out.append("Get"),
            HttpMethod::Post => out.append("Post"),
            HttpMethod::Put => out.append("Put"),
            HttpMethod::Delete => out.append("Delete"),
        }
    }
}

} // verus!
