//! What one completed transfer brought back.

use vstd::prelude::*;
use vstd::string::*;
use vstd::utf8::*;
use crate::hexdump::{hexdump, hexdump_text};
use crate::text::{debug_quoted, decimal_text, push_decimal, quote, trim_end, trimmed_end, utf8_text};

verus! {

/// The outcome of a transfer that completed, whatever its status.
pub struct Response {
    pub status_code: u32,
    /// The payload as it came, never decoded here.
    pub body: Vec<u8>,
    /// The header lines as received, `Name: value`, in order.
    pub headers: Vec<String>,
}

/// A response as a value of mathematics.
pub struct ResponseView {
    pub status_code: u32,
    pub body: Seq<u8>,
    pub headers: Seq<Seq<char>>,
}

impl View for Response {
    type V = ResponseView;

    open spec fn view(&self) -> ResponseView {
        ResponseView {
            status_code: self.status_code,
            body: self.body@,
            headers: self.headers.deep_view(),
        }
    }
}

/// A status from 200 up to, and not including, 300.
pub open spec fn is_success_status(status_code: u32) -> bool {
    200 <= status_code < 300
}

/// The texts of `items`, separated by a comma and a space.
pub open spec fn comma_separated(items: Seq<Seq<char>>) -> Seq<char>
    decreases items.len(),
{
    if items.len() == 0 {
        Seq::empty()
    } else if items.len() == 1 {
        items[0]
    } else {
        comma_separated(items.drop_last()) + ", "@ + items.last()
    }
}

/// Each of `items` as `{:?}` quotes it.
pub open spec fn all_quoted(items: Seq<Seq<char>>) -> Seq<Seq<char>> {
    Seq::new(items.len(), |i: int| debug_quoted(items[i]))
}

/// A header line as the engine keeps it: the text of the bytes received,
/// without the white space at its end.
pub open spec fn header_line_text(raw: Seq<u8>) -> Seq<char> {
    trimmed_end(decode_utf8(raw))
}

/// Turns the bytes of a received header line into the line to keep. There is
/// none where the bytes are not UTF-8.
pub fn header_line(raw: &[u8]) -> (line: Option<String>)
    ensures
        line is Some <==> valid_utf8(raw@),
        line matches Some(text) ==> text@ == header_line_text(raw@),
{
    match utf8_text(raw) {
        Some(text) => Some(trim_end(text.as_str())),
        None => None,
    }
}

impl ResponseView {
    /// The dump of the body after `separator`, where there is a body.
    pub open spec fn body_text(self, separator: Seq<char>) -> Seq<char> {
        if self.body.len() > 0 {
            separator + hexdump_text(self.body)
        } else {
            Seq::empty()
        }
    }

    /// The debug rendering, given the header lines as they are to be shown:
    /// status and header lines on one line, and the dump of the body below it.
    pub open spec fn debug_frame(self, headers: Seq<Seq<char>>) -> Seq<char> {
        "Response { status_code: "@ + decimal_text(self.status_code as nat) + ", headers: ["@
            + comma_separated(headers) + "] }"@ + self.body_text("\n"@)
    }

    /// The debug rendering. The header lines are quoted as `{:?}` quotes
    /// strings.
    pub open spec fn debug_text(self) -> Seq<char> {
        self.debug_frame(all_quoted(self.headers))
    }

    /// The message for a reader: the status on the first line, and the dump of
    /// the body below it.
    pub open spec fn display_text(self) -> Seq<char> {
        "Status: "@ + decimal_text(self.status_code as nat) + "\n"@ + self.body_text(
            Seq::empty(),
        )
    }
}

impl Response {
    /// Whether the status says that the call succeeded.
    pub fn is_success(&self) -> (success: bool)
        ensures
            success == is_success_status(self.status_code),
    {
        self.status_code >= 200 && self.status_code < 300
    }

    /// Renders the response for diagnostics around `headers`, which stand for
    /// the header lines.
    pub fn debug_frame(&self, headers: &Vec<String>) -> (out: String)
        ensures
            out@ == self@.debug_frame(headers.deep_view()),
    {
        let mut out = String::new();
        out.append("Response { status_code: ");
        push_decimal(&mut out, self.status_code as u64);
        out.append(", headers: [");
        let ghost head = out@;
        let ghost shown = headers.deep_view();
        let mut i: usize = 0;
        while i < headers.len()
            invariant
                i <= headers@.len(),
                shown == headers.deep_view(),
                out@ == head + comma_separated(shown.take(i as int)),
            decreases headers@.len() - i,
        {
            assert(shown.take(i + 1).drop_last() == shown.take(i as int));
            assert(shown.take(i + 1).last() == headers@[i as int]@);
            if i > 0 {
                out.append(", ");
            }
            out.append(headers[i].as_str());
            i += 1;
        }
        assert(shown.take(i as int) == shown);
        out.append("] }");
        if self.body.len() > 0 {
            out.append("\n");
            out.append(hexdump(self.body.as_slice()).as_str());
        }
        out
    }

    /// Renders the response for diagnostics.
    pub fn to_debug_string(&self) -> (out: String)
        ensures
            out@ == self@.debug_text(),
    {
        let mut quoted: Vec<String> = Vec::new();
        let mut i: usize = 0;
        while i < self.headers.len()
            invariant
                i <= self.headers@.len(),
                quoted.deep_view() == all_quoted(self@.headers).take(i as int),
            decreases self.headers@.len() - i,
        {
            let ghost before = quoted.deep_view();
            let line = quote(self.headers[i].as_str());
            quoted.push(line);
            assert(quoted.deep_view() == before.push(line@));
            assert(all_quoted(self@.headers).take(i + 1) == all_quoted(self@.headers).take(
                i as int,
            ).push(line@));
            i += 1;
        }
        assert(all_quoted(self@.headers).take(i as int) == all_quoted(self@.headers));
        self.debug_frame(&quoted)
    }

    /// Renders the response as a message.
    pub fn to_string(&self) -> (out: String)
        ensures
            out@ == self@.display_text(),
    {
        let mut out = String::new();
        out.append("Status: ");
        push_decimal(&mut out, self.status_code as u64);
        out.append("\n");
        if self.body.len() > 0 {
            out.append(hexdump(self.body.as_slice()).as_str());
        }
        out
    }
}

} // verus!
