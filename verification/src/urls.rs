//! Where the library meets the `url` crate: reading a URL, extending its path
//! and its query, and the form encoding of name and value pairs. A URL is held
//! as its serialisation, a `String`; each call reads it anew.

use vstd::prelude::*;
use vstd::string::*;
use vstd::utf8::*;

verus! {

/// The most text, in bytes and separators, that is handed to the `url` crate
/// in one call: 16 MiB. The crate holds URLs of up to 4 GiB and panics beyond;
/// this keeps every URL far below that, however much the encoding widens it.
pub const MAX_URL_INPUT: usize = 0x100_0000;

/// The serialisation of the absolute URL that `input` is read as, where it is
/// one.
pub uninterp spec fn parsed_url(input: Seq<char>) -> Option<Seq<char>>;

/// The URL `base` with one trailing empty path segment dropped and `segments`
/// appended to its path; nothing where `base` is no URL or cannot be a base.
pub uninterp spec fn url_with_segments(base: Seq<char>, segments: Seq<Seq<char>>) -> Option<
    Seq<char>,
>;

/// The URL `url` with `params` appended to its query; nothing where `url` is
/// no URL.
pub uninterp spec fn url_with_query(url: Seq<char>, params: Seq<(Seq<char>, Seq<char>)>) -> Option<
    Seq<char>,
>;

/// Bytes of the segments, and one for the separator before each.
pub open spec fn segments_weight(segments: Seq<Seq<char>>) -> nat
    decreases segments.len(),
{
    if segments.len() == 0 {
        0
    } else {
        segments_weight(segments.drop_last()) + encode_utf8(segments.last()).len() + 1
    }
}

/// Bytes of the names and values, and two for the separators of each pair.
pub open spec fn pairs_weight(pairs: Seq<(Seq<char>, Seq<char>)>) -> nat
    decreases pairs.len(),
{
    if pairs.len() == 0 {
        0
    } else {
        pairs_weight(pairs.drop_last()) + encode_utf8(pairs.last().0).len() + encode_utf8(
            pairs.last().1,
        ).len() + 2
    }
}

/// `Url::parse`, and the URL's serialisation. The result is `Ok` exactly where
/// the input is read as an absolute URL.
#[verifier::external_body]
pub(crate) fn parse_url(input: &str) -> (r: Result<String, url::ParseError>)
    ensures
        match r {
            Ok(s) => parsed_url(input@) == Some(s@),
            Err(_) => parsed_url(input@) is None,
        },
{
    match url::Url::parse(input) {
        Ok(url) => Ok(url.into()),
        Err(e) => Err(e),
    }
}

/// `Url::path_segments_mut`, then `pop_if_empty` and `extend` on what it
/// gives: the segments are percent-encoded and joined to the path of `base`.
#[verifier::external_body]
pub(crate) fn extend_path(base: &str, segments: &[&str]) -> (r: Option<String>)
    requires
        encode_utf8(base@).len() + segments_weight(segments.deep_view()) <= MAX_URL_INPUT,
    ensures
        r.deep_view() == url_with_segments(base@, segments.deep_view()),
{
    let mut url = url::Url::parse(base).ok()?;
    url.path_segments_mut().ok()?.pop_if_empty().extend(segments);
    Some(url.into())
}

/// `Url::query_pairs_mut`, then `extend_pairs` on what it gives: the pairs are
/// form-encoded and appended to the query of `url`.
#[verifier::external_body]
pub(crate) fn extend_query(url: &str, params: &[(&str, &str)]) -> (r: Option<String>)
    requires
        encode_utf8(url@).len() + pairs_weight(params.deep_view()) <= MAX_URL_INPUT,
    ensures
        r.deep_view() == url_with_query(url@, params.deep_view()),
{
    let mut url = url::Url::parse(url).ok()?;
    url.query_pairs_mut().extend_pairs(params);
    Some(url.into())
}

/// The bytes that the form encoding leaves as they are: letters, digits and
/// `*`, `-`, `.`, `_`.
pub open spec fn form_byte_unchanged(b: u8) -> bool {
    ||| b == 0x2a
    ||| b == 0x2d
    ||| b == 0x2e
    ||| b == 0x5f
    ||| 0x30 <= b <= 0x39
    ||| 0x41 <= b <= 0x5a
    ||| 0x61 <= b <= 0x7a
}

/// The upper-case hexadecimal digit for a value below sixteen.
pub open spec fn upper_hex_digit(n: u8) -> char {
    if n < 10 {
        (48 + n) as u8 as char
    } else {
        (55 + n) as u8 as char
    }
}

/// One byte in the form encoding: itself, `+` for a space, or `%` and two
/// hexadecimal digits.
pub open spec fn form_encoded_byte(b: u8) -> Seq<char> {
    if form_byte_unchanged(b) {
        seq![b as char]
    } else if b == 0x20 {
        seq!['+']
    } else {
        seq!['%', upper_hex_digit(b / 16), upper_hex_digit(b % 16)]
    }
}

/// Bytes in the form encoding.
pub open spec fn form_encoded(bytes: Seq<u8>) -> Seq<char>
    decreases bytes.len(),
{
    if bytes.len() == 0 {
        Seq::empty()
    } else {
        form_encoded(bytes.drop_last()) + form_encoded_byte(bytes.last())
    }
}

/// `acc` with one more pair: `&` if something stands before it, the encoded
/// name, `=`, and the encoded value.
pub open spec fn form_pair_appended(acc: Seq<char>, name: Seq<char>, value: Seq<char>) -> Seq<
    char,
> {
    (if acc.len() > 0 {
        acc.push('&')
    } else {
        acc
    }) + form_encoded(encode_utf8(name)) + seq!['='] + form_encoded(encode_utf8(value))
}

/// Pairs in `application/x-www-form-urlencoded` syntax.
pub open spec fn form_urlencoded(pairs: Seq<(Seq<char>, Seq<char>)>) -> Seq<char>
    decreases pairs.len(),
{
    if pairs.len() == 0 {
        Seq::empty()
    } else {
        form_pair_appended(form_urlencoded(pairs.drop_last()), pairs.last().0, pairs.last().1)
    }
}

/// `form_urlencoded::Serializer::append_pair` on a serializer that continues
/// `acc`: it separates with `&`, and writes name and value byte by byte in the
/// form encoding.
#[verifier::external_body]
pub(crate) fn form_append_pair(acc: String, name: &str, value: &str) -> (r: String)
    ensures
        r@ == form_pair_appended(acc@, name@, value@),
{
    let mut serializer = url::form_urlencoded::Serializer::new(acc);
    serializer.append_pair(name, value);
    serializer.finish()
}

/// Encodes `params` as a form body.
pub fn urlencode(params: &[(&str, &str)]) -> (r: String)
    ensures
        r@ == form_urlencoded(params.deep_view()),
{
    let mut acc = String::new();
    let mut i: usize = 0;
    while i < params.len()
        invariant
            i <= params@.len(),
            acc@ == form_urlencoded(params.deep_view().take(i as int)),
        decreases params@.len() - i,
    {
        let (name, value) = params[i];
        assert(params.deep_view().take(i + 1).drop_last() == params.deep_view().take(i as int));
        assert(params.deep_view().take(i + 1).last() == (name@, value@));
        acc = form_append_pair(acc, name, value);
        i += 1;
    }
    assert(params.deep_view().take(i as int) == params.deep_view());
    acc
}

/// A longer list of segments weighs no less.
pub proof fn lemma_segments_weight_grows(segments: Seq<Seq<char>>, n: int)
    requires
        0 <= n <= segments.len(),
    ensures
        segments_weight(segments.take(n)) <= segments_weight(segments),
    decreases segments.len(),
{
    if n == segments.len() {
        assert(segments.take(n) == segments);
    } else {
        assert(segments.drop_last().take(n) == segments.take(n));
        lemma_segments_weight_grows(segments.drop_last(), n);
    }
}

/// A longer list of pairs weighs no less.
pub proof fn lemma_pairs_weight_grows(pairs: Seq<(Seq<char>, Seq<char>)>, n: int)
    requires
        0 <= n <= pairs.len(),
    ensures
        pairs_weight(pairs.take(n)) <= pairs_weight(pairs),
    decreases pairs.len(),
{
    if n == pairs.len() {
        assert(pairs.take(n) == pairs);
    } else {
        assert(pairs.drop_last().take(n) == pairs.take(n));
        lemma_pairs_weight_grows(pairs.drop_last(), n);
    }
}

/// Whether `base` and `segments` together are within `MAX_URL_INPUT`.
pub fn segments_fit(base: &str, segments: &[&str]) -> (fit: bool)
    ensures
        fit == (encode_utf8(base@).len() + segments_weight(segments.deep_view())
            <= MAX_URL_INPUT),
{
    let base_len = base.as_bytes().len();
    if base_len > MAX_URL_INPUT {
        return false;
    }
    let ghost parts = segments.deep_view();
    let mut total: usize = base_len;
    let mut i: usize = 0;
    while i < segments.len()
        invariant
            i <= segments@.len(),
            parts == segments.deep_view(),
            total == encode_utf8(base@).len() + segments_weight(parts.take(i as int)),
            total <= MAX_URL_INPUT,
        decreases segments@.len() - i,
    {
        let len = segments[i].as_bytes().len();
        assert(parts.take(i + 1).drop_last() == parts.take(i as int));
        assert(parts.take(i + 1).last() == segments@[i as int]@);
        if len >= MAX_URL_INPUT - total {
            proof {
                lemma_segments_weight_grows(parts, i + 1);
            }
            return false;
        }
        total = total + len + 1;
        i += 1;
    }
    assert(parts.take(i as int) == parts);
    true
}

/// Whether `url` and `params` together are within `MAX_URL_INPUT`.
pub fn pairs_fit(url: &str, params: &[(&str, &str)]) -> (fit: bool)
    ensures
        fit == (encode_utf8(url@).len() + pairs_weight(params.deep_view()) <= MAX_URL_INPUT),
{
    let url_len = url.as_bytes().len();
    if url_len > MAX_URL_INPUT {
        return false;
    }
    let ghost pairs = params.deep_view();
    let mut total: usize = url_len;
    let mut i: usize = 0;
    while i < params.len()
        invariant
            i <= params@.len(),
            pairs == params.deep_view(),
            total == encode_utf8(url@).len() + pairs_weight(pairs.take(i as int)),
            total <= MAX_URL_INPUT,
        decreases params@.len() - i,
    {
        let (name, value) = params[i];
        let name_len = name.as_bytes().len();
        let value_len = value.as_bytes().len();
        assert(pairs.take(i + 1).drop_last() == pairs.take(i as int));
        assert(pairs.take(i + 1).last() == (name@, value@));
        if name_len >= MAX_URL_INPUT - total || value_len >= MAX_URL_INPUT - total - name_len
            || MAX_URL_INPUT - total - name_len - value_len < 2 {
            proof {
                lemma_pairs_weight_grows(pairs, i + 1);
            }
            return false;
        }
        total = total + name_len + value_len + 2;
        i += 1;
    }
    assert(pairs.take(i as int) == pairs);
    true
}

} // verus!
