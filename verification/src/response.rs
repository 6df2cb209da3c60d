//! The response: status, headers and body for each outcome of resolution.

use vstd::prelude::*;
use vstd::string::*;
use vstd::utf8::encode_utf8;
use crate::assets::AssetEntryView;
use crate::encoding::CompressionMethod;
use crate::resolve::{FallbackBehavior, Resolution, ResolutionView};
use crate::text::{same_text, trim_dquotes, trim_quotes};

verus! {

/// A complete response.
#[derive(Debug, Clone)]
pub struct Response {
    pub status: u16,
    pub headers: Vec<(String, String)>,
    pub body: Vec<u8>,
}

/// A response, as plain values.
pub struct ResponseView {
    pub status: u16,
    pub headers: Seq<(Seq<char>, Seq<char>)>,
    pub body: Seq<u8>,
}

impl View for Response {
    type V = ResponseView;

    open spec fn view(&self) -> ResponseView {
        ResponseView {
            status: self.status,
            headers: Seq::new(
                self.headers@.len(),
                |i: int| (self.headers@[i].0@, self.headers@[i].1@),
            ),
            body: self.body@,
        }
    }
}

/// The value of the first header called `name`.
pub open spec fn header_value(headers: Seq<(Seq<char>, Seq<char>)>, name: Seq<char>) -> Option<
    Seq<char>,
>
    decreases headers.len(),
{
    if headers.len() == 0 {
        None
    } else if headers[0].0 == name {
        Some(headers[0].1)
    } else {
        header_value(headers.skip(1), name)
    }
}

impl Response {
    /// The value of the first header called `name`, if there is one.
    pub fn header(&self, name: &str) -> (r: Option<&str>)
        ensures
            r is Some == header_value(self@.headers, name@) is Some,
            r matches Some(v) ==> header_value(self@.headers, name@) == Some(v@),
    {
        let mut i: usize = 0;
        proof {
            assert(self@.headers.skip(0) =~= self@.headers);
        }
        while i < self.headers.len()
            invariant
                i <= self.headers@.len(),
                self@.headers.len() == self.headers@.len(),
                header_value(self@.headers, name@) == header_value(
                    self@.headers.skip(i as int),
                    name@,
                ),
            decreases self.headers@.len() - i,
        {
            proof {
                let rest = self@.headers.skip(i as int);
                assert(rest.skip(1) =~= self@.headers.skip(i + 1));
            }
            if same_text(self.headers[i].0.as_str(), name) {
                return Some(self.headers[i].1.as_str());
            }
            i += 1;
        }
        None
    }
}

/// The sixteen digits of lower-case hexadecimal.
pub open spec fn hex_digits() -> Seq<char> {
    seq!['0', '1', '2', '3', '4', '5', '6', '7', '8', '9', 'a', 'b', 'c', 'd', 'e', 'f']
}

/// Two lower-case hexadecimal digits for each byte, in order.
pub open spec fn hex_of(bytes: Seq<u8>) -> Seq<char>
    decreases bytes.len(),
{
    if bytes.len() == 0 {
        Seq::empty()
    } else {
        hex_of(bytes.drop_last()) + seq![
            hex_digits()[bytes.last() as int / 16],
            hex_digits()[bytes.last() as int % 16],
        ]
    }
}

/// The digest in lower-case hexadecimal: the entity tag of an entry.
pub fn hash_to_string(hash: &[u8; 32]) -> (r: String)
    ensures
        r@ == hex_of(hash@),
        r@.len() == 64,
{
    let digits = "0123456789abcdef";
    proof {
        reveal_strlit("0123456789abcdef");
    }
    let mut s = String::new();
    let mut i: usize = 0;
    while i < 32
        invariant
            i <= 32,
            hash@.len() == 32,
            digits@ == hex_digits(),
            s@ == hex_of(hash@.take(i as int)),
            s@.len() == 2 * i,
        decreases 32 - i,
    {
        let b: u8 = hash[i];
        let hi: usize = (b / 16) as usize;
        let lo: usize = (b % 16) as usize;
        s.append(digits.substring_char(hi, hi + 1));
        s.append(digits.substring_char(lo, lo + 1));
        proof {
            let t = hash@.take(i + 1);
            assert(t.drop_last() =~= hash@.take(i as int));
        }
        i += 1;
    }
    proof {
        assert(hash@.take(32) =~= hash@);
    }
    s
}

/// The media type that `mime_guess` gives for a path, by its extension.
pub uninterp spec fn guessed_mime(path: Seq<char>) -> Seq<char>;

/// The date in the form of RFC 1123 that `chrono` gives for a number of
/// seconds since the Unix epoch; none where `chrono` has no such date.
pub uninterp spec fn http_date(secs: i64) -> Option<Seq<char>>;

/// Calls `mime_guess::from_path` and takes the first guess, or
/// `application/octet-stream` where there is none. The contract only names
/// the text that comes back.
#[verifier::external_body]
pub(crate) fn guess_content_type(path: &str) -> (r: String)
    ensures
        r@ == guessed_mime(path@),
{
    mime_guess::from_path(path).first_or_octet_stream().to_string()
}

/// Calls `chrono::DateTime::<Utc>::from_timestamp` with no nanoseconds and
/// formats the date as `%a, %d %b %Y %H:%M:%S GMT`. The contract only names
/// what comes back: no text where `from_timestamp` returns `None`.
#[verifier::external_body]
pub(crate) fn format_http_date(secs: i64) -> (r: Option<String>)
    ensures
        r is Some == http_date(secs) is Some,
        r matches Some(s) ==> http_date(secs) == Some(s@),
{
    match chrono::DateTime::<chrono::Utc>::from_timestamp(secs, 0) {
        Some(date) => Some(date.format("%a, %d %b %Y %H:%M:%S GMT").to_string()),
        None => None,
    }
}

/// The date text of a time in seconds since the Unix epoch: none where the
/// time is no date.
pub open spec fn time_text(time: u64) -> Option<Seq<char>> {
    if time <= i64::MAX {
        http_date(time as i64)
    } else {
        None
    }
}

/// The `last-modified` text of an entry: none where it carries no time, or
/// one that is no date.
pub open spec fn date_text(entry: AssetEntryView) -> Option<Seq<char>> {
    match entry.last_modified {
        Some(time) => time_text(time),
        None => None,
    }
}

/// The date of a time in seconds since the Unix epoch, in the form of
/// RFC 1123; none where the time is no date.
pub fn date_to_string(date: u64) -> (r: Option<String>)
    ensures
        r is Some == time_text(date) is Some,
        r matches Some(s) ==> time_text(date) == Some(s@),
{
    if date <= 0x7fff_ffff_ffff_ffff {
        format_http_date(date as i64)
    } else {
        None
    }
}

/// The view of a text that may be missing.
pub open spec fn text_view(t: Option<&str>) -> Option<Seq<char>> {
    match t {
        Some(s) => Some(s@),
        None => None,
    }
}

/// Whether the client's validator names the entry's current bytes.
pub open spec fn validator_matches(if_none_match: Option<Seq<char>>, entry: AssetEntryView) -> bool {
    if_none_match is Some && trim_quotes(if_none_match->0) == hex_of(entry.hash)
}

/// The status with which a found entry is served.
pub open spec fn found_status(is_fallback: bool, behavior: FallbackBehavior) -> u16 {
    if is_fallback && behavior != FallbackBehavior::Okay {
        404
    } else {
        200
    }
}

/// The headers that go with a found entry, in their order.
pub open spec fn found_headers(
    entry: AssetEntryView,
    method: CompressionMethod,
    content_type: Seq<char>,
    last_modified: Option<Seq<char>>,
) -> Seq<(Seq<char>, Seq<char>)> {
    seq![("content-type"@, content_type), ("etag"@, hex_of(entry.hash))] + (
    match method.spec_content_encoding() {
        Some(token) => seq![("content-encoding"@, token)],
        None => Seq::empty(),
    }) + (match last_modified {
        Some(date) => seq![("last-modified"@, date)],
        None => Seq::empty(),
    })
}

/// The response to a request that resolved to `outcome`. `content_type` is
/// the media type of a found key and `last_modified` the date text of a
/// found entry; neither is read for a redirect.
pub open spec fn response_for(
    outcome: ResolutionView,
    behavior: FallbackBehavior,
    if_none_match: Option<Seq<char>>,
    content_type: Seq<char>,
    last_modified: Option<Seq<char>>,
) -> ResponseView {
    match outcome {
        ResolutionView::Redirect { target, is_fallback } => ResponseView {
            status: if is_fallback {
                307
            } else {
                301
            },
            headers: seq![("location"@, target), ("content-type"@, "text/plain"@)],
            body: if is_fallback {
                encode_utf8("Temporary redirect"@)
            } else {
                encode_utf8("Moved permanently"@)
            },
        },
        ResolutionView::Found { key, entry, method, is_fallback } => {
            if !is_fallback && validator_matches(if_none_match, entry) {
                ResponseView { status: 304, headers: Seq::empty(), body: Seq::empty() }
            } else {
                ResponseView {
                    status: found_status(is_fallback, behavior),
                    headers: found_headers(entry, method, content_type, last_modified),
                    body: entry.data,
                }
            }
        },
    }
}

/// The response to a method that is not served.
pub open spec fn method_not_allowed() -> ResponseView {
    ResponseView {
        status: 405,
        headers: seq![("content-type"@, "text/plain"@)],
        body: encode_utf8("Method not allowed"@),
    }
}

/// One header.
pub fn header_of(name: &str, value: &str) -> (r: (String, String))
    ensures
        r.0@ == name@,
        r.1@ == value@,
{
    (String::from_str(name), String::from_str(value))
}

/// The response to a method that is not served.
pub fn refuse_method() -> (r: Response)
    ensures
        r@ == method_not_allowed(),
{
    let mut headers: Vec<(String, String)> = Vec::new();
    headers.push(header_of("content-type", "text/plain"));
    let r = Response { status: 405, headers, body: "Method not allowed".as_bytes_vec() };
    assert(r@.headers =~= method_not_allowed().headers);
    r
}

/// Builds the response for an outcome of resolution.
pub fn assemble(
    outcome: Resolution,
    behavior: FallbackBehavior,
    if_none_match: Option<&str>,
    content_type: &str,
    last_modified: Option<&str>,
) -> (r: Response)
    ensures
        r@ == response_for(
            outcome@,
            behavior,
            text_view(if_none_match),
            content_type@,
            text_view(last_modified),
        ),
{
    let mut headers: Vec<(String, String)> = Vec::new();
    match outcome {
        Resolution::Redirect { target, is_fallback } => {
            headers.push(header_of("location", target.as_str()));
            headers.push(header_of("content-type", "text/plain"));
            let r = Response {
                status: if is_fallback {
                    307
                } else {
                    301
                },
                headers,
                body: if is_fallback {
                    "Temporary redirect".as_bytes_vec()
                } else {
                    "Moved permanently".as_bytes_vec()
                },
            };
            assert(r@.headers =~= seq![("location"@, target@), ("content-type"@, "text/plain"@)]);
            r
        },
        Resolution::Found { key, entry, method, is_fallback } => {
            let tag = hash_to_string(&entry.hash);
            let unchanged = !is_fallback && match if_none_match {
                Some(v) => same_text(trim_dquotes(v), tag.as_str()),
                None => false,
            };
            if unchanged {
                let r = Response { status: 304, headers, body: Vec::new() };
                assert(r@.headers =~= Seq::empty());
                return r;
            }
            headers.push(header_of("content-type", content_type));
            headers.push(header_of("etag", tag.as_str()));
            let ghost first = seq![("content-type"@, content_type@), ("etag"@, hex_of(entry@.hash))];
            let ghost mut expected = first;
            match method.content_encoding() {
                Some(token) => {
                    headers.push(header_of("content-encoding", token));
                    proof {
                        expected = first + seq![("content-encoding"@, token@)];
                    }
                },
                None => {
                    proof {
                        expected = first + Seq::<(Seq<char>, Seq<char>)>::empty();
                    }
                },
            }
            let ghost second = expected;
            match last_modified {
                Some(date) => {
                    headers.push(header_of("last-modified", date));
                    proof {
                        expected = second + seq![("last-modified"@, date@)];
                    }
                },
                None => {
                    proof {
                        expected = second + Seq::<(Seq<char>, Seq<char>)>::empty();
                    }
                },
            }
            let status: u16 = match (is_fallback, behavior) {
                (false, _) => 200,
                (true, FallbackBehavior::Okay) => 200,
                (true, _) => 404,
            };
            let r = Response { status, headers, body: entry.data };
            assert(r@.headers =~= expected);
            r
        },
    }
}

} // verus!
