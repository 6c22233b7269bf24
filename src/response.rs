use vstd::prelude::*;

verus! {

/// The encoding announced for a request body.
#[derive(Debug, Clone, Copy, PartialEq, Eq, Structural)]
pub enum ContentType {
    JSON,
    TEXT,
}

/// A status code lies in the client error or the server error class.
pub open spec fn is_error_status(code: u16) -> bool {
    400 <= code <= 599
}

/// One response as the caller sees it: status, headers, text body and peer address.
#[derive(Clone, Debug)]
pub struct HttpResponse {
    pub status_code: u16,
    pub header: std::collections::HashMap<String, String>,
    pub body: String,
    pub remote_address: String,
}

impl HttpResponse {
    /// True exactly for the client error (4xx) and server error (5xx) codes.
    pub fn is_error(&self) -> (r: bool)
        ensures
            r == is_error_status(self.status_code),
    {
        400 <= self.status_code && self.status_code <= 599
    }
}


/// The `Content-Type` value announced for each content type.
pub open spec fn content_type_value(ct: ContentType) -> Seq<char> {
    match ct {
        ContentType::JSON => "application/json"@,
        ContentType::TEXT => "application/text"@,
    }
}

impl ContentType {
    /// The media type sent in the `Content-Type` header.
    pub fn mime(&self) -> (r: &'static str)
        ensures
            r@ == content_type_value(*self),
    {
        match self {
            ContentType::JSON => "application/json",
            ContentType::TEXT => "application/text",
        }
    }
}


/// The reason phrase registered for a status code, if any.
pub uninterp spec fn reason_phrase(code: u16) -> Option<Seq<char>>;

/// Relies on `http::StatusCode::canonical_reason` (reached through reqwest): the
/// registered reason phrase of a code, `None` for an unregistered or invalid code.
#[verifier::external_body]
fn canonical_reason(code: u16) -> (r: Option<String>)
    ensures
        match r {
            Some(s) => reason_phrase(code) == Some(s@),
            None => reason_phrase(code) is None,
        },
{
    match reqwest::StatusCode::from_u16(code) {
        Ok(status) => status.canonical_reason().map(|s| s.to_owned()),
        Err(_) => None,
    }
}

/// The reason phrase shown for a status code.
pub open spec fn reason_text(code: u16) -> Seq<char> {
    match reason_phrase(code) {
        Some(s) => s,
        None => "UNKNOWN ERROR!"@,
    }
}

/// The reason phrase of a code, or a fixed text when none is registered.
pub fn reason_or_unknown(code: u16) -> (r: String)
    ensures
        r@ == reason_text(code),
{
    match canonical_reason(code) {
        Some(s) => s,
        None => String::from_str("UNKNOWN ERROR!"),
    }
}

/// The peer address shown when the transport does not report one.
pub open spec fn remote_text(remote: Option<Seq<char>>) -> Seq<char> {
    match remote {
        Some(a) => a,
        None => "0.0.0.0"@,
    }
}

/// The peer address, or `0.0.0.0` when unknown.
pub fn remote_or_default(remote: Option<String>) -> (r: String)
    ensures
        r@ == remote_text(
            match remote {
                Some(a) => Some(a@),
                None => None,
            },
        ),
{
    match remote {
        Some(a) => a,
        None => String::from_str("0.0.0.0"),
    }
}

/// A status code in the success class.
pub open spec fn is_success_status(code: u16) -> bool {
    200 <= code <= 299
}

/// The text of a response body decoded from bytes, invalid sequences replaced.
pub uninterp spec fn utf8_lossy(b: Seq<u8>) -> Seq<char>;

/// Relies on `String::from_utf8_lossy`: the bytes decoded as UTF-8, each invalid
/// sequence replaced by U+FFFD; valid UTF-8 is decoded as it is.
#[verifier::external_body]
pub(crate) fn decode_lossy(bytes: &[u8]) -> (r: String)
    ensures
        r@ == utf8_lossy(bytes@),
        vstd::utf8::valid_utf8(bytes@) ==> r@ == vstd::utf8::decode_utf8(bytes@),
{
    String::from_utf8_lossy(bytes).into_owned()
}

/// One attempt at reading the next piece of a response body.
#[derive(Debug)]
pub enum ChunkRead {
    /// A piece of the body arrived.
    Data(Vec<u8>),
    /// The body is complete.
    End,
    /// The transport failed to deliver the next piece.
    Failed,
}

} // verus!
