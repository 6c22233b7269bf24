use vstd::prelude::*;

use crate::text::same_text;

verus! {

/// The request methods this client can send.
#[derive(Debug, Clone, Copy, PartialEq, Eq, Structural)]
pub enum HttpMethod {
    GET,
    POST,
    PUT,
    DELETE,
    PATCH,
}

/// Why a request could not be made, or could not be sent.
#[derive(Debug, Clone)]
pub enum RequestError {
    /// The method name is none of GET, POST, PUT, DELETE, PATCH; nothing was sent.
    UnsupportedMethod(String),
    /// A header name that is not an HTTP token, or a value with a control character.
    InvalidHeader(String),
    /// The transport could not be built at construction time.
    ClientBuild(String),
    /// Connecting, resolving, the TLS handshake or a timeout failed while sending.
    TransportSendFailure(String),
}

/// The canonical (upper-case) name of a method.
pub open spec fn method_name(m: HttpMethod) -> Seq<char> {
    match m {
        HttpMethod::GET => seq!['G', 'E', 'T'],
        HttpMethod::POST => seq!['P', 'O', 'S', 'T'],
        HttpMethod::PUT => seq!['P', 'U', 'T'],
        HttpMethod::DELETE => seq!['D', 'E', 'L', 'E', 'T', 'E'],
        HttpMethod::PATCH => seq!['P', 'A', 'T', 'C', 'H'],
    }
}

/// The upper-case form of a text, as `str::to_uppercase` gives it.
pub uninterp spec fn upper_of(s: Seq<char>) -> Seq<char>;

/// Relies on `str::to_uppercase`: the upper-case form of the text under Unicode's
/// case mapping; it depends on the text alone.
#[verifier::external_body]
fn to_upper(s: &str) -> (r: String)
    ensures
        r@ == upper_of(s@),
{
    s.to_uppercase()
}

/// The method whose canonical name is exactly `u`; `None` for any other text.
pub open spec fn method_named(u: Seq<char>) -> Option<HttpMethod> {
    if u == method_name(HttpMethod::GET) {
        Some(HttpMethod::GET)
    } else if u == method_name(HttpMethod::POST) {
        Some(HttpMethod::POST)
    } else if u == method_name(HttpMethod::PUT) {
        Some(HttpMethod::PUT)
    } else if u == method_name(HttpMethod::DELETE) {
        Some(HttpMethod::DELETE)
    } else if u == method_name(HttpMethod::PATCH) {
        Some(HttpMethod::PATCH)
    } else {
        None
    }
}

/// The method a name denotes once upper-cased; `None` for any other name.
pub open spec fn method_of(name: Seq<char>) -> Option<HttpMethod> {
    method_named(upper_of(name))
}

impl HttpMethod {
    /// The canonical upper-case name, as sent on the wire.
    pub fn as_str(&self) -> (r: &'static str)
        ensures
            r@ == method_name(*self),
    {
        match self {
            HttpMethod::GET => {
                proof {
                    reveal_strlit("GET");
                }
                "GET"
            },
            HttpMethod::POST => {
                proof {
                    reveal_strlit("POST");
                }
                "POST"
            },
            HttpMethod::PUT => {
                proof {
                    reveal_strlit("PUT");
                }
                "PUT"
            },
            HttpMethod::DELETE => {
                proof {
                    reveal_strlit("DELETE");
                }
                "DELETE"
            },
            HttpMethod::PATCH => {
                proof {
                    reveal_strlit("PATCH");
                }
                "PATCH"
            },
        }
    }
}

/// The method whose canonical upper-case name is exactly `u`.
pub fn method_from_upper(u: &str) -> (r: Option<HttpMethod>)
    ensures
        r == method_named(u@),
{
    if same_text(u, HttpMethod::GET.as_str()) {
        Some(HttpMethod::GET)
    } else if same_text(u, HttpMethod::POST.as_str()) {
        Some(HttpMethod::POST)
    } else if same_text(u, HttpMethod::PUT.as_str()) {
        Some(HttpMethod::PUT)
    } else if same_text(u, HttpMethod::DELETE.as_str()) {
        Some(HttpMethod::DELETE)
    } else if same_text(u, HttpMethod::PATCH.as_str()) {
        Some(HttpMethod::PATCH)
    } else {
        None
    }
}

/// The method a name denotes once upper-cased; any other name is refused before
/// anything is sent.
pub fn parse_method(name: &str) -> (r: Result<HttpMethod, RequestError>)
    ensures
        method_of(name@) matches Some(m) ==> r == Ok::<HttpMethod, RequestError>(m),
        method_of(name@) is None ==> (r matches Err(RequestError::UnsupportedMethod(n))
            && n@ == name@),
{
    let upper = to_upper(name);
    match method_from_upper(upper.as_str()) {
        Some(m) => Ok(m),
        None => Err(RequestError::UnsupportedMethod(name.to_owned())),
    }
}

} // verus!
