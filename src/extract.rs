use vstd::prelude::*;

use std::collections::HashMap;

use crate::response::{
    decode_lossy, is_error_status, is_success_status, reason_or_unknown, reason_text,
    remote_or_default, remote_text, utf8_lossy, ChunkRead, HttpResponse,
};

verus! {

/// Read failures tolerated on one body: once the count of failures exceeds this
/// ceiling, reading stops. The full-body reader and the stream reader share this one
/// ceiling. For streams it is a deliberate choice: a stream reader could also use 5,
/// which is the usual recommendation for streams; 3 is used so that both readers
/// follow one documented limit.
pub const READ_ERROR_CEILING: u8 = 3;

/// How the body of a response is obtained, by status class.
#[derive(Debug, Clone, Copy, PartialEq, Eq, Structural)]
pub enum BodyMode {
    /// 4xx and 5xx: the body is a diagnostic text and nothing is read.
    Diagnostic,
    /// 2xx: the body is read piece by piece.
    Streamed,
    /// Any other code: the body is read whole, as one text.
    Whole,
}

/// The way the body of a response with this status is obtained.
pub open spec fn body_mode_of(code: u16) -> BodyMode {
    if is_error_status(code) {
        BodyMode::Diagnostic
    } else if is_success_status(code) {
        BodyMode::Streamed
    } else {
        BodyMode::Whole
    }
}

/// The diagnostic body of an error response.
pub open spec fn error_body_text(method: Seq<char>, url: Seq<char>, code: u16) -> Seq<char> {
    "ERROR: Failed to get response from "@ + method + ":"@ + url + " -Error: "@ + reason_text(code)
}

/// The diagnostic body of an error response: method, URL and reason phrase.
pub fn error_body(method: &str, url: &str, code: u16) -> (r: String)
    ensures
        r@ == error_body_text(method@, url@, code),
{
    let mut r = String::from_str("ERROR: Failed to get response from ");
    r.append(method);
    r.append(":");
    r.append(url);
    r.append(" -Error: ");
    let reason = reason_or_unknown(code);
    r.append(reason.as_str());
    r
}

/// The state of reading one response body to its end.
pub struct BodyExtractor {
    status_code: u16,
    header: HashMap<String, String>,
    remote_address: String,
    method: String,
    url: String,
    body: String,
    error_count: u8,
}

/// What one read leaves: reading goes on, or the response is complete.
pub enum ExtractStep {
    Continue(BodyExtractor),
    Done(HttpResponse),
}

impl BodyExtractor {
    pub closed spec fn status(&self) -> u16 {
        self.status_code
    }

    pub closed spec fn headers(&self) -> Map<String, String> {
        self.header@
    }

    pub closed spec fn remote(&self) -> Seq<char> {
        self.remote_address@
    }

    pub closed spec fn method_text(&self) -> Seq<char> {
        self.method@
    }

    pub closed spec fn url_text(&self) -> Seq<char> {
        self.url@
    }

    /// The body text gathered so far.
    pub closed spec fn gathered(&self) -> Seq<char> {
        self.body@
    }

    /// The read failures counted so far.
    pub closed spec fn errors(&self) -> nat {
        self.error_count as nat
    }

    pub closed spec fn wf(&self) -> bool {
        self.error_count <= READ_ERROR_CEILING
    }

    /// Starts on a response whose status, header fields and peer address (when the
    /// transport reports one) are known; `method` and `url` name the request.
    pub fn new(
        status_code: u16,
        header: HashMap<String, String>,
        remote: Option<String>,
        method: &str,
        url: &str,
    ) -> (r: Self)
        ensures
            r.wf(),
            r.status() == status_code,
            r.headers() == header@,
            r.remote() == remote_text(
                match remote {
                    Some(a) => Some(a@),
                    None => None,
                },
            ),
            r.method_text() == method@,
            r.url_text() == url@,
            r.gathered() == Seq::<char>::empty(),
            r.errors() == 0,
    {
        BodyExtractor {
            status_code,
            header,
            remote_address: remote_or_default(remote),
            method: String::from_str(method),
            url: String::from_str(url),
            body: String::new(),
            error_count: 0,
        }
    }

    /// How the body is to be obtained.
    pub fn mode(&self) -> (r: BodyMode)
        ensures
            r == body_mode_of(self.status()),
    {
        if 400 <= self.status_code && self.status_code <= 599 {
            BodyMode::Diagnostic
        } else if 200 <= self.status_code && self.status_code <= 299 {
            BodyMode::Streamed
        } else {
            BodyMode::Whole
        }
    }

    fn into_response(self, body: String) -> (r: HttpResponse)
        ensures
            r.status_code == self.status(),
            r.header@ == self.headers(),
            r.body@ == body@,
            r.remote_address@ == self.remote(),
    {
        HttpResponse {
            status_code: self.status_code,
            header: self.header,
            body,
            remote_address: self.remote_address,
        }
    }

    fn into_gathered(self) -> (r: HttpResponse)
        ensures
            r.status_code == self.status(),
            r.header@ == self.headers(),
            r.body@ == self.gathered(),
            r.remote_address@ == self.remote(),
    {
        HttpResponse {
            status_code: self.status_code,
            header: self.header,
            body: self.body,
            remote_address: self.remote_address,
        }
    }

    /// The response of an error status: its body is the diagnostic text naming the
    /// method, the URL and the reason phrase; nothing is read.
    pub fn finish_diagnostic(self) -> (r: HttpResponse)
        ensures
            r.status_code == self.status(),
            r.header@ == self.headers(),
            r.body@ == error_body_text(self.method_text(), self.url_text(), self.status()),
            r.remote_address@ == self.remote(),
    {
        let body = error_body(self.method.as_str(), self.url.as_str(), self.status_code);
        self.into_response(body)
    }

    /// The response whose body was read whole as `text`.
    pub fn finish_whole(self, text: String) -> (r: HttpResponse)
        ensures
            r.status_code == self.status(),
            r.header@ == self.headers(),
            r.body@ == text@,
            r.remote_address@ == self.remote(),
    {
        self.into_response(text)
    }

    /// Takes the outcome of one read of a body read piece by piece. A piece is decoded
    /// (invalid UTF-8 replaced) and appended; the end gives the response with all that
    /// was gathered; a failure is counted, and once the count exceeds the ceiling the
    /// response is given with what was gathered so far.
    pub fn on_chunk(self, outcome: ChunkRead) -> (r: ExtractStep)
        requires
            self.wf(),
        ensures
            match outcome {
                ChunkRead::Data(b) => r matches ExtractStep::Continue(e) && e.wf()
                    && e.gathered() == self.gathered() + utf8_lossy(b@)
                    && e.errors() == self.errors() && e.status() == self.status()
                    && e.headers() == self.headers() && e.remote() == self.remote()
                    && e.method_text() == self.method_text() && e.url_text() == self.url_text(),
                ChunkRead::End => r matches ExtractStep::Done(resp) && resp.status_code
                    == self.status() && resp.header@ == self.headers() && resp.body@
                    == self.gathered() && resp.remote_address@ == self.remote(),
                ChunkRead::Failed => if self.errors() + 1 > READ_ERROR_CEILING {
                    r matches ExtractStep::Done(resp) && resp.status_code == self.status()
                        && resp.header@ == self.headers() && resp.body@ == self.gathered()
                        && resp.remote_address@ == self.remote()
                } else {
                    r matches ExtractStep::Continue(e) && e.wf() && e.gathered()
                        == self.gathered() && e.errors() == self.errors() + 1 && e.status()
                        == self.status() && e.headers() == self.headers() && e.remote()
                        == self.remote() && e.method_text() == self.method_text()
                        && e.url_text() == self.url_text()
                },
            },
    {
        let mut this = self;
        match outcome {
            ChunkRead::Data(b) => {
                let text = decode_lossy(b.as_slice());
                this.body.append(text.as_str());
                ExtractStep::Continue(this)
            },
            ChunkRead::End => {
                ExtractStep::Done(this.into_gathered())
            },
            ChunkRead::Failed => {
                if this.error_count >= READ_ERROR_CEILING {
                    ExtractStep::Done(this.into_gathered())
                } else {
                    this.error_count = this.error_count + 1;
                    ExtractStep::Continue(this)
                }
            },
        }
    }
}

} // verus!
