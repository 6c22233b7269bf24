use vstd::prelude::*;

use std::collections::HashMap;

use crate::extract::READ_ERROR_CEILING;
use crate::response::{
    decode_lossy, is_error_status, reason_or_unknown, reason_text, remote_or_default, remote_text,
    utf8_lossy, ChunkRead, HttpResponse,
};

verus! {

/// The diagnostic body a stream gives when its status is an error.
pub open spec fn stream_error_text(url: Seq<char>, reason: Seq<char>) -> Seq<char> {
    "ERROR: Failed to read stream response from "@ + url + ". Status: "@ + reason + "."@
}

/// The abstract state of a stream: an error status, read to its end (or stopped
/// after too many failures), the failures counted, and the diagnostic text.
pub struct StreamModel {
    pub error_status: bool,
    pub finished: bool,
    pub errors: nat,
    pub diagnostic: Seq<char>,
}

/// One call on a stream: the next state, and the body of the response it gives
/// (`None` when it gives none). An error status gives the diagnostic every time; a
/// finished stream gives nothing; otherwise a piece gives its decoded text, the end
/// finishes the stream, and a failure gives an empty body, or finishes the stream
/// once the failures exceed the ceiling.
pub open spec fn stream_step(m: StreamModel, ev: ChunkRead) -> (StreamModel, Option<Seq<char>>) {
    if m.error_status {
        (m, Some(m.diagnostic))
    } else if m.finished {
        (m, None)
    } else {
        match ev {
            ChunkRead::Data(b) => (m, Some(utf8_lossy(b@))),
            ChunkRead::End => (StreamModel { finished: true, ..m }, None),
            ChunkRead::Failed => if m.errors + 1 > READ_ERROR_CEILING {
                (StreamModel { finished: true, errors: m.errors + 1, ..m }, None)
            } else {
                (StreamModel { errors: m.errors + 1, ..m }, Some(Seq::empty()))
            },
        }
    }
}

/// The state after the first `k` calls.
pub open spec fn model_after(m: StreamModel, evs: Seq<ChunkRead>, k: int) -> StreamModel
    decreases k,
{
    if k <= 0 {
        m
    } else {
        stream_step(model_after(m, evs, k - 1), evs[k - 1]).0
    }
}

/// The bodies given by a sequence of calls, one for each.
pub open spec fn run(m: StreamModel, evs: Seq<ChunkRead>) -> Seq<Option<Seq<char>>> {
    Seq::new(evs.len(), |j: int| stream_step(model_after(m, evs, j), evs[j]).1)
}

/// A body of N pieces read without failure: N calls give the N pieces' texts in
/// order, and the next call gives nothing.
pub proof fn lemma_stream_in_order(m: StreamModel, chunks: Seq<Vec<u8>>)
    requires
        !m.error_status,
        !m.finished,
    ensures
        run(m, chunks.map_values(|c: Vec<u8>| ChunkRead::Data(c)).push(ChunkRead::End))
            == chunks.map_values(|c: Vec<u8>| Some(utf8_lossy(c@))).push(
            None::<Seq<char>>,
        ),
{
    let evs = chunks.map_values(|c: Vec<u8>| ChunkRead::Data(c)).push(ChunkRead::End);
    assert forall|k: int| 0 <= k <= chunks.len() implies #[trigger] model_after(m, evs, k)
        == m by {
        lemma_unchanged_prefix(m, evs, k, chunks);
    }
    let out = run(m, evs);
    let want = chunks.map_values(|c: Vec<u8>| Some(utf8_lossy(c@))).push(None::<Seq<char>>);
    assert forall|j: int| 0 <= j < out.len() implies out[j] == want[j] by {
        assert(model_after(m, evs, j) == m);
    }
    assert(out =~= want);
}

proof fn lemma_unchanged_prefix(m: StreamModel, evs: Seq<ChunkRead>, k: int, chunks: Seq<Vec<u8>>)
    requires
        !m.error_status,
        !m.finished,
        evs == chunks.map_values(|c: Vec<u8>| ChunkRead::Data(c)).push(ChunkRead::End),
        0 <= k <= chunks.len(),
    ensures
        model_after(m, evs, k) == m,
    decreases k,
{
    if k > 0 {
        lemma_unchanged_prefix(m, evs, k - 1, chunks);
        assert(evs[k - 1] == ChunkRead::Data(chunks[k - 1]));
    }
}

proof fn lemma_finished_stays(m: StreamModel, evs: Seq<ChunkRead>, k: int, j: int)
    requires
        !m.error_status,
        0 <= k <= j,
        model_after(m, evs, k).finished,
    ensures
        model_after(m, evs, j).finished,
        !model_after(m, evs, j).error_status,
    decreases j - k,
{
    lemma_error_status_kept(m, evs, j);
    if j > k {
        lemma_finished_stays(m, evs, k, j - 1);
    }
}

proof fn lemma_error_status_kept(m: StreamModel, evs: Seq<ChunkRead>, j: int)
    ensures
        model_after(m, evs, j).error_status == m.error_status,
    decreases j,
{
    if j > 0 {
        lemma_error_status_kept(m, evs, j - 1);
    }
}

/// Once a failure takes the count over the ceiling, that call and every later call
/// give nothing: no piece after the breach is delivered.
pub proof fn lemma_nothing_after_breach(m: StreamModel, evs: Seq<ChunkRead>, k: int)
    requires
        !m.error_status,
        0 <= k < evs.len(),
        evs[k] is Failed,
        !model_after(m, evs, k).finished,
        model_after(m, evs, k).errors + 1 > READ_ERROR_CEILING,
    ensures
        forall|j: int| k <= j < evs.len() ==> (#[trigger] run(m, evs)[j]) is None,
{
    lemma_error_status_kept(m, evs, k);
    assert(model_after(m, evs, k + 1).finished);
    assert forall|j: int| k <= j < evs.len() implies (#[trigger] run(m, evs)[j]) is None by {
        if j > k {
            lemma_finished_stays(m, evs, k + 1, j);
        }
    }
}

/// A response body read piece by piece, one piece for each call.
pub struct HttpStreamResponse {
    status_code: u16,
    ini_status_str: String,
    ini_header: HashMap<String, String>,
    url: String,
    remote_address: String,
    error_count: u8,
    finished: bool,
}

impl HttpStreamResponse {
    /// The abstract state.
    pub closed spec fn model(&self) -> StreamModel {
        StreamModel {
            error_status: is_error_status(self.status_code),
            finished: self.finished,
            errors: self.error_count as nat,
            diagnostic: stream_error_text(self.url@, self.ini_status_str@),
        }
    }

    pub closed spec fn status(&self) -> u16 {
        self.status_code
    }

    pub closed spec fn initial_headers(&self) -> Map<String, String> {
        self.ini_header@
    }

    pub closed spec fn remote(&self) -> Seq<char> {
        self.remote_address@
    }

    pub closed spec fn url_text(&self) -> Seq<char> {
        self.url@
    }

    /// The next call reads a piece: the status is not an error and the stream has
    /// not finished.
    pub open spec fn active(&self) -> bool {
        !self.model().error_status && !self.model().finished
    }

    pub closed spec fn wf(&self) -> bool {
        &&& self.error_count <= READ_ERROR_CEILING + 1
        &&& !self.finished ==> self.error_count <= READ_ERROR_CEILING
    }

    /// Starts on a response whose status, header fields, final URL and peer address
    /// (when the transport reports one) are known.
    pub fn new(
        status_code: u16,
        header: HashMap<String, String>,
        url: String,
        remote: Option<String>,
    ) -> (r: Self)
        ensures
            r.wf(),
            r.status() == status_code,
            r.initial_headers() == header@,
            r.url_text() == url@,
            r.remote() == remote_text(
                match remote {
                    Some(a) => Some(a@),
                    None => None,
                },
            ),
            r.model() == (StreamModel {
                error_status: is_error_status(status_code),
                finished: false,
                errors: 0,
                diagnostic: stream_error_text(url@, reason_text(status_code)),
            }),
    {
        HttpStreamResponse {
            status_code,
            ini_status_str: reason_or_unknown(status_code),
            ini_header: header,
            url,
            remote_address: remote_or_default(remote),
            error_count: 0,
            finished: false,
        }
    }

    /// True when the status is a client or server error.
    pub fn is_error(&self) -> (r: bool)
        ensures
            r == is_error_status(self.status()),
    {
        400 <= self.status_code && self.status_code <= 599
    }

    /// The status code.
    pub fn get_status(&self) -> (r: u16)
        ensures
            r == self.status(),
    {
        self.status_code
    }

    /// The header fields the response arrived with.
    pub fn get_ini_header(&self) -> (r: HashMap<String, String>)
        ensures
            r@ == self.initial_headers(),
    {
        self.ini_header.clone()
    }

    /// Whether the next call needs a piece read from the transport: the status is
    /// not an error and the stream has not finished.
    pub fn needs_read(&self) -> (r: bool)
        ensures
            r == self.active(),
    {
        !self.is_error() && !self.finished
    }

    fn diagnostic(&self) -> (r: HttpResponse)
        ensures
            r.status_code == self.status(),
            r.header@ == self.initial_headers(),
            r.body@ == self.model().diagnostic,
            r.remote_address@ == self.remote(),
    {
        let mut body = String::from_str("ERROR: Failed to read stream response from ");
        body.append(self.url.as_str());
        body.append(". Status: ");
        body.append(self.ini_status_str.as_str());
        body.append(".");
        HttpResponse {
            status_code: self.status_code,
            header: self.ini_header.clone(),
            body,
            remote_address: self.remote_address.clone(),
        }
    }

    /// The call on a stream that needs no read: the diagnostic response for an error
    /// status (the same on every call), nothing once the stream has finished.
    pub fn next_without_read(&self) -> (r: Option<HttpResponse>)
        requires
            !self.active(),
        ensures
            match stream_step(self.model(), ChunkRead::End).1 {
                Some(body) => r matches Some(resp) && resp.body@ == body && resp.status_code
                    == self.status() && resp.header@ == self.initial_headers()
                    && resp.remote_address@ == self.remote(),
                None => r is None,
            },
    {
        if self.is_error() {
            Some(self.diagnostic())
        } else {
            None
        }
    }

    /// Takes the outcome of reading one piece of an active stream, with the header
    /// fields as they now stand. A piece gives a response with its decoded text; the
    /// end gives nothing and finishes the stream; a failure is counted and gives an
    /// empty body, or nothing once the count exceeds the ceiling, which finishes the
    /// stream.
    pub fn read_stream(&mut self, outcome: ChunkRead, header: HashMap<String, String>) -> (r:
        Option<HttpResponse>)
        requires
            old(self).wf(),
            old(self).active(),
        ensures
            final(self).wf(),
            final(self).model() == stream_step(old(self).model(), outcome).0,
            final(self).status() == old(self).status(),
            final(self).initial_headers() == old(self).initial_headers(),
            final(self).remote() == old(self).remote(),
            final(self).url_text() == old(self).url_text(),
            match stream_step(old(self).model(), outcome).1 {
                Some(body) => r matches Some(resp) && resp.body@ == body && resp.status_code
                    == old(self).status() && resp.header@ == header@ && resp.remote_address@
                    == old(self).remote(),
                None => r is None,
            },
    {
        match outcome {
            ChunkRead::Data(b) => {
                let body = decode_lossy(b.as_slice());
                Some(
                    HttpResponse {
                        status_code: self.status_code,
                        header,
                        body,
                        remote_address: self.remote_address.clone(),
                    },
                )
            },
            ChunkRead::End => {
                self.finished = true;
                None
            },
            ChunkRead::Failed => {
                self.error_count = self.error_count + 1;
                if self.error_count > READ_ERROR_CEILING {
                    self.finished = true;
                    None
                } else {
                    Some(
                        HttpResponse {
                            status_code: self.status_code,
                            header,
                            body: String::new(),
                            remote_address: self.remote_address.clone(),
                        },
                    )
                }
            },
        }
    }
}

} // verus!
