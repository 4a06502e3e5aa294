//! Reading one request from a connection: bytes are collected chunk by chunk
//! and handed to the HTTP parser until the request is complete, the peer
//! stops sending, or the request has grown too large.
//!
//! A request that is malformed, or still incomplete when the stream ends or
//! the size limit is reached, is rejected: the connection is closed without a
//! response.

use vstd::prelude::*;

verus! {

/// How many headers a request may carry; one with more is malformed.
pub const MAX_HEADERS: usize = 16;

/// How many bytes are collected before an incomplete request is given up.
pub const MAX_REQUEST_BYTES: usize = 8192;

/// The size of the buffer that one read from the connection fills.
pub const READ_CHUNK_BYTES: usize = 256;

/// How far the parser came.
#[derive(Clone, Copy, Debug, PartialEq, Eq, Structural)]
pub enum ParseStatus {
    /// The request line and all headers were parsed.
    Complete,
    /// No invalid data so far, but the request has not ended yet.
    Partial,
    /// The bytes are not an HTTP request.
    Malformed,
}

/// What the parser reported about a buffer of bytes.
pub struct ParsedRequest {
    pub status: ParseStatus,
    /// The request path, where the parser came far enough to read it.
    pub path: Option<String>,
}

/// A parse report, mathematically.
pub ghost struct ParsedModel {
    pub status: ParseStatus,
    pub path: Option<Seq<char>>,
}

impl View for ParsedRequest {
    type V = ParsedModel;

    open spec fn view(&self) -> ParsedModel {
        ParsedModel {
            status: self.status,
            path: match self.path {
                Some(p) => Some(p@),
                None => None,
            },
        }
    }
}

/// What to do after a chunk has been read.
pub enum ReadStep {
    /// Read another chunk.
    NeedMore,
    /// The request is complete and asks for this path.
    Ready { path: String },
    /// Close the connection without a response.
    Reject,
}

/// A read step, mathematically.
pub ghost enum StepModel {
    NeedMore,
    Ready { path: Seq<char> },
    Reject,
}

impl View for ReadStep {
    type V = StepModel;

    open spec fn view(&self) -> StepModel {
        match self {
            ReadStep::NeedMore => StepModel::NeedMore,
            ReadStep::Ready { path } => (StepModel::Ready { path: path@ }),
            ReadStep::Reject => StepModel::Reject,
        }
    }
}

/// What `httparse` reports for `bytes` when given room for `max_headers`
/// headers.
pub uninterp spec fn parsed_request(bytes: Seq<u8>, max_headers: usize) -> ParsedModel;

/// The step that follows a parse report: a complete request is ready, a
/// malformed one is rejected, and an incomplete one asks for more bytes
/// unless the stream has ended or `buffered` has reached the size limit.
pub open spec fn next_step(parsed: ParsedModel, end_of_stream: bool, buffered: nat) -> StepModel {
    match parsed.status {
        ParseStatus::Complete => match parsed.path {
            Some(path) => (StepModel::Ready { path }),
            None => StepModel::Reject,
        },
        ParseStatus::Partial => if end_of_stream || buffered >= MAX_REQUEST_BYTES {
            StepModel::Reject
        } else {
            StepModel::NeedMore
        },
        ParseStatus::Malformed => StepModel::Reject,
    }
}

/// Runs `httparse::Request::parse` on `bytes` with room for `max_headers`
/// headers. Trusted: the report is a function of the bytes and that number
/// alone, named `parsed_request`; its status mirrors the parser's `Complete`,
/// `Partial` or error, and its path is the parser's `path` field after the
/// call. Nothing more is claimed of what the parser accepts. The room for
/// headers is allocated before the call, so its size is kept small.
#[verifier::external_body]
pub(crate) fn parse_request(bytes: &[u8], max_headers: usize) -> (parsed: ParsedRequest)
    requires
        max_headers <= MAX_HEADERS,
    ensures
        parsed@ == parsed_request(bytes@, max_headers),
{
    let mut headers = vec![httparse::EMPTY_HEADER; max_headers];
    let mut request = httparse::Request::new(&mut headers);
    let status = match request.parse(bytes) {
        Ok(httparse::Status::Complete(_)) => ParseStatus::Complete,
        Ok(httparse::Status::Partial) => ParseStatus::Partial,
        Err(_) => ParseStatus::Malformed,
    };
    ParsedRequest { status, path: request.path.map(String::from) }
}

/// Decides the next step from a parse report.
pub fn decide(parsed: ParsedRequest, end_of_stream: bool, buffered: usize) -> (step: ReadStep)
    ensures
        step@ == next_step(parsed@, end_of_stream, buffered as nat),
{
    match parsed.status {
        ParseStatus::Complete => match parsed.path {
            Some(path) => ReadStep::Ready { path },
            None => ReadStep::Reject,
        },
        ParseStatus::Partial => if end_of_stream || buffered >= MAX_REQUEST_BYTES {
            ReadStep::Reject
        } else {
            ReadStep::NeedMore
        },
        ParseStatus::Malformed => ReadStep::Reject,
    }
}

/// Collects the bytes of one request.
pub struct RequestReader {
    buffer: Vec<u8>,
}

impl View for RequestReader {
    type V = Seq<u8>;

    /// The bytes collected so far.
    closed spec fn view(&self) -> Seq<u8> {
        self.buffer@
    }
}

impl RequestReader {
    /// A reader that has collected nothing.
    pub fn new() -> (reader: RequestReader)
        ensures
            reader@ == Seq::<u8>::empty(),
    {
        RequestReader { buffer: Vec::new() }
    }

    /// The number of bytes collected so far.
    pub fn buffered(&self) -> (n: usize)
        ensures
            n == self@.len(),
    {
        self.buffer.len()
    }

    /// Takes in the bytes of one read, where an empty chunk means that the
    /// peer has ended the stream, and says what to do next. The chunk is
    /// appended to what was collected, the whole is parsed, and the step is
    /// decided from the parser's report.
    pub fn feed(&mut self, chunk: &[u8]) -> (step: ReadStep)
        ensures
            final(self)@ == old(self)@ + chunk@,
            step@ == next_step(
                parsed_request(final(self)@, MAX_HEADERS),
                chunk@.len() == 0,
                final(self)@.len(),
            ),
    {
        crate::response::append_bytes(&mut self.buffer, chunk);
        let parsed = parse_request(self.buffer.as_slice(), MAX_HEADERS);
        decide(parsed, chunk.len() == 0, self.buffer.len())
    }
}

/// Reading always ends: once the stream has ended or the size limit is
/// reached, no parse report asks for more bytes.
pub proof fn lemma_reading_ends(parsed: ParsedModel, end_of_stream: bool, buffered: nat)
    requires
        end_of_stream || buffered >= MAX_REQUEST_BYTES,
    ensures
        !(next_step(parsed, end_of_stream, buffered) is NeedMore),
{
}

} // verus!
