//! What the server answers: the three kinds of response, how one is chosen
//! from the outcome of looking a file up, and its exact form on the wire.

use vstd::prelude::*;
use vstd::string::*;

verus! {

/// What came of opening the requested file.
pub enum FileLookup {
    /// The file was opened and read; these are its bytes.
    Found(Vec<u8>),
    /// No such file exists.
    Missing,
    /// The file could not be opened for any other reason.
    Failed,
}

/// A response, as a tagged variant that the writer consumes uniformly.
pub enum Response {
    /// Status 200 with the file's contents.
    Success { body: Vec<u8> },
    /// Status 404 with the not-found document.
    NotFound { body: Vec<u8> },
    /// Status 500 with a fixed body that reveals nothing of the cause.
    ServerError,
}

/// What a file lookup is, mathematically.
pub ghost enum LookupModel {
    Found(Seq<u8>),
    Missing,
    Failed,
}

/// What a response is, mathematically.
pub ghost enum ResponseModel {
    Success { body: Seq<u8> },
    NotFound { body: Seq<u8> },
    ServerError,
}

impl View for FileLookup {
    type V = LookupModel;

    open spec fn view(&self) -> LookupModel {
        match self {
            FileLookup::Found(contents) => LookupModel::Found(contents@),
            FileLookup::Missing => LookupModel::Missing,
            FileLookup::Failed => LookupModel::Failed,
        }
    }
}

impl View for Response {
    type V = ResponseModel;

    open spec fn view(&self) -> ResponseModel {
        match self {
            Response::Success { body } => (ResponseModel::Success { body: body@ }),
            Response::NotFound { body } => (ResponseModel::NotFound { body: body@ }),
            Response::ServerError => ResponseModel::ServerError,
        }
    }
}

/// The decimal digit `d` as text.
pub open spec fn digit_text(d: nat) -> Seq<char> {
    if d == 0 {
        "0"@
    } else if d == 1 {
        "1"@
    } else if d == 2 {
        "2"@
    } else if d == 3 {
        "3"@
    } else if d == 4 {
        "4"@
    } else if d == 5 {
        "5"@
    } else if d == 6 {
        "6"@
    } else if d == 7 {
        "7"@
    } else if d == 8 {
        "8"@
    } else {
        "9"@
    }
}

/// The number `n` in decimal, without leading zeros.
pub open spec fn decimal_text(n: nat) -> Seq<char>
    decreases n,
{
    if n < 10 {
        digit_text(n)
    } else {
        decimal_text(n / 10) + digit_text(n % 10)
    }
}

/// The body sent when no custom not-found document is configured.
pub open spec fn default_not_found_body() -> Seq<u8> {
    "<html><body><h1>404 Not Found</h1></body></html>".spec_bytes()
}

/// The body of every 500 response.
pub open spec fn server_error_body() -> Seq<u8> {
    "Internal Server Error".spec_bytes()
}

/// The file path that a request path names under `root`: the request path
/// appended to the root, with a `/` between them unless the request path
/// brings its own.
pub open spec fn resolved_path(root: Seq<char>, requested: Seq<char>) -> Seq<char> {
    if requested.len() > 0 && requested[0] == '/' {
        root + requested
    } else {
        root + "/"@ + requested
    }
}

/// The document sent with a 404: the configured one where there is one, else
/// the built-in default.
pub open spec fn chosen_not_found_body(configured: Option<Seq<u8>>) -> Seq<u8> {
    match configured {
        Some(custom) => custom,
        None => default_not_found_body(),
    }
}

/// The response owed for the outcome of a file lookup.
pub open spec fn response_for(lookup: LookupModel, not_found: Seq<u8>) -> ResponseModel {
    match lookup {
        LookupModel::Found(contents) => (ResponseModel::Success { body: contents }),
        LookupModel::Missing => (ResponseModel::NotFound { body: not_found }),
        LookupModel::Failed => ResponseModel::ServerError,
    }
}

impl ResponseModel {
    /// The status code: 200, 404 or 500.
    pub open spec fn code(self) -> nat {
        match self {
            ResponseModel::Success { .. } => 200,
            ResponseModel::NotFound { .. } => 404,
            ResponseModel::ServerError => 500,
        }
    }

    /// The reason phrase that follows the status code.
    pub open spec fn reason_text(self) -> Seq<char> {
        match self {
            ResponseModel::Success { .. } => "OK"@,
            ResponseModel::NotFound { .. } => "NOT FOUND"@,
            ResponseModel::ServerError => "INTERNAL SERVER ERROR"@,
        }
    }

    /// The body bytes.
    pub open spec fn body_bytes(self) -> Seq<u8> {
        match self {
            ResponseModel::Success { body } => body,
            ResponseModel::NotFound { body } => body,
            ResponseModel::ServerError => server_error_body(),
        }
    }

    /// Status line, the `Content-Length` header and the blank line that ends
    /// the head.
    pub open spec fn head_text(self) -> Seq<char> {
        "HTTP/1.1 "@ + decimal_text(self.code()) + " "@ + self.reason_text() + "\r\n"@
            + "Content-Length: "@ + decimal_text(self.body_bytes().len()) + "\r\n\r\n"@
    }

    /// The whole response as sent: the head in UTF-8, then the body.
    pub open spec fn wire(self) -> Seq<u8> {
        vstd::utf8::encode_utf8(self.head_text()) + self.body_bytes()
    }
}

impl Response {
    /// The status code.
    pub fn status_code(&self) -> (code: u16)
        ensures
            code == self@.code(),
    {
        match self {
            Response::Success { .. } => 200,
            Response::NotFound { .. } => 404,
            Response::ServerError => 500,
        }
    }

    /// The reason phrase.
    pub fn reason(&self) -> (phrase: &'static str)
        ensures
            phrase@ == self@.reason_text(),
    {
        match self {
            Response::Success { .. } => "OK",
            Response::NotFound { .. } => "NOT FOUND",
            Response::ServerError => "INTERNAL SERVER ERROR",
        }
    }

    /// A copy of the body.
    pub fn body(&self) -> (bytes: Vec<u8>)
        ensures
            bytes@ == self@.body_bytes(),
    {
        match self {
            Response::Success { body } => copy_bytes(body.as_slice()),
            Response::NotFound { body } => copy_bytes(body.as_slice()),
            Response::ServerError => "Internal Server Error".as_bytes_vec(),
        }
    }

    /// The length of the body, which is the value of `Content-Length`.
    pub fn content_length(&self) -> (n: usize)
        ensures
            n == self@.body_bytes().len(),
    {
        match self {
            Response::Success { body } => body.len(),
            Response::NotFound { body } => body.len(),
            Response::ServerError => "Internal Server Error".as_bytes_vec().len(),
        }
    }

    /// The head of the response as text.
    pub fn head(&self) -> (text: String)
        ensures
            text@ == self@.head_text(),
    {
        let code: u16 = self.status_code();
        let mut text = String::from_str("HTTP/1.1 ");
        text.append(decimal(code as usize).as_str());
        text.append(" ");
        text.append(self.reason());
        text.append("\r\n");
        text.append("Content-Length: ");
        text.append(decimal(self.content_length()).as_str());
        text.append("\r\n\r\n");
        text
    }

    /// The bytes to write to the connection: status line, headers, blank
    /// line and body, in that order.
    pub fn to_bytes(&self) -> (bytes: Vec<u8>)
        ensures
            bytes@ == self@.wire(),
    {
        let head = self.head();
        let mut bytes = head.as_str().as_bytes_vec();
        let body = self.body();
        append_bytes(&mut bytes, body.as_slice());
        bytes
    }
}

/// Appends `src` to `out`.
pub fn append_bytes(out: &mut Vec<u8>, src: &[u8])
    ensures
        final(out)@ == old(out)@ + src@,
{
    let mut i: usize = 0;
    while i < src.len()
        invariant
            i <= src@.len(),
            out@ == old(out)@ + src@.take(i as int),
        decreases src@.len() - i,
    {
        out.push(src[i]);
        proof {
            assert(src@.take(i + 1) =~= src@.take(i as int).push(src@[i as int]));
            assert(out@ =~= old(out)@ + src@.take(i + 1));
        }
        i = i + 1;
    }
    proof {
        assert(src@.take(i as int) =~= src@);
    }
}

/// A fresh vector holding the bytes of `src`.
pub fn copy_bytes(src: &[u8]) -> (bytes: Vec<u8>)
    ensures
        bytes@ == src@,
{
    let mut bytes: Vec<u8> = Vec::new();
    append_bytes(&mut bytes, src);
    proof {
        assert(bytes@ =~= src@);
    }
    bytes
}

/// The digit `d` as a string.
pub fn digit_str(d: usize) -> (text: &'static str)
    requires
        d < 10,
    ensures
        text@ == digit_text(d as nat),
{
    if d == 0 {
        "0"
    } else if d == 1 {
        "1"
    } else if d == 2 {
        "2"
    } else if d == 3 {
        "3"
    } else if d == 4 {
        "4"
    } else if d == 5 {
        "5"
    } else if d == 6 {
        "6"
    } else if d == 7 {
        "7"
    } else if d == 8 {
        "8"
    } else {
        "9"
    }
}

/// The number `n` written in decimal.
pub fn decimal(n: usize) -> (text: String)
    ensures
        text@ == decimal_text(n as nat),
    decreases n,
{
    if n < 10 {
        String::from_str(digit_str(n))
    } else {
        decimal(n / 10).concat(digit_str(n % 10))
    }
}

/// The document sent with every 404: the configured one where there is one,
/// else the built-in default.
pub fn not_found_document(configured: Option<Vec<u8>>) -> (document: Vec<u8>)
    ensures
        document@ == chosen_not_found_body(
            match configured {
                Some(custom) => Some(custom@),
                None => None,
            },
        ),
{
    match configured {
        Some(custom) => custom,
        None => "<html><body><h1>404 Not Found</h1></body></html>".as_bytes_vec(),
    }
}

/// Chooses the response for the outcome of a file lookup: the file's bytes
/// with status 200, the not-found document with status 404, or status 500
/// for any other failure.
pub fn respond(lookup: FileLookup, not_found: &[u8]) -> (response: Response)
    ensures
        response@ == response_for(lookup@, not_found@),
{
    match lookup {
        FileLookup::Found(contents) => Response::Success { body: contents },
        FileLookup::Missing => Response::NotFound { body: copy_bytes(not_found) },
        FileLookup::Failed => Response::ServerError,
    }
}

/// Maps a request path onto the root directory.
pub fn resolve_path(root: &str, requested: &str) -> (path: String)
    ensures
        path@ == resolved_path(root@, requested@),
{
    let mut path = String::from_str(root);
    if requested.unicode_len() > 0 && requested.get_char(0) == '/' {
        path.append(requested);
    } else {
        path.append("/");
        path.append(requested);
    }
    path
}

/// An existing file is served whole: status 200, a `Content-Length` that is
/// the file's byte length in decimal, and a body identical to the file's
/// contents, which ends the bytes on the wire.
pub proof fn lemma_existing_file_is_served(contents: Seq<u8>, not_found: Seq<u8>)
    ensures
        response_for(LookupModel::Found(contents), not_found).code() == 200,
        response_for(LookupModel::Found(contents), not_found).body_bytes() == contents,
        response_for(LookupModel::Found(contents), not_found).head_text()
            == "HTTP/1.1 200 OK\r\nContent-Length: "@ + decimal_text(contents.len())
            + "\r\n\r\n"@,
        response_for(LookupModel::Found(contents), not_found).wire()
            == vstd::utf8::encode_utf8(
            "HTTP/1.1 200 OK\r\nContent-Length: "@ + decimal_text(contents.len())
                + "\r\n\r\n"@,
        ) + contents,
{
    reveal_with_fuel(decimal_text, 3);
    reveal_strlit("HTTP/1.1 200 OK\r\nContent-Length: ");
    reveal_strlit("HTTP/1.1 ");
    reveal_strlit("Content-Length: ");
    reveal_strlit(" ");
    reveal_strlit("OK");
    reveal_strlit("\r\n");
    reveal_strlit("0");
    reveal_strlit("2");
    let r = response_for(LookupModel::Found(contents), not_found);
    assert(decimal_text(200) =~= "2"@ + "0"@ + "0"@);
    assert(r.head_text() =~= "HTTP/1.1 200 OK\r\nContent-Length: "@ + decimal_text(
        contents.len(),
    ) + "\r\n\r\n"@);
}

/// A missing file is answered with status 404 and the not-found document:
/// the configured one, or the built-in default where none is configured.
pub proof fn lemma_missing_file_is_not_found(configured: Option<Seq<u8>>)
    ensures
        response_for(LookupModel::Missing, chosen_not_found_body(configured)).code() == 404,
        configured is Some ==> response_for(
            LookupModel::Missing,
            chosen_not_found_body(configured),
        ).body_bytes() == configured->0,
        configured is None ==> response_for(
            LookupModel::Missing,
            chosen_not_found_body(configured),
        ).body_bytes() == default_not_found_body(),
        response_for(LookupModel::Missing, chosen_not_found_body(configured)).head_text()
            == "HTTP/1.1 404 NOT FOUND\r\nContent-Length: "@ + decimal_text(
            chosen_not_found_body(configured).len(),
        ) + "\r\n\r\n"@,
{
    reveal_with_fuel(decimal_text, 3);
    reveal_strlit("HTTP/1.1 404 NOT FOUND\r\nContent-Length: ");
    reveal_strlit("HTTP/1.1 ");
    reveal_strlit("Content-Length: ");
    reveal_strlit(" ");
    reveal_strlit("NOT FOUND");
    reveal_strlit("\r\n");
    reveal_strlit("0");
    reveal_strlit("4");
    let r = response_for(LookupModel::Missing, chosen_not_found_body(configured));
    assert(decimal_text(404) =~= "4"@ + "0"@ + "4"@);
    assert(r.head_text() =~= "HTTP/1.1 404 NOT FOUND\r\nContent-Length: "@ + decimal_text(
        chosen_not_found_body(configured).len(),
    ) + "\r\n\r\n"@);
}

/// Every decimal digit is an ASCII character.
pub proof fn lemma_digit_is_ascii(d: nat)
    ensures
        vstd::utf8::is_ascii_chars(digit_text(d)),
        digit_text(d).len() == 1,
{
    reveal_strlit("0");
    reveal_strlit("1");
    reveal_strlit("2");
    reveal_strlit("3");
    reveal_strlit("4");
    reveal_strlit("5");
    reveal_strlit("6");
    reveal_strlit("7");
    reveal_strlit("8");
    reveal_strlit("9");
}

/// A number in decimal is ASCII text.
pub proof fn lemma_decimal_is_ascii(n: nat)
    ensures
        vstd::utf8::is_ascii_chars(decimal_text(n)),
        decimal_text(n).len() >= 1,
    decreases n,
{
    if n < 10 {
        lemma_digit_is_ascii(n);
    } else {
        lemma_decimal_is_ascii(n / 10);
        lemma_digit_is_ascii(n % 10);
    }
}

/// The head of every response is ASCII text, so on the wire each of its
/// characters is one byte, and the body starts right after the head's last
/// character.
pub proof fn lemma_head_is_ascii(response: ResponseModel)
    ensures
        vstd::utf8::is_ascii_chars(response.head_text()),
        response.wire().len() == response.head_text().len() + response.body_bytes().len(),
        forall|i: int|
            0 <= i < response.head_text().len() ==> response.wire()[i]
                == response.head_text()[i] as u8,
        forall|i: int|
            0 <= i < response.body_bytes().len() ==> response.wire()[response.head_text().len()
                + i] == response.body_bytes()[i],
{
    reveal_strlit("HTTP/1.1 ");
    reveal_strlit(" ");
    reveal_strlit("OK");
    reveal_strlit("NOT FOUND");
    reveal_strlit("INTERNAL SERVER ERROR");
    reveal_strlit("\r\n");
    reveal_strlit("Content-Length: ");
    reveal_strlit("\r\n\r\n");
    lemma_decimal_is_ascii(response.code());
    lemma_decimal_is_ascii(response.body_bytes().len());
    vstd::utf8::is_ascii_chars_encode_utf8(response.head_text());
}

} // verus!
