//! HTTP exchanges of the Asset Delivery Plane: reading a request head, deciding the answer, and
//! rendering and streaming it.
//!
//! Sockets, clocks, the Grant registry and the Asset backend live outside. An exchange is driven
//! by asking [`handle_connection`] again and again, each time with one more fact about the outside
//! world, until it names the response.

use vstd::prelude::*;
use vstd::slice::slice_subrange;
use vstd::utf8::{decode_utf8, encode_utf8, valid_utf8};

use crate::range::{parse_range, requested_range, RangeParseError};
use crate::text::{
    chars_of, contains_char, contains_string, contains_white_space, decimal, decimal_text, find,
    find_text, has_prefix, has_white_space, is_white_space, joined, law_words_are_taken_apart,
    lemma_find_from, lower_char, lower_text, occurs_at, optional_text, same_chars, same_text,
    split, split_text, split_white_space, starts_with, string_of, string_texts, texts, to_lower,
    trim, trim_text, utf8_text, words,
};

verus! {

/// The largest request head that is read.
pub const MAX_HEADER_BYTES: usize = 16384;

/// Why a connection task ended early.
#[derive(Clone, Copy, Debug, PartialEq, Eq, Structural)]
pub enum HttpTaskError {
    /// The request could not be read or the response could not be written.
    Request,
    /// The Asset backend failed while streaming.
    Backend,
}

impl HttpTaskError {
    /// The failure in words.
    pub open spec fn spec_message(self) -> Seq<char> {
        match self {
            HttpTaskError::Request => "HTTP request failed"@,
            HttpTaskError::Backend => "Asset backend failed while streaming"@,
        }
    }

    /// Returns the failure in words.
    pub fn message(&self) -> (r: String)
        ensures
            r@ == self.spec_message(),
    {
        match self {
            HttpTaskError::Request => "HTTP request failed".to_owned(),
            HttpTaskError::Backend => "Asset backend failed while streaming".to_owned(),
        }
    }
}

/// One header field.
#[derive(Debug, PartialEq, Eq)]
pub struct Header {
    /// The field name.
    pub name: String,
    /// The field value.
    pub value: String,
}

/// The name and the value of a header field.
pub type HeaderView = (Seq<char>, Seq<char>);

impl View for Header {
    type V = HeaderView;

    open spec fn view(&self) -> HeaderView {
        (self.name@, self.value@)
    }
}

/// The names and values of a list of header fields.
pub open spec fn headers_view(headers: Seq<Header>) -> Seq<HeaderView> {
    Seq::new(headers.len(), |i: int| headers[i]@)
}

/// A request head: its line and its header fields, names in small letters, in the order received.
#[derive(Debug, PartialEq, Eq)]
pub struct HttpRequest {
    /// The request method.
    pub method: String,
    /// The request target.
    pub target: String,
    /// The header fields.
    pub headers: Vec<Header>,
}

/// What a request head says.
pub struct RequestView {
    /// The request method.
    pub method: Seq<char>,
    /// The request target.
    pub target: Seq<char>,
    /// The header fields.
    pub headers: Seq<HeaderView>,
}

impl View for HttpRequest {
    type V = RequestView;

    open spec fn view(&self) -> RequestView {
        RequestView {
            method: self.method@,
            target: self.target@,
            headers: headers_view(self.headers@),
        }
    }
}

/// The value of the header field `name`: where it is repeated, the last one counts.
pub open spec fn header_value(headers: Seq<HeaderView>, name: Seq<char>) -> Option<Seq<char>>
    decreases headers.len(),
{
    if headers.len() == 0 {
        None
    } else if headers.last().0 == name {
        Some(headers.last().1)
    } else {
        header_value(headers.drop_last(), name)
    }
}

impl HttpRequest {
    /// Returns the value of the header field `name`: where it is repeated, the last one counts.
    pub fn header(&self, name: &str) -> (r: Option<String>)
        ensures
            optional_text(r) == header_value(self@.headers, name@),
    {
        let mut i: usize = self.headers.len();
        assert(self@.headers.take(i as int) =~= self@.headers);
        while i > 0
            invariant
                i <= self.headers@.len(),
                header_value(self@.headers, name@) == header_value(
                    self@.headers.take(i as int),
                    name@,
                ),
            decreases i,
        {
            assert(self@.headers.take(i as int).last() == self.headers@[i - 1]@);
            assert(self@.headers.take(i as int).drop_last() =~= self@.headers.take(i - 1));
            if same_text(self.headers[i - 1].name.as_str(), name) {
                return Some(self.headers[i - 1].value.clone());
            }
            i = i - 1;
        }
        None
    }
}

/// The blank line that ends a request head.
pub open spec fn has_blank_line(bytes: Seq<u8>) -> bool {
    exists|i: int|
        0 <= i <= bytes.len() - 4 && #[trigger] bytes[i] == 13 && bytes[i + 1] == 10 && bytes[i + 2]
            == 13 && bytes[i + 3] == 10
}

fn contains_blank_line(bytes: &[u8]) -> (r: bool)
    ensures
        r == has_blank_line(bytes@),
{
    if bytes.len() < 4 {
        return false;
    }
    let last: usize = bytes.len() - 4;
    let mut i: usize = 0;
    while i <= last
        invariant
            last + 4 == bytes@.len(),
            bytes@.len() <= usize::MAX,
            i <= last + 1,
            forall|j: int|
                0 <= j < i ==> !(#[trigger] bytes@[j] == 13 && bytes@[j + 1] == 10 && bytes@[j + 2]
                    == 13 && bytes@[j + 3] == 10),
        decreases last + 1 - i,
    {
        if bytes[i] == 13 && bytes[i + 1] == 10 && bytes[i + 2] == 13 && bytes[i + 3] == 10 {
            assert(bytes@[i as int] == 13);
            return true;
        }
        i = i + 1;
    }
    false
}

/// The text before the first blank line.
pub open spec fn head_of(text: Seq<char>) -> Seq<char> {
    match find_text(text, "\r\n\r\n"@) {
        Some(i) => text.take(i),
        None => text,
    }
}

/// The header field that one line of a head holds: what stands before its first colon, in small
/// letters, and what follows, both without surrounding white space.
pub open spec fn header_line(line: Seq<char>) -> Option<HeaderView> {
    match find_text(line, seq![':']) {
        None => None,
        Some(colon) => {
            let name = line.take(colon);
            let value = line.skip(colon + 1);
            if name.len() == 0 || value.contains('\r') || value.contains('\n') {
                None
            } else {
                Some((lower_text(trim_text(name)), trim_text(value)))
            }
        },
    }
}

/// Whether every line holds a header field.
pub open spec fn are_header_lines(lines: Seq<Seq<char>>) -> bool {
    forall|i: int| 0 <= i < lines.len() ==> header_line(#[trigger] lines[i]) is Some
}

/// The header fields of a head's lines.
pub open spec fn header_fields(lines: Seq<Seq<char>>) -> Seq<HeaderView> {
    Seq::new(lines.len(), |i: int| header_line(lines[i])->0)
}

/// The request that a text begins with: a line of exactly a method, a target and an HTTP/1 version,
/// then header fields. A request that announces a body is refused.
pub open spec fn request_of_text(text: Seq<char>) -> Option<RequestView> {
    let lines = split_text(head_of(text), "\r\n"@);
    let fields = words(lines[0]);
    let headers = header_fields(lines.skip(1));
    let announced = header_value(headers, "content-length"@);
    if fields.len() == 3 && starts_with(fields[2], "HTTP/1."@) && are_header_lines(lines.skip(1))
        && (announced is None || announced == Some("0"@)) {
        Some(RequestView { method: fields[0], target: fields[1], headers })
    } else {
        None
    }
}

/// The request that the bytes received begin with.
pub open spec fn request_of(bytes: Seq<u8>) -> Option<RequestView> {
    if valid_utf8(bytes) {
        request_of_text(decode_utf8(bytes))
    } else {
        None
    }
}

/// Parses one header line.
fn parse_header_line(line: &[char]) -> (r: Option<Header>)
    ensures
        match r {
            Some(header) => header_line(line@) == Some(header@),
            None => header_line(line@) is None,
        },
{
    let separator: [char; 1] = [':'];
    let pattern = separator.as_slice();
    assert(pattern@ =~= seq![':']);
    let colon: usize = match find(line, pattern) {
        Some(colon) => colon,
        None => {
            return None;
        },
    };
    let length: usize = line.len();
    let name = slice_subrange(line, 0, colon);
    let value = slice_subrange(line, colon + 1, length);
    assert(name@ =~= line@.take(colon as int));
    assert(value@ =~= line@.skip(colon + 1));
    if name.len() == 0 || contains_char(value, '\r') || contains_char(value, '\n') {
        return None;
    }
    let trimmed = trim(name);
    let small = to_lower(trimmed.as_slice());
    let trimmed_value = trim(value);
    Some(
        Header {
            name: string_of(small.as_slice()),
            value: string_of(trimmed_value.as_slice()),
        },
    )
}

/// Parses the request head at the beginning of the bytes received.
pub fn parse_request(bytes: &[u8]) -> (r: Result<HttpRequest, HttpTaskError>)
    ensures
        match r {
            Ok(request) => request_of(bytes@) == Some(request@),
            Err(error) => request_of(bytes@) is None && error == HttpTaskError::Request,
        },
{
    let text = match utf8_text(bytes) {
        Some(text) => chars_of(text.as_str()),
        None => {
            return Err(HttpTaskError::Request);
        },
    };
    proof {
        reveal_strlit("\r\n");
    }
    let blank_line = chars_of("\r\n\r\n");
    let line_end = chars_of("\r\n");
    let end: usize = match find(text.as_slice(), blank_line.as_slice()) {
        Some(end) => end,
        None => text.len(),
    };
    let head = slice_subrange(text.as_slice(), 0, end);
    assert(head@ =~= head_of(text@));
    let lines = split(head, line_end.as_slice());
    let ghost all = split_text(head_of(text@), "\r\n"@);
    assert(texts(lines@) == all);
    assert(all.len() > 0) by {
        lemma_find_from(head_of(text@), "\r\n"@, 0);
    }
    assert(lines@.len() == all.len());
    assert(lines@[0]@ == all[0]);
    let fields = split_white_space(lines[0].as_slice());
    assert(texts(fields@) == words(all[0]));
    assert(fields@.len() == words(all[0]).len());
    if fields.len() != 3 {
        return Err(HttpTaskError::Request);
    }
    assert forall|i: int| 0 <= i < 3 implies fields@[i]@ == words(all[0])[i] by {
        assert(texts(fields@)[i] == fields@[i]@);
    }
    let version_prefix = chars_of("HTTP/1.");
    if !has_prefix(fields[2].as_slice(), version_prefix.as_slice()) {
        return Err(HttpTaskError::Request);
    }
    let mut headers: Vec<Header> = Vec::new();
    let mut i: usize = 1;
    let ghost rest = all.skip(1);
    while i < lines.len()
        invariant
            1 <= i <= lines@.len(),
            lines@.len() == all.len(),
            texts(lines@) == all,
            rest == all.skip(1),
            headers@.len() == i - 1,
            request_of(bytes@) is Some ==> are_header_lines(rest),
            forall|j: int| 0 <= j < i - 1 ==> header_line(#[trigger] rest[j]) == Some(headers@[j]@),
        decreases lines@.len() - i,
    {
        assert(texts(lines@)[i as int] == lines@[i as int]@);
        assert(rest[i - 1] == lines@[i as int]@);
        match parse_header_line(lines[i].as_slice()) {
            Some(header) => {
                headers.push(header);
            },
            None => {
                assert(!are_header_lines(rest));
                return Err(HttpTaskError::Request);
            },
        }
        i = i + 1;
    }
    assert(are_header_lines(rest));
    assert(headers_view(headers@) =~= header_fields(rest));
    let request = HttpRequest {
        method: string_of(fields[0].as_slice()),
        target: string_of(fields[1].as_slice()),
        headers,
    };
    match request.header("content-length") {
        Some(length) => if !same_text(length.as_str(), "0") {
            return Err(HttpTaskError::Request);
        },
        None => {},
    }
    Ok(request)
}

/// Collects the bytes of a request head as they arrive.
#[derive(Debug)]
pub struct RequestReader {
    buffer: Vec<u8>,
}

/// What became of a request after some more of its bytes arrived.
#[derive(Debug, PartialEq, Eq)]
pub enum ReadProgress {
    /// The head is not complete yet.
    Incomplete,
    /// The head is complete and well formed.
    Complete(HttpRequest),
    /// The head is too long, cut short or malformed.
    Rejected,
}

impl View for RequestReader {
    type V = Seq<u8>;

    closed spec fn view(&self) -> Seq<u8> {
        self.buffer@
    }
}

impl RequestReader {
    /// Creates a reader that has received nothing.
    pub fn new() -> (r: RequestReader)
        ensures
            r@ == Seq::<u8>::empty(),
    {
        RequestReader { buffer: Vec::new() }
    }

    /// Takes in the bytes of one read from the connection; none mean that it was closed.
    ///
    /// The head is parsed as soon as its blank line has arrived. Without one, a head that has
    /// reached the size limit is refused.
    pub fn receive(&mut self, chunk: &[u8]) -> (r: ReadProgress)
        requires
            old(self)@.len() + chunk@.len() <= usize::MAX,
        ensures
            final(self)@ == old(self)@ + chunk@,
            match r {
                ReadProgress::Rejected => chunk@.len() == 0 || if has_blank_line(final(self)@) {
                    request_of(final(self)@) is None
                } else {
                    final(self)@.len() >= MAX_HEADER_BYTES
                },
                ReadProgress::Complete(request) => chunk@.len() > 0 && has_blank_line(final(self)@)
                    && request_of(final(self)@) == Some(request@),
                ReadProgress::Incomplete => chunk@.len() > 0 && !has_blank_line(final(self)@)
                    && final(self)@.len() < MAX_HEADER_BYTES,
            },
    {
        if chunk.len() == 0 {
            assert(self.buffer@ =~= old(self)@ + chunk@);
            return ReadProgress::Rejected;
        }
        self.buffer.extend_from_slice(chunk);
        assert(self.buffer@ =~= old(self)@ + chunk@);
        if contains_blank_line(self.buffer.as_slice()) {
            match parse_request(self.buffer.as_slice()) {
                Ok(request) => ReadProgress::Complete(request),
                Err(_) => ReadProgress::Rejected,
            }
        } else if self.buffer.len() >= MAX_HEADER_BYTES {
            ReadProgress::Rejected
        } else {
            ReadProgress::Incomplete
        }
    }
}

/// The token of an authorization header: the scheme `Bearer` in any case, one space, and a token
/// that is neither empty nor holds white space.
pub open spec fn bearer_of(value: Seq<char>) -> Option<Seq<char>> {
    match find_text(value, seq![' ']) {
        None => None,
        Some(space) => {
            let scheme = value.take(space);
            let token = value.skip(space + 1);
            if lower_text(scheme) == "bearer"@ && token.len() > 0 && !has_white_space(token) {
                Some(token)
            } else {
                None
            }
        },
    }
}

/// The token of an optional authorization header.
pub open spec fn optional_bearer(value: Option<Seq<char>>) -> Option<Seq<char>> {
    match value {
        Some(value) => bearer_of(value),
        None => None,
    }
}

/// Returns the token of an authorization header.
pub fn bearer_token(value: Option<&String>) -> (r: Option<String>)
    ensures
        optional_text(r) == match value {
            Some(value) => bearer_of(value@),
            None => None,
        },
{
    let text = match value {
        Some(value) => chars_of(value.as_str()),
        None => {
            return None;
        },
    };
    let separator: [char; 1] = [' '];
    let pattern = separator.as_slice();
    assert(pattern@ =~= seq![' ']);
    let space: usize = match find(text.as_slice(), pattern) {
        Some(space) => space,
        None => {
            return None;
        },
    };
    let length: usize = text.len();
    let scheme = slice_subrange(text.as_slice(), 0, space);
    let token = slice_subrange(text.as_slice(), space + 1, length);
    assert(scheme@ =~= text@.take(space as int));
    assert(token@ =~= text@.skip(space + 1));
    let small = to_lower(scheme);
    let bearer = chars_of("bearer");
    if !same_chars(small.as_slice(), bearer.as_slice()) || token.len() == 0 || contains_white_space(
        token,
    ) {
        return None;
    }
    Some(string_of(token))
}

/// A response head, and the body where it is short enough to stand in memory.
#[derive(Debug, PartialEq, Eq)]
pub struct Response {
    /// The status code.
    pub status: u16,
    /// The header fields, in the order in which they are written.
    pub headers: Vec<Header>,
    /// The body, if it is written along with the head.
    pub body: Option<String>,
}

/// What a response says.
pub struct ResponseView {
    /// The status code.
    pub status: int,
    /// The header fields.
    pub headers: Seq<HeaderView>,
    /// The body.
    pub body: Option<Seq<char>>,
}

impl View for Response {
    type V = ResponseView;

    open spec fn view(&self) -> ResponseView {
        ResponseView {
            status: self.status as int,
            headers: headers_view(self.headers@),
            body: optional_text(self.body),
        }
    }
}

/// The entity headers of an Asset response.
pub open spec fn base_fields(media_type: Seq<char>, length: int, hash: Seq<char>) -> Seq<
    HeaderView,
> {
    seq![
        ("Content-Type"@, media_type),
        ("Content-Length"@, decimal(length)),
        ("Accept-Ranges"@, "bytes"@),
        ("ETag"@, "\"sha256-"@ + hash + "\""@),
        ("Connection"@, "close"@),
    ]
}

/// The cross-origin headers: none where the request names no origin.
pub open spec fn cors_fields(origin: Option<Seq<char>>) -> Seq<HeaderView> {
    match origin {
        None => Seq::empty(),
        Some(origin) => seq![
            ("Access-Control-Allow-Origin"@, origin),
            ("Access-Control-Allow-Methods"@, "GET, HEAD, OPTIONS"@),
            ("Access-Control-Allow-Headers"@, "Authorization, Range"@),
            (
                "Access-Control-Expose-Headers"@,
                "Content-Length, Content-Range, ETag, Accept-Ranges"@,
            ),
            ("Vary"@, "Origin"@),
        ],
    }
}

fn header(name: &str, value: String) -> (r: Header)
    ensures
        r@ == (name@, value@),
{
    Header { name: name.to_owned(), value }
}

/// Returns the entity headers of an Asset response.
pub fn base_headers(media_type: &str, length: u64, hash: &str) -> (r: Vec<Header>)
    ensures
        headers_view(r@) == base_fields(media_type@, length as int, hash@),
{
    let mut r: Vec<Header> = Vec::new();
    r.push(header("Content-Type", media_type.to_owned()));
    r.push(header("Content-Length", decimal_text(length)));
    r.push(header("Accept-Ranges", "bytes".to_owned()));
    r.push(header("ETag", "\"sha256-".to_owned().concat(hash).concat("\"")));
    r.push(header("Connection", "close".to_owned()));
    assert(headers_view(r@) =~= base_fields(media_type@, length as int, hash@));
    r
}

/// Returns the cross-origin headers: none where the request names no origin.
pub fn cors_headers(origin: Option<&str>) -> (r: Vec<Header>)
    ensures
        headers_view(r@) == cors_fields(
            match origin {
                Some(origin) => Some(origin@),
                None => None,
            },
        ),
{
    let mut r: Vec<Header> = Vec::new();
    match origin {
        None => {
            assert(headers_view(r@) =~= Seq::empty());
        },
        Some(origin) => {
            r.push(header("Access-Control-Allow-Origin", origin.to_owned()));
            r.push(header("Access-Control-Allow-Methods", "GET, HEAD, OPTIONS".to_owned()));
            r.push(header("Access-Control-Allow-Headers", "Authorization, Range".to_owned()));
            r.push(
                header(
                    "Access-Control-Expose-Headers",
                    "Content-Length, Content-Range, ETag, Accept-Ranges".to_owned(),
                ),
            );
            r.push(header("Vary", "Origin".to_owned()));
            assert(headers_view(r@) =~= cors_fields(Some(origin@)));
        },
    }
    r
}

/// A short plain-text response.
pub open spec fn simple_response(
    status: int,
    message: Seq<char>,
    extra: Seq<HeaderView>,
) -> ResponseView {
    let body = message + "\n"@;
    ResponseView {
        status,
        headers: seq![
            ("Content-Type"@, "text/plain; charset=utf-8"@),
            ("Content-Length"@, decimal(encode_utf8(body).len() as int)),
            ("Connection"@, "close"@),
        ] + extra,
        body: Some(body),
    }
}

/// Returns a short plain-text response.
pub fn plain_response(status: u16, message: &str, extra: Vec<Header>) -> (r: Response)
    ensures
        r@ == simple_response(status as int, message@, headers_view(extra@)),
{
    let body = message.to_owned().concat("\n");
    let length: usize = body.as_str().as_bytes().len();
    let mut headers: Vec<Header> = Vec::new();
    headers.push(header("Content-Type", "text/plain; charset=utf-8".to_owned()));
    headers.push(header("Content-Length", decimal_text(length as u64)));
    headers.push(header("Connection", "close".to_owned()));
    let mut more = extra;
    headers.append(&mut more);
    assert(headers_view(headers@) =~= simple_response(
        status as int,
        message@,
        headers_view(extra@),
    ).headers);
    Response { status, headers, body: Some(body) }
}

/// The reason phrase of a status code.
pub open spec fn reason_phrase(status: int) -> Seq<char> {
    if status == 200 {
        "OK"@
    } else if status == 204 {
        "No Content"@
    } else if status == 206 {
        "Partial Content"@
    } else if status == 400 {
        "Bad Request"@
    } else if status == 401 {
        "Unauthorized"@
    } else if status == 403 {
        "Forbidden"@
    } else if status == 404 {
        "Not Found"@
    } else if status == 405 {
        "Method Not Allowed"@
    } else if status == 416 {
        "Range Not Satisfiable"@
    } else if status == 503 {
        "Service Unavailable"@
    } else {
        "Internal Server Error"@
    }
}

/// Returns the reason phrase of a status code.
pub fn reason(status: u16) -> (r: &'static str)
    ensures
        r@ == reason_phrase(status as int),
{
    match status {
        200 => "OK",
        204 => "No Content",
        206 => "Partial Content",
        400 => "Bad Request",
        401 => "Unauthorized",
        403 => "Forbidden",
        404 => "Not Found",
        405 => "Method Not Allowed",
        416 => "Range Not Satisfiable",
        503 => "Service Unavailable",
        _ => "Internal Server Error",
    }
}

/// One header field as it is written.
pub open spec fn field_text(field: HeaderView) -> Seq<char> {
    field.0 + ": "@ + field.1 + "\r\n"@
}

/// Header fields as they are written.
pub open spec fn field_block(fields: Seq<HeaderView>) -> Seq<char>
    decreases fields.len(),
{
    if fields.len() == 0 {
        Seq::empty()
    } else {
        field_block(fields.drop_last()) + field_text(fields.last())
    }
}

/// The status line, without its line end.
pub open spec fn status_line(status: int) -> Seq<char> {
    "HTTP/1.1 "@ + decimal(status) + " "@ + reason_phrase(status)
}

/// A response head as it is written.
pub open spec fn head_text(status: int, fields: Seq<HeaderView>) -> Seq<char> {
    status_line(status) + "\r\n"@ + field_block(fields) + "\r\n"@
}

/// Whether a text breaks a line.
pub open spec fn breaks_line(s: Seq<char>) -> bool {
    s.contains('\r') || s.contains('\n')
}

/// Whether no value of the fields breaks a line.
pub open spec fn values_are_lines(fields: Seq<HeaderView>) -> bool {
    forall|i: int| 0 <= i < fields.len() ==> !breaks_line(#[trigger] fields[i].1)
}

/// Whether the text holds a carriage return or a line feed.
fn breaks_lines(value: &str) -> (r: bool)
    ensures
        r == breaks_line(value@),
{
    let text = chars_of(value);
    contains_char(text.as_slice(), '\r') || contains_char(text.as_slice(), '\n')
}

impl Response {
    /// Renders the response head. A header value that would break its line is never written.
    pub fn render_head(&self) -> (r: Result<String, HttpTaskError>)
        ensures
            match r {
                Ok(text) => values_are_lines(self@.headers) && text@ == head_text(
                    self@.status,
                    self@.headers,
                ),
                Err(error) => !values_are_lines(self@.headers) && error == HttpTaskError::Request,
            },
    {
        let mut text = "HTTP/1.1 ".to_owned();
        text.append(decimal_text(self.status as u64).as_str());
        text.append(" ");
        text.append(reason(self.status));
        assert(text@ == status_line(self@.status));
        text.append("\r\n");
        let ghost start = status_line(self@.status) + "\r\n"@;
        let mut i: usize = 0;
        assert(self@.headers.take(0) =~= Seq::empty());
        assert(text@ =~= start + field_block(self@.headers.take(0)));
        while i < self.headers.len()
            invariant
                i <= self.headers@.len(),
                text@ == start + field_block(self@.headers.take(i as int)),
                forall|j: int| 0 <= j < i ==> !breaks_line(#[trigger] self@.headers[j].1),
            decreases self.headers@.len() - i,
        {
            let field = &self.headers[i];
            assert(self@.headers[i as int] == field@);
            if breaks_lines(field.value.as_str()) {
                assert(breaks_line(self@.headers[i as int].1));
                return Err(HttpTaskError::Request);
            }
            text.append(field.name.as_str());
            text.append(": ");
            text.append(field.value.as_str());
            text.append("\r\n");
            assert(self@.headers.take(i + 1).drop_last() =~= self@.headers.take(i as int));
            assert(text@ =~= start + field_block(self@.headers.take(i + 1)));
            i = i + 1;
        }
        assert(self@.headers.take(i as int) =~= self@.headers);
        text.append("\r\n");
        Ok(text)
    }
}

/// What delivery needs to know of a published Asset.
#[derive(Debug, PartialEq, Eq)]
pub struct AssetMetadata {
    /// The media type.
    pub media_type: String,
    /// The number of bytes.
    pub byte_length: u64,
    /// The SHA-256 content hash as text.
    pub content_hash: String,
}

/// What delivery needs to know of a published Asset.
pub struct AssetMetadataView {
    /// The media type.
    pub media_type: Seq<char>,
    /// The number of bytes.
    pub byte_length: int,
    /// The SHA-256 content hash as text.
    pub content_hash: Seq<char>,
}

impl View for AssetMetadata {
    type V = AssetMetadataView;

    open spec fn view(&self) -> AssetMetadataView {
        AssetMetadataView {
            media_type: self.media_type@,
            byte_length: self.byte_length as int,
            content_hash: self.content_hash@,
        }
    }
}

/// What the Asset catalog answered.
#[derive(Debug, PartialEq, Eq)]
pub enum AssetLookup {
    /// The catalog failed.
    Failed,
    /// No such Asset is published.
    Missing,
    /// The Asset is published.
    Found(AssetMetadata),
}

/// What the Asset catalog answered.
pub enum AssetLookupView {
    /// The catalog failed.
    Failed,
    /// No such Asset is published.
    Missing,
    /// The Asset is published.
    Found(AssetMetadataView),
}

impl View for AssetLookup {
    type V = AssetLookupView;

    open spec fn view(&self) -> AssetLookupView {
        match *self {
            AssetLookup::Failed => AssetLookupView::Failed,
            AssetLookup::Missing => AssetLookupView::Missing,
            AssetLookup::Found(metadata) => AssetLookupView::Found(metadata@),
        }
    }
}

/// What is known so far of the outside world in one exchange.
#[derive(Debug)]
pub struct ExchangeFacts {
    /// Whether the identity in the target is well formed.
    pub identity: Option<bool>,
    /// Whether the token is a live Grant for the Asset.
    pub grant: Option<bool>,
    /// What the Asset catalog answered.
    pub asset: Option<AssetLookup>,
    /// Whether a download slot was free.
    pub download: Option<bool>,
}

/// What is known so far of the outside world in one exchange.
pub struct FactsView {
    /// Whether the identity in the target is well formed.
    pub identity: Option<bool>,
    /// Whether the token is a live Grant for the Asset.
    pub grant: Option<bool>,
    /// What the Asset catalog answered.
    pub asset: Option<AssetLookupView>,
    /// Whether a download slot was free.
    pub download: Option<bool>,
}

impl View for ExchangeFacts {
    type V = FactsView;

    open spec fn view(&self) -> FactsView {
        FactsView {
            identity: self.identity,
            grant: self.grant,
            asset: match self.asset {
                Some(lookup) => Some(lookup@),
                None => None,
            },
            download: self.download,
        }
    }
}

impl ExchangeFacts {
    /// Creates the facts of an exchange in which nothing was asked yet.
    pub fn new() -> (r: ExchangeFacts)
        ensures
            r@ == (FactsView { identity: None, grant: None, asset: None, download: None }),
    {
        ExchangeFacts { identity: None, grant: None, asset: None, download: None }
    }
}

/// What an exchange does next.
#[derive(Debug, PartialEq, Eq)]
pub enum Decision {
    /// Read the text as an Asset identity.
    Identify(String),
    /// Validate the token as a Grant for the Asset.
    ValidateGrant(String),
    /// Ask the Asset catalog for the Asset.
    LookUpAsset,
    /// Take a download slot.
    AcquireDownload,
    /// Write the response and close.
    Respond(Response),
    /// Write the head, then stream `length` bytes of the Asset from `start` on, and close.
    Stream {
        /// The response head.
        head: Response,
        /// The first byte.
        start: u64,
        /// The number of bytes.
        length: u64,
    },
}

/// What an exchange does next.
pub enum DecisionView {
    /// Read the text as an Asset identity.
    Identify(Seq<char>),
    /// Validate the token as a Grant for the Asset.
    ValidateGrant(Seq<char>),
    /// Ask the Asset catalog for the Asset.
    LookUpAsset,
    /// Take a download slot.
    AcquireDownload,
    /// Write the response and close.
    Respond(ResponseView),
    /// Write the head, then stream that many bytes of the Asset from the given one on.
    Stream(ResponseView, int, int),
}

impl View for Decision {
    type V = DecisionView;

    open spec fn view(&self) -> DecisionView {
        match *self {
            Decision::Identify(text) => DecisionView::Identify(text@),
            Decision::ValidateGrant(token) => DecisionView::ValidateGrant(token@),
            Decision::LookUpAsset => DecisionView::LookUpAsset,
            Decision::AcquireDownload => DecisionView::AcquireDownload,
            Decision::Respond(response) => DecisionView::Respond(response@),
            Decision::Stream { head, start, length } => DecisionView::Stream(
                head@,
                start as int,
                length as int,
            ),
        }
    }
}

/// A refusal without extra headers.
pub open spec fn refusal(status: int, message: Seq<char>) -> DecisionView {
    DecisionView::Respond(simple_response(status, message, Seq::empty()))
}

/// What is done for an Asset that was found and a requester who may read it.
///
/// `HEAD` describes the whole Asset. `GET` serves the whole Asset or the one range asked for.
pub open spec fn serve(
    request: RequestView,
    origin: Option<Seq<char>>,
    asset: AssetMetadataView,
    download: Option<bool>,
) -> DecisionView {
    let total = asset.byte_length;
    if breaks_line(asset.media_type) {
        refusal(500, "internal server error"@)
    } else if request.method == "HEAD"@ {
        DecisionView::Respond(
            ResponseView {
                status: 200,
                headers: base_fields(asset.media_type, total, asset.content_hash) + cors_fields(
                    origin,
                ),
                body: None,
            },
        )
    } else {
        match header_value(request.headers, "range"@) {
            None => serve_bytes(origin, asset, 200, 0, total, Seq::empty(), download),
            Some(value) => match requested_range(value, total) {
                Err(RangeParseError::Malformed) => refusal(400, "bad range"@),
                Err(_) => DecisionView::Respond(
                    simple_response(
                        416,
                        "range not satisfiable"@,
                        seq![("Content-Range"@, "bytes */"@ + decimal(total))],
                    ),
                ),
                Ok((first, last)) => serve_bytes(
                    origin,
                    asset,
                    206,
                    first,
                    last - first + 1,
                    seq![("Content-Range"@, content_range(first, last, total))],
                    download,
                ),
            },
        }
    }
}

/// The Content-Range of the bytes from `first` to `last` out of `total`.
pub open spec fn content_range(first: int, last: int, total: int) -> Seq<char> {
    "bytes "@ + decimal(first) + "-"@ + decimal(last) + "/"@ + decimal(total)
}

/// What is done to serve `length` bytes from `start` on. No download slot is taken for no bytes.
pub open spec fn serve_bytes(
    origin: Option<Seq<char>>,
    asset: AssetMetadataView,
    status: int,
    start: int,
    length: int,
    range_fields: Seq<HeaderView>,
    download: Option<bool>,
) -> DecisionView {
    let head = ResponseView {
        status,
        headers: base_fields(asset.media_type, length, asset.content_hash) + range_fields
            + cors_fields(origin),
        body: None,
    };
    if length == 0 {
        DecisionView::Respond(head)
    } else {
        match download {
            None => DecisionView::AcquireDownload,
            Some(false) => refusal(503, "server busy"@),
            Some(true) => DecisionView::Stream(head, start, length),
        }
    }
}

/// What an exchange does next, from the request and what is known of the outside world.
pub open spec fn decision(
    origins: Seq<Seq<char>>,
    request: RequestView,
    facts: FactsView,
) -> DecisionView {
    let origin = header_value(request.headers, "origin"@);
    let asset_text = request.target.skip("/assets/"@.len() as int);
    if origin is Some && !origins.contains(origin->0) {
        refusal(403, "forbidden"@)
    } else if request.method == "OPTIONS"@ {
        DecisionView::Respond(
            ResponseView {
                status: 204,
                headers: cors_fields(origin) + seq![("Content-Length"@, "0"@)],
                body: None,
            },
        )
    } else if request.method != "GET"@ && request.method != "HEAD"@ {
        refusal(405, "method not allowed"@)
    } else if request.target.contains('?') || request.target.contains('#') {
        refusal(400, "bad request"@)
    } else if !starts_with(request.target, "/assets/"@) {
        refusal(404, "not found"@)
    } else if asset_text.len() == 0 || asset_text.contains('/') {
        refusal(400, "bad request"@)
    } else {
        match facts.identity {
            None => DecisionView::Identify(asset_text),
            Some(false) => refusal(400, "bad request"@),
            Some(true) => match optional_bearer(header_value(request.headers, "authorization"@)) {
                None => refusal(401, "unauthorized"@),
                Some(token) => match facts.grant {
                    None => DecisionView::ValidateGrant(token),
                    Some(false) => refusal(401, "unauthorized"@),
                    Some(true) => match facts.asset {
                        None => DecisionView::LookUpAsset,
                        Some(AssetLookupView::Failed) => refusal(503, "service unavailable"@),
                        Some(AssetLookupView::Missing) => refusal(404, "not found"@),
                        Some(AssetLookupView::Found(asset)) => serve(
                            request,
                            origin,
                            asset,
                            facts.download,
                        ),
                    },
                },
            },
        }
    }
}

fn refuse(status: u16, message: &str) -> (r: Decision)
    ensures
        r@ == refusal(status as int, message@),
{
    let extra: Vec<Header> = Vec::new();
    assert(headers_view(extra@) =~= Seq::<HeaderView>::empty());
    Decision::Respond(plain_response(status, message, extra))
}

/// Returns the answer to a request that could not be read in time or is malformed.
pub fn unreadable_request() -> (r: Response)
    ensures
        r@ == simple_response(400, "bad request"@, Seq::empty()),
{
    let extra: Vec<Header> = Vec::new();
    assert(headers_view(extra@) =~= Seq::<HeaderView>::empty());
    plain_response(400, "bad request", extra)
}

/// Returns the answer to a connection beyond the connection limit.
pub fn connection_refused() -> (r: Response)
    ensures
        r@ == simple_response(503, "server busy"@, Seq::empty()),
{
    let extra: Vec<Header> = Vec::new();
    assert(headers_view(extra@) =~= Seq::<HeaderView>::empty());
    plain_response(503, "server busy", extra)
}

/// Appends the cross-origin headers.
fn with_cors(headers: Vec<Header>, origin: &Option<String>) -> (r: Vec<Header>)
    ensures
        headers_view(r@) == headers_view(headers@) + cors_fields(optional_text(*origin)),
{
    let mut all = headers;
    let mut cors = match origin {
        Some(origin) => cors_headers(Some(origin.as_str())),
        None => cors_headers(None),
    };
    let ghost fields = cors@;
    all.append(&mut cors);
    assert(headers_view(all@) =~= headers_view(headers@) + headers_view(fields));
    all
}

fn decide_bytes(
    origin: &Option<String>,
    asset: &AssetMetadata,
    status: u16,
    start: u64,
    length: u64,
    range_fields: Vec<Header>,
    download: Option<bool>,
) -> (r: Decision)
    ensures
        r@ == serve_bytes(
            optional_text(*origin),
            asset@,
            status as int,
            start as int,
            length as int,
            headers_view(range_fields@),
            download,
        ),
{
    let mut headers = base_headers(
        asset.media_type.as_str(),
        length,
        asset.content_hash.as_str(),
    );
    let ghost base = headers@;
    let mut more = range_fields;
    headers.append(&mut more);
    assert(headers_view(headers@) =~= headers_view(base) + headers_view(range_fields@));
    let head = Response { status, headers: with_cors(headers, origin), body: None };
    if length == 0 {
        return Decision::Respond(head);
    }
    match download {
        None => Decision::AcquireDownload,
        Some(free) => if free {
            Decision::Stream { head, start, length }
        } else {
            refuse(503, "server busy")
        },
    }
}

fn decide_served(
    request: &HttpRequest,
    origin: &Option<String>,
    asset: &AssetMetadata,
    download: Option<bool>,
) -> (r: Decision)
    ensures
        r@ == serve(request@, optional_text(*origin), asset@, download),
{
    if breaks_lines(asset.media_type.as_str()) {
        return refuse(500, "internal server error");
    }
    if same_text(request.method.as_str(), "HEAD") {
        let headers = base_headers(
            asset.media_type.as_str(),
            asset.byte_length,
            asset.content_hash.as_str(),
        );
        return Decision::Respond(
            Response { status: 200, headers: with_cors(headers, origin), body: None },
        );
    }
    let none: Vec<Header> = Vec::new();
    assert(headers_view(none@) =~= Seq::<HeaderView>::empty());
    match request.header("range") {
        None => decide_bytes(origin, asset, 200, 0, asset.byte_length, none, download),
        Some(value) => match parse_range(value.as_str(), asset.byte_length) {
            Ok(Some(range)) => {
                let start: u64 = range.start();
                let end: u64 = range.end();
                let text = "bytes ".to_owned().concat(decimal_text(start).as_str()).concat("-").concat(
                    decimal_text(end).as_str(),
                ).concat("/").concat(decimal_text(asset.byte_length).as_str());
                let mut fields: Vec<Header> = Vec::new();
                fields.push(header("Content-Range", text));
                assert(headers_view(fields@) =~= seq![
                    (
                        "Content-Range"@,
                        content_range(start as int, end as int, asset.byte_length as int),
                    ),
                ]);
                decide_bytes(origin, asset, 206, start, range.length(), fields, download)
            },
            Ok(None) => decide_bytes(origin, asset, 200, 0, asset.byte_length, none, download),
            Err(error) => match error {
                RangeParseError::Malformed => refuse(400, "bad range"),
                _ => {
                    let text = "bytes */".to_owned().concat(
                        decimal_text(asset.byte_length).as_str(),
                    );
                    let mut fields: Vec<Header> = Vec::new();
                    fields.push(header("Content-Range", text));
                    assert(headers_view(fields@) =~= seq![
                        ("Content-Range"@, "bytes */"@ + decimal(asset.byte_length as int)),
                    ]);
                    Decision::Respond(plain_response(416, "range not satisfiable", fields))
                },
            },
        },
    }
}

/// Decides what an exchange does next, from the request and what is known of the outside world.
pub fn handle_connection(allowed_origins: &[String], request: &HttpRequest, facts: &ExchangeFacts) -> (r:
    Decision)
    ensures
        r@ == decision(string_texts(allowed_origins@), request@, facts@),
{
    let origin = request.header("origin");
    match &origin {
        Some(origin) => if !contains_string(allowed_origins, origin.as_str()) {
            return refuse(403, "forbidden");
        },
        None => {},
    }
    if same_text(request.method.as_str(), "OPTIONS") {
        let mut headers = match &origin {
            Some(origin) => cors_headers(Some(origin.as_str())),
            None => cors_headers(None),
        };
        let ghost cors = headers@;
        headers.push(header("Content-Length", "0".to_owned()));
        assert(headers_view(headers@) =~= headers_view(cors) + seq![("Content-Length"@, "0"@)]);
        return Decision::Respond(Response { status: 204, headers, body: None });
    }
    if !same_text(request.method.as_str(), "GET") && !same_text(request.method.as_str(), "HEAD") {
        return refuse(405, "method not allowed");
    }
    let target = chars_of(request.target.as_str());
    if contains_char(target.as_slice(), '?') || contains_char(target.as_slice(), '#') {
        return refuse(400, "bad request");
    }
    let prefix = chars_of("/assets/");
    if !has_prefix(target.as_slice(), prefix.as_slice()) {
        return refuse(404, "not found");
    }
    let asset_text = slice_subrange(target.as_slice(), prefix.len(), target.len());
    assert(asset_text@ =~= target@.skip("/assets/"@.len() as int));
    if asset_text.len() == 0 || contains_char(asset_text, '/') {
        return refuse(400, "bad request");
    }
    match facts.identity {
        None => {
            return Decision::Identify(string_of(asset_text));
        },
        Some(known) => if !known {
            return refuse(400, "bad request");
        },
    }
    let authorization = request.header("authorization");
    let token = match bearer_token(authorization.as_ref()) {
        Some(token) => token,
        None => {
            return refuse(401, "unauthorized");
        },
    };
    match facts.grant {
        None => {
            return Decision::ValidateGrant(token);
        },
        Some(valid) => if !valid {
            return refuse(401, "unauthorized");
        },
    }
    match &facts.asset {
        None => Decision::LookUpAsset,
        Some(AssetLookup::Failed) => refuse(503, "service unavailable"),
        Some(AssetLookup::Missing) => refuse(404, "not found"),
        Some(AssetLookup::Found(asset)) => decide_served(request, &origin, asset, facts.download),
    }
}

/// The part of a response body that is still to be streamed.
#[derive(Debug)]
pub struct AssetStream {
    offset: u64,
    remaining: u64,
}

impl AssetStream {
    /// The next byte to stream.
    pub closed spec fn spec_offset(self) -> int {
        self.offset as int
    }

    /// The number of bytes still to stream.
    pub closed spec fn spec_remaining(self) -> int {
        self.remaining as int
    }

    /// Creates a stream of `length` bytes from `start` on.
    pub fn new(start: u64, length: u64) -> (r: AssetStream)
        ensures
            r.spec_offset() == start,
            r.spec_remaining() == length,
    {
        AssetStream { offset: start, remaining: length }
    }

    /// Returns the offset and the length of the next read, or none where all is streamed. No read
    /// is longer than a chunk.
    pub fn next_read(&self, chunk_size: usize) -> (r: Option<(u64, u64)>)
        ensures
            match r {
                Some((offset, length)) => self.spec_remaining() > 0 && offset == self.spec_offset()
                    && length == read_length(self.spec_remaining(), chunk_size as int),
                None => self.spec_remaining() == 0,
            },
    {
        if self.remaining == 0 {
            return None;
        }
        let size: u64 = chunk_size as u64;
        Some((self.offset, if self.remaining < size { self.remaining } else { size }))
    }

    /// Checks a chunk that the backend read: it begins where the stream stands, holds something,
    /// and holds no more than was asked for.
    pub fn check_chunk(&self, chunk_size: usize, chunk_offset: u64, chunk: &[u8]) -> (r: Result<
        (),
        HttpTaskError,
    >)
        ensures
            r == if acceptable_chunk(
                self.spec_offset(),
                self.spec_remaining(),
                chunk_size as int,
                (chunk_offset as int, chunk@),
            ) {
                Ok::<(), HttpTaskError>(())
            } else {
                Err(HttpTaskError::Backend)
            },
    {
        let size: u64 = chunk_size as u64;
        let requested: u64 = if self.remaining < size {
            self.remaining
        } else {
            size
        };
        if chunk_offset != self.offset || chunk.len() == 0 || chunk.len() as u64 > requested {
            return Err(HttpTaskError::Backend);
        }
        Ok(())
    }

    /// Moves on past `written` bytes. A position that no 64-bit number can tell is a backend
    /// failure, and moves nothing.
    pub fn advance(&mut self, written: u64) -> (r: Result<(), HttpTaskError>)
        requires
            written <= old(self).spec_remaining(),
        ensures
            old(self).spec_offset() + written <= u64::MAX ==> r == Ok::<(), HttpTaskError>(())
                && final(self).spec_offset() == old(self).spec_offset() + written
                && final(self).spec_remaining() == old(self).spec_remaining() - written,
            old(self).spec_offset() + written > u64::MAX ==> r == Err::<(), HttpTaskError>(
                HttpTaskError::Backend,
            ) && *final(self) == *old(self),
    {
        match self.offset.checked_add(written) {
            Some(offset) => {
                self.offset = offset;
                self.remaining = self.remaining - written;
                Ok(())
            },
            None => Err(HttpTaskError::Backend),
        }
    }
}

/// A chunk that a backend read: where it begins, and its bytes.
pub type ChunkView = (int, Seq<u8>);

/// The length of the next read.
pub open spec fn read_length(remaining: int, chunk_size: int) -> int {
    if remaining < chunk_size {
        remaining
    } else {
        chunk_size
    }
}

/// Whether a chunk may be streamed where `remaining` bytes are due from `offset` on.
pub open spec fn acceptable_chunk(
    offset: int,
    remaining: int,
    chunk_size: int,
    chunk: ChunkView,
) -> bool {
    chunk.0 == offset && 0 < chunk.1.len() <= read_length(remaining, chunk_size)
}

/// Whether each of the chunks may be streamed in turn.
pub open spec fn acceptable_chunks(
    offset: int,
    remaining: int,
    chunk_size: int,
    chunks: Seq<ChunkView>,
) -> bool
    decreases chunks.len(),
{
    chunks.len() == 0 || {
        let n = chunks[0].1.len();
        &&& acceptable_chunk(offset, remaining, chunk_size, chunks[0])
        &&& acceptable_chunks(offset + n, remaining - n, chunk_size, chunks.skip(1))
    }
}

/// The number of bytes still to stream after the stream has moved on past each of the chunks.
pub open spec fn remaining_after(remaining: int, chunks: Seq<ChunkView>) -> int
    decreases chunks.len(),
{
    if chunks.len() == 0 {
        remaining
    } else {
        remaining_after(remaining - chunks[0].1.len(), chunks.skip(1))
    }
}

/// The bytes of the chunks, one after the other.
pub open spec fn streamed(chunks: Seq<ChunkView>) -> Seq<u8>
    decreases chunks.len(),
{
    if chunks.len() == 0 {
        Seq::empty()
    } else {
        chunks[0].1 + streamed(chunks.skip(1))
    }
}

/// Whether the chunk holds the bytes of `content` at its place.
pub open spec fn faithful_chunk(content: Seq<u8>, chunk: ChunkView) -> bool {
    0 <= chunk.0 && chunk.0 + chunk.1.len() <= content.len() && chunk.1 == content.subrange(
        chunk.0,
        chunk.0 + chunk.1.len(),
    )
}

/// However a backend cuts the Asset into chunks, the bytes streamed are those of the Asset from the
/// first byte asked for on, in order and without gaps, and never more than were asked for. Once no
/// further read is due, they are exactly the bytes that were asked for.
pub proof fn law_stream_is_the_requested_slice(
    content: Seq<u8>,
    start: int,
    length: int,
    chunk_size: int,
    chunks: Seq<ChunkView>,
)
    requires
        0 <= start,
        0 <= length,
        start + length <= content.len(),
        acceptable_chunks(start, length, chunk_size, chunks),
        forall|i: int| 0 <= i < chunks.len() ==> faithful_chunk(content, #[trigger] chunks[i]),
    ensures
        streamed(chunks).len() <= length,
        streamed(chunks) == content.subrange(start, start + streamed(chunks).len()),
        remaining_after(length, chunks) == length - streamed(chunks).len(),
        remaining_after(length, chunks) == 0 <==> streamed(chunks) == content.subrange(
            start,
            start + length,
        ),
    decreases chunks.len(),
{
    if chunks.len() > 0 {
        let n = chunks[0].1.len();
        let rest = chunks.skip(1);
        assert forall|i: int| 0 <= i < rest.len() implies faithful_chunk(
            content,
            #[trigger] rest[i],
        ) by {
            assert(rest[i] == chunks[i + 1]);
        }
        law_stream_is_the_requested_slice(content, start + n, length - n, chunk_size, rest);
        assert(faithful_chunk(content, chunks[0]));
        assert(streamed(chunks) =~= content.subrange(start, start + streamed(chunks).len()));
    } else {
        assert(streamed(chunks) =~= content.subrange(start, start));
    }
    if streamed(chunks) == content.subrange(start, start + length) {
        assert(content.subrange(start, start + length).len() == length);
    }
}

/// The Asset catalog is asked, a download slot is taken and bytes are streamed only for a
/// well-formed identity and a bearer token that was found to be a live Grant for it.
pub proof fn law_nothing_is_disclosed_without_grant(
    origins: Seq<Seq<char>>,
    request: RequestView,
    facts: FactsView,
)
    ensures
        (decision(origins, request, facts) is LookUpAsset || decision(
            origins,
            request,
            facts,
        ) is AcquireDownload || decision(origins, request, facts) is Stream) ==> facts.identity
            == Some(true) && facts.grant == Some(true) && optional_bearer(
            header_value(request.headers, "authorization"@),
        ) is Some,
{
}

/// A token that is not a live Grant is answered 401, whatever else is known, wherever the request
/// is otherwise in order; so is a request without a bearer token.
pub proof fn law_unauthorized_requests_are_answered_401(
    origins: Seq<Seq<char>>,
    request: RequestView,
    facts: FactsView,
)
    requires
        decision(
            origins,
            request,
            FactsView { identity: None, grant: None, asset: None, download: None },
        ) is Identify,
        facts.identity == Some(true),
        facts.grant == Some(false) || optional_bearer(
            header_value(request.headers, "authorization"@),
        ) is None,
    ensures
        decision(origins, request, facts) == refusal(401, "unauthorized"@),
{
}

/// A request from an origin that is not on the list is answered 403, whatever it asks for and
/// whatever is known, and no answer to it carries cross-origin headers.
pub proof fn law_unlisted_origins_are_forbidden(
    origins: Seq<Seq<char>>,
    request: RequestView,
    facts: FactsView,
)
    requires
        header_value(request.headers, "origin"@) is Some,
        !origins.contains(header_value(request.headers, "origin"@)->0),
    ensures
        decision(origins, request, facts) == refusal(403, "forbidden"@),
{
}

/// Bytes that are streamed lie inside the Asset, the head announces exactly their number, and
/// without a Range header they are the whole Asset.
pub proof fn law_streams_lie_inside_the_asset(
    origins: Seq<Seq<char>>,
    request: RequestView,
    facts: FactsView,
)
    requires
        facts.asset matches Some(AssetLookupView::Found(asset)) ==> 0 <= asset.byte_length
            <= u64::MAX,
    ensures
        decision(origins, request, facts) matches DecisionView::Stream(head, start, length) ==> {
            &&& facts.asset matches Some(AssetLookupView::Found(asset)) && {
                &&& 0 <= start
                &&& 0 < length
                &&& start + length <= asset.byte_length
                &&& head.headers[1] == ("Content-Length"@, decimal(length))
                &&& (header_value(request.headers, "range"@) is None ==> head.status == 200 && start
                    == 0 && length == asset.byte_length)
                &&& (header_value(request.headers, "range"@) is Some ==> head.status == 206)
            }
            &&& request.method == "GET"@
        },
{
    if let Some(AssetLookupView::Found(asset)) = facts.asset {
        if let Some(value) = header_value(request.headers, "range"@) {
            crate::range::law_range_lies_inside(value, asset.byte_length);
        }
    }
}

/// A `HEAD` request is answered from the metadata alone: it takes no download slot, streams
/// nothing, and does not look at its Range header.
pub proof fn law_head_describes_the_whole_asset(
    origins: Seq<Seq<char>>,
    request: RequestView,
    facts: FactsView,
)
    requires
        request.method == "HEAD"@,
    ensures
        !(decision(origins, request, facts) is AcquireDownload),
        !(decision(origins, request, facts) is Stream),
        (decision(
            origins,
            request,
            FactsView { identity: None, grant: None, asset: None, download: None },
        ) is Identify && optional_bearer(header_value(request.headers, "authorization"@)) is Some
            && facts.identity == Some(true) && facts.grant == Some(true)) ==> (facts.asset matches Some(
            AssetLookupView::Found(asset),
        ) ==> !breaks_line(asset.media_type) ==> decision(origins, request, facts)
            == DecisionView::Respond(
            ResponseView {
                status: 200,
                headers: base_fields(asset.media_type, asset.byte_length, asset.content_hash)
                    + cors_fields(header_value(request.headers, "origin"@)),
                body: None,
            },
        )),
{
    reveal_strlit("HEAD");
    reveal_strlit("OPTIONS");
    reveal_strlit("GET");
    assert("HEAD"@.len() != "GET"@.len());
    assert("HEAD"@.len() != "OPTIONS"@.len());
}

/// Each fact is asked for at most once: once all are known, the exchange ends.
pub proof fn law_exchange_ends(origins: Seq<Seq<char>>, request: RequestView, facts: FactsView)
    ensures
        decision(origins, request, facts) is Identify ==> facts.identity is None,
        decision(origins, request, facts) is ValidateGrant ==> facts.grant is None,
        decision(origins, request, facts) is LookUpAsset ==> facts.asset is None,
        decision(origins, request, facts) is AcquireDownload ==> facts.download is None,
{
}

/// Splitting a text that begins with a line gives that line and the split of what follows.
proof fn lemma_split_after_line(line: Seq<char>, rest: Seq<char>)
    requires
        !breaks_line(line),
    ensures
        split_text(line + "\r\n"@ + rest, "\r\n"@) == seq![line] + split_text(rest, "\r\n"@),
{
    reveal_strlit("\r\n");
    let end = "\r\n"@;
    let s = line + end + rest;
    lemma_find_from(s, end, 0);
    assert(s.subrange(line.len() as int, line.len() as int + end.len()) =~= end);
    assert(occurs_at(s, end, line.len() as int));
    let k = find_text(s, end)->0;
    assert(k == line.len()) by {
        if k < line.len() {
            assert(s.subrange(k, k + end.len())[0] == s[k]);
            assert(line[k] == '\r');
            assert(line.contains('\r'));
        }
    }
    assert(s.take(k) =~= line);
    assert(s.skip(k + end.len()) =~= rest);
}

/// The lines of a block of header fields, and of what follows it.
proof fn lemma_split_fields(fields: Seq<HeaderView>, rest: Seq<char>)
    requires
        values_are_lines(fields),
        forall|i: int| 0 <= i < fields.len() ==> !breaks_line(#[trigger] fields[i].0),
    ensures
        split_text(field_block(fields) + rest, "\r\n"@) == Seq::new(
            fields.len(),
            |i: int| fields[i].0 + ": "@ + fields[i].1,
        ) + split_text(rest, "\r\n"@),
    decreases fields.len(),
{
    reveal_strlit("\r\n");
    reveal_strlit(": ");
    if fields.len() == 0 {
        assert(field_block(fields) + rest =~= rest);
        assert(Seq::new(fields.len(), |i: int| fields[i].0 + ": "@ + fields[i].1) + split_text(
            rest,
            "\r\n"@,
        ) =~= split_text(rest, "\r\n"@));
    } else {
        let last = fields.last();
        let line = last.0 + ": "@ + last.1;
        let init = fields.drop_last();
        assert(!breaks_line(fields[fields.len() - 1].0));
        assert(!breaks_line(fields[fields.len() - 1].1));
        assert forall|i: int| 0 <= i < line.len() implies line[i] != '\r' && line[i] != '\n' by {
            let a = last.0.len();
            if i < a {
                assert(line[i] == last.0[i]);
            } else if i < a + 2 {
                assert(line[i] == ": "@[i - a]);
            } else {
                assert(line[i] == last.1[i - a - 2]);
            }
        }
        assert forall|i: int| 0 <= i < init.len() implies !breaks_line(#[trigger] init[i].0)
            && !breaks_line(init[i].1) by {
            assert(init[i] == fields[i]);
            assert(!breaks_line(fields[i].0));
            assert(!breaks_line(fields[i].1));
        }
        lemma_split_after_line(line, rest);
        lemma_split_fields(init, field_text(last) + rest);
        assert(field_block(fields) + rest =~= field_block(init) + (field_text(last) + rest));
        assert(field_text(last) + rest =~= line + "\r\n"@ + rest);
        assert(Seq::new(init.len(), |i: int| init[i].0 + ": "@ + init[i].1) + (seq![line]
            + split_text(rest, "\r\n"@)) =~= Seq::new(
            fields.len(),
            |i: int| fields[i].0 + ": "@ + fields[i].1,
        ) + split_text(rest, "\r\n"@));
    }
}

/// A response head that is written is exactly its status line, one line for each header field and
/// a blank line: no header value can add a line of its own.
pub proof fn law_written_heads_hold_no_other_lines(status: int, fields: Seq<HeaderView>)
    requires
        0 <= status,
        values_are_lines(fields),
        forall|i: int| 0 <= i < fields.len() ==> !breaks_line(#[trigger] fields[i].0),
    ensures
        split_text(head_text(status, fields), "\r\n"@) == seq![status_line(status)] + Seq::new(
            fields.len(),
            |i: int| fields[i].0 + ": "@ + fields[i].1,
        ) + seq![Seq::empty(), Seq::empty()],
{
    let end = "\r\n"@;
    reveal_strlit("\r\n");
    let line = status_line(status);
    assert(!breaks_line(line)) by {
        lemma_status_line(status);
    }
    let block = field_block(fields) + end;
    assert(head_text(status, fields) =~= line + end + block);
    lemma_split_after_line(line, block);
    lemma_split_fields(fields, end);
    assert(end =~= Seq::<char>::empty() + end + Seq::<char>::empty());
    lemma_split_after_line(Seq::empty(), Seq::empty());
    lemma_find_from(Seq::<char>::empty(), end, 0);
    assert(split_text(Seq::<char>::empty(), end) =~= seq![Seq::<char>::empty()]);
    assert(split_text(end, end) =~= seq![Seq::<char>::empty(), Seq::<char>::empty()]);
    assert(seq![line] + (Seq::new(fields.len(), |i: int| fields[i].0 + ": "@ + fields[i].1)
        + split_text(end, end)) =~= seq![line] + Seq::new(
        fields.len(),
        |i: int| fields[i].0 + ": "@ + fields[i].1,
    ) + seq![Seq::<char>::empty(), Seq::<char>::empty()]);
}

/// A status line is one line.
proof fn lemma_status_line(status: int)
    requires
        0 <= status,
    ensures
        !breaks_line(status_line(status)),
{
    reveal_strlit("HTTP/1.1 ");
    reveal_strlit(" ");
    reveal_strlit("OK");
    reveal_strlit("No Content");
    reveal_strlit("Partial Content");
    reveal_strlit("Bad Request");
    reveal_strlit("Unauthorized");
    reveal_strlit("Forbidden");
    reveal_strlit("Not Found");
    reveal_strlit("Method Not Allowed");
    reveal_strlit("Range Not Satisfiable");
    reveal_strlit("Service Unavailable");
    reveal_strlit("Internal Server Error");
    crate::text::lemma_decimal_reads_back(status);
    let a = "HTTP/1.1 "@;
    let d = decimal(status);
    let p = reason_phrase(status);
    let line = status_line(status);
    assert forall|i: int| 0 <= i < line.len() implies line[i] != '\r' && line[i] != '\n' by {
        if i < a.len() {
            assert(line[i] == a[i]);
        } else if i < a.len() + d.len() {
            assert(line[i] == d[i - a.len()]);
            assert(crate::text::is_digit(d[i - a.len()]));
        } else if i == a.len() + d.len() {
            assert(line[i] == " "@[0]);
        } else {
            assert(line[i] == p[i - a.len() - d.len() - 1]);
        }
    }
}

/// Where a header field is repeated, the value of the last one counts; a field that is not there
/// has no value.
pub proof fn law_last_header_counts(
    headers: Seq<HeaderView>,
    name: Seq<char>,
    value: Seq<char>,
    later: HeaderView,
)
    ensures
        header_value(Seq::empty(), name) is None,
        header_value(headers.push((name, value)), name) == Some(value),
        later.0 != name ==> header_value(headers.push(later), name) == header_value(headers, name),
        header_value(headers, name) is None <==> forall|i: int|
            0 <= i < headers.len() ==> (#[trigger] headers[i]).0 != name,
    decreases headers.len(),
{
    assert(headers.push((name, value)).drop_last() =~= headers);
    assert(headers.push(later).drop_last() =~= headers);
    if headers.len() > 0 {
        let init = headers.drop_last();
        law_last_header_counts(init, name, value, later);
        assert(headers[headers.len() - 1] == headers.last());
        if header_value(headers, name) is None {
            assert forall|i: int| 0 <= i < headers.len() implies (#[trigger] headers[i]).0
                != name by {
                if i < init.len() {
                    assert(init[i] == headers[i]);
                }
            }
        }
        if forall|i: int| 0 <= i < headers.len() ==> (#[trigger] headers[i]).0 != name {
            assert forall|i: int| 0 <= i < init.len() implies (#[trigger] init[i]).0 != name by {
                assert(init[i] == headers[i]);
            }
        }
    }
}

/// An authorization header is the word `bearer` in any case, one space and the token, which is
/// neither empty nor holds white space; every such header is accepted, and no other.
pub proof fn law_bearer_header(scheme: Seq<char>, token: Seq<char>, value: Seq<char>)
    ensures
        lower_text(scheme) == "bearer"@ && token.len() > 0 && (forall|
            i: int,
        |
            0 <= i < token.len() ==> !is_white_space(#[trigger] token[i])) ==> bearer_of(
            scheme + seq![' '] + token,
        ) == Some(token),
        bearer_of(value) matches Some(found) ==> {
            &&& found.len() > 0
            &&& forall|i: int| 0 <= i < found.len() ==> !is_white_space(#[trigger] found[i])
            &&& value.len() == 7 + found.len()
            &&& lower_text(value.take(6)) == "bearer"@
            &&& value[6] == ' '
            &&& value.skip(7) == found
        },
{
    if lower_text(scheme) == "bearer"@ {
        lemma_bearer_accepted(scheme, token);
    }
    lemma_bearer_taken_apart(value);
}

proof fn lemma_bearer_accepted(scheme: Seq<char>, token: Seq<char>)
    requires
        lower_text(scheme) == "bearer"@,
    ensures
        token.len() > 0 && !has_white_space(token) ==> bearer_of(scheme + seq![' '] + token)
            == Some(token),
{
    let space = seq![' '];
    let whole = scheme + space + token;
    let n = scheme.len() as int;
    lemma_find_from(whole, space, 0);
    assert(whole.subrange(n, n + 1) =~= space);
    assert(occurs_at(whole, space, n));
    let k = find_text(whole, space)->0;
    assert(whole.subrange(k, k + 1)[0] == whole[k]);
    assert(k == n) by {
        if k < n {
            reveal_strlit("bearer");
            assert(scheme[k] == ' ');
            assert(lower_text(scheme)[k] == lower_char(' '));
            assert("bearer"@[k] == ' ');
            assert(n == "bearer"@.len());
            assert(k == 0 || k == 1 || k == 2 || k == 3 || k == 4 || k == 5);
        }
    }
    assert(whole.take(n) =~= scheme);
    assert(whole.skip(n + 1) =~= token);
}

proof fn lemma_bearer_taken_apart(value: Seq<char>)
    ensures
        bearer_of(value) matches Some(found) ==> {
            &&& found.len() > 0
            &&& !has_white_space(found)
            &&& value.len() == 7 + found.len()
            &&& lower_text(value.take(6)) == "bearer"@
            &&& value[6] == ' '
            &&& value.skip(7) == found
        },
{
    let space = seq![' '];
    lemma_find_from(value, space, 0);
    if bearer_of(value) is Some {
        let k = find_text(value, space)->0;
        assert(value.subrange(k, k + 1)[0] == value[k]);
        assert(lower_text(value.take(k)).len() == k);
        reveal_strlit("bearer");
        assert(k == 6);
    }
}

/// What a text target of an Asset is.
proof fn lemma_asset_target(id: Seq<char>)
    requires
        id.len() > 0,
        !id.contains('/'),
        !id.contains('?'),
        !id.contains('#'),
    ensures
        starts_with("/assets/"@ + id, "/assets/"@),
        ("/assets/"@ + id).skip("/assets/"@.len() as int) == id,
        !("/assets/"@ + id).contains('?'),
        !("/assets/"@ + id).contains('#'),
{
    reveal_strlit("/assets/");
    let target = "/assets/"@ + id;
    assert(target.subrange(0, "/assets/"@.len() as int) =~= "/assets/"@);
    assert(target.skip("/assets/"@.len() as int) =~= id);
    assert forall|i: int| 0 <= i < target.len() implies target[i] != '?' && target[i] != '#' by {
        if i >= "/assets/"@.len() {
            assert(target[i] == id[i - "/assets/"@.len()]);
            assert(id.contains(id[i - "/assets/"@.len()]));
        }
    }
}

/// How a request for the bytes of an Asset goes on: its identity is read from the target, its token
/// is held against the Grants, and only then is the Asset looked up. A failure of any of them is
/// answered at once.
pub proof fn law_asset_requests_go_step_by_step(
    origins: Seq<Seq<char>>,
    request: RequestView,
    facts: FactsView,
    id: Seq<char>,
    scheme: Seq<char>,
    token: Seq<char>,
)
    requires
        header_value(request.headers, "origin"@) matches Some(origin) ==> origins.contains(origin),
        request.method == "GET"@ || request.method == "HEAD"@,
        request.target == "/assets/"@ + id,
        id.len() > 0,
        !id.contains('/'),
        !id.contains('?'),
        !id.contains('#'),
    ensures
        facts.identity is None ==> decision(origins, request, facts) == DecisionView::Identify(id),
        facts.identity == Some(false) ==> decision(origins, request, facts) == refusal(
            400,
            "bad request"@,
        ),
        facts.identity == Some(true) && header_value(request.headers, "authorization"@) is None
            ==> decision(origins, request, facts) == refusal(401, "unauthorized"@),
        facts.identity == Some(true) && header_value(request.headers, "authorization"@) == Some(
            scheme + seq![' '] + token,
        ) && lower_text(scheme) == "bearer"@ && token.len() > 0 && (forall|
            i: int,
        |
            0 <= i < token.len() ==> !is_white_space(#[trigger] token[i])) ==> {
            &&& facts.grant is None ==> decision(origins, request, facts)
                == DecisionView::ValidateGrant(token)
            &&& facts.grant == Some(false) ==> decision(origins, request, facts) == refusal(
                401,
                "unauthorized"@,
            )
            &&& facts.grant == Some(true) && facts.asset is None ==> decision(
                origins,
                request,
                facts,
            ) is LookUpAsset
            &&& facts.grant == Some(true) && facts.asset == Some(AssetLookupView::Failed)
                ==> decision(origins, request, facts) == refusal(503, "service unavailable"@)
            &&& facts.grant == Some(true) && facts.asset == Some(AssetLookupView::Missing)
                ==> decision(origins, request, facts) == refusal(404, "not found"@)
        },
{
    lemma_methods_differ();
    lemma_asset_target(id);
    law_bearer_header(scheme, token, token);
}

/// The methods that are told apart.
proof fn lemma_methods_differ()
    ensures
        "GET"@ != "HEAD"@,
        "GET"@ != "OPTIONS"@,
        "HEAD"@ != "OPTIONS"@,
{
    reveal_strlit("HEAD");
    reveal_strlit("OPTIONS");
    reveal_strlit("GET");
    assert("HEAD"@.len() != "GET"@.len());
    assert("HEAD"@.len() != "OPTIONS"@.len());
    assert("GET"@.len() != "OPTIONS"@.len());
}

/// Which bytes a `GET` of an Asset gives. Without a Range header it is the whole Asset, with status
/// 200. With one for the bytes from `first` to `last`, it is exactly these, with status 206, and
/// the Content-Range names their places and the length of the Asset. Either way the Content-Length
/// is the number of bytes that follow, nothing is streamed before a download slot was taken, and a
/// Range that is malformed or lies outside the Asset streams nothing.
pub proof fn law_served_bytes_are_those_asked_for(
    origins: Seq<Seq<char>>,
    request: RequestView,
    facts: FactsView,
    asset: AssetMetadataView,
)
    requires
        request.method == "GET"@,
        decision(origins, request, FactsView { asset: None, download: None, ..facts }) is LookUpAsset,
        facts.asset == Some(AssetLookupView::Found(asset)),
        0 <= asset.byte_length <= u64::MAX,
        !asset.media_type.contains('\r'),
        !asset.media_type.contains('\n'),
    ensures
        ({
            let total = asset.byte_length;
            let cors: Seq<HeaderView> = match header_value(request.headers, "origin"@) {
                None => Seq::empty(),
                Some(origin) => seq![
                    ("Access-Control-Allow-Origin"@, origin),
                    ("Access-Control-Allow-Methods"@, "GET, HEAD, OPTIONS"@),
                    ("Access-Control-Allow-Headers"@, "Authorization, Range"@),
                    (
                        "Access-Control-Expose-Headers"@,
                        "Content-Length, Content-Range, ETag, Accept-Ranges"@,
                    ),
                    ("Vary"@, "Origin"@),
                ],
            };
            let entity = |length: int, range: Seq<HeaderView>|
                seq![
                    ("Content-Type"@, asset.media_type),
                    ("Content-Length"@, decimal(length)),
                    ("Accept-Ranges"@, "bytes"@),
                    ("ETag"@, "\"sha256-"@ + asset.content_hash + "\""@),
                    ("Connection"@, "close"@),
                ] + range + cors;
            let next = decision(origins, request, facts);
            match header_value(request.headers, "range"@) {
                None => if total == 0 {
                    next == DecisionView::Respond(
                        ResponseView {
                            status: 200,
                            headers: entity(0, Seq::empty()),
                            body: None,
                        },
                    )
                } else {
                    &&& facts.download is None ==> next is AcquireDownload
                    &&& facts.download == Some(false) ==> next == refusal(503, "server busy"@)
                    &&& facts.download == Some(true) ==> next == DecisionView::Stream(
                        ResponseView {
                            status: 200,
                            headers: entity(total, Seq::empty()),
                            body: None,
                        },
                        0,
                        total,
                    )
                },
                Some(value) => match requested_range(value, total) {
                    Err(RangeParseError::Malformed) => next == refusal(400, "bad range"@),
                    Err(_) => next == DecisionView::Respond(
                        simple_response(
                            416,
                            "range not satisfiable"@,
                            seq![("Content-Range"@, "bytes */"@ + decimal(total))],
                        ),
                    ),
                    Ok((first, last)) => {
                        &&& facts.download is None ==> next is AcquireDownload
                        &&& facts.download == Some(false) ==> next == refusal(503, "server busy"@)
                        &&& facts.download == Some(true) ==> {
                            &&& next is Stream
                            &&& next->Stream_1 == first
                            &&& next->Stream_1 + next->Stream_2 == last + 1
                            &&& next->Stream_0.status == 206
                            &&& next->Stream_0.body is None
                            &&& next->Stream_0.headers == entity(
                                next->Stream_2,
                                seq![
                                    (
                                        "Content-Range"@,
                                        "bytes "@ + decimal(next->Stream_1) + "-"@ + decimal(
                                            next->Stream_1 + next->Stream_2 - 1,
                                        ) + "/"@ + decimal(total),
                                    ),
                                ],
                            )
                        }
                    },
                },
            }
        }),
{
    lemma_methods_differ();
    let total = asset.byte_length;
    if let Some(value) = header_value(request.headers, "range"@) {
        crate::range::law_range_lies_inside(value, total);
    }
}

/// The bytes that a `GET` streams for the Range `bytes=first-last`: with an Asset of these
/// contents, they are its bytes from the first place up to the last, as far as it has them.
pub proof fn law_explicit_range_is_served(
    origins: Seq<Seq<char>>,
    request: RequestView,
    facts: FactsView,
    asset: AssetMetadataView,
    content: Seq<u8>,
    first: int,
    last: int,
)
    requires
        request.method == "GET"@,
        decision(origins, request, FactsView { asset: None, download: None, ..facts }) is LookUpAsset,
        facts.asset == Some(AssetLookupView::Found(asset)),
        facts.download == Some(true),
        content.len() == asset.byte_length <= u64::MAX,
        !asset.media_type.contains('\r'),
        !asset.media_type.contains('\n'),
        0 <= first <= last <= u64::MAX,
        first < content.len(),
        header_value(request.headers, "range"@) == Some(
            "bytes="@ + decimal(first) + seq!['-'] + decimal(last),
        ),
    ensures
        decision(origins, request, facts) matches DecisionView::Stream(head, start, length)
            && head.status == 206 && start == first && length == (if last < content.len() {
            last - first + 1
        } else {
            content.len() - first
        }) && content.subrange(start, start + length) == if last < content.len() {
            content.subrange(first, last + 1)
        } else {
            content.skip(first)
        },
{
    lemma_methods_differ();
    crate::range::law_explicit_ranges(first, last, content.len() as int);
    law_served_bytes_are_those_asked_for(origins, request, facts, asset);
    assert(content.subrange(first, content.len() as int) =~= content.skip(first));
}

/// `HEAD` is answered with the head that a `GET` of the whole Asset begins with, and no bytes.
pub proof fn law_head_is_a_get_without_bytes(
    origins: Seq<Seq<char>>,
    request: RequestView,
    other: RequestView,
    facts: FactsView,
    asset: AssetMetadataView,
)
    requires
        request.method == "HEAD"@,
        other == (RequestView { method: "GET"@, headers: other.headers, ..request }),
        header_value(other.headers, "range"@) is None,
        header_value(other.headers, "origin"@) == header_value(request.headers, "origin"@),
        header_value(other.headers, "authorization"@) == header_value(
            request.headers,
            "authorization"@,
        ),
        facts.asset == Some(AssetLookupView::Found(asset)),
        facts.download == Some(true),
        0 < asset.byte_length,
    ensures
        decision(origins, other, facts) matches DecisionView::Stream(head, _, _) ==> decision(
            origins,
            request,
            facts,
        ) == DecisionView::Respond(head),
        decision(origins, other, facts) is Stream || decision(origins, request, facts) == decision(
            origins,
            other,
            facts,
        ),
{
    lemma_methods_differ();
    if let DecisionView::Stream(head, start, length) = decision(origins, other, facts) {
        assert(base_fields(asset.media_type, asset.byte_length, asset.content_hash)
            + Seq::<HeaderView>::empty() =~= base_fields(
            asset.media_type,
            asset.byte_length,
            asset.content_hash,
        ));
    }
}

/// What is answered before any Asset is looked for. A foreign origin is forbidden; a preflight is
/// granted what the server does; any other method is refused; a target with a query or a fragment,
/// or that names no single Asset, is refused, and one outside the Assets is not found.
pub proof fn law_requests_for_no_asset(
    origins: Seq<Seq<char>>,
    request: RequestView,
    facts: FactsView,
)
    ensures
        ({
            let origin = header_value(request.headers, "origin"@);
            let admitted = origin is None || exists|i: int|
                0 <= i < origins.len() && #[trigger] origins[i] == origin->0;
            let next = decision(origins, request, facts);
            let rest = request.target.skip(8);
            let below = request.target.len() >= 8 && request.target.take(8) == "/assets/"@;
            &&& !admitted ==> next == refusal(403, "forbidden"@)
            &&& admitted && request.method == "OPTIONS"@ ==> next == DecisionView::Respond(
                ResponseView {
                    status: 204,
                    headers: match origin {
                        None => seq![("Content-Length"@, "0"@)],
                        Some(origin) => seq![
                            ("Access-Control-Allow-Origin"@, origin),
                            ("Access-Control-Allow-Methods"@, "GET, HEAD, OPTIONS"@),
                            ("Access-Control-Allow-Headers"@, "Authorization, Range"@),
                            (
                                "Access-Control-Expose-Headers"@,
                                "Content-Length, Content-Range, ETag, Accept-Ranges"@,
                            ),
                            ("Vary"@, "Origin"@),
                            ("Content-Length"@, "0"@),
                        ],
                    },
                    body: None,
                },
            )
            &&& admitted && request.method != "OPTIONS"@ && request.method != "GET"@
                && request.method != "HEAD"@ ==> next == refusal(405, "method not allowed"@)
            &&& admitted && (request.method == "GET"@ || request.method == "HEAD"@) ==> {
                &&& request.target.contains('?') || request.target.contains('#') ==> next
                    == refusal(400, "bad request"@)
                &&& !request.target.contains('?') && !request.target.contains('#') && !below
                    ==> next
                    == refusal(404, "not found"@)
                &&& !request.target.contains('?') && !request.target.contains('#') && below && (
                rest.len() == 0 || rest.contains('/')) ==> next == refusal(400, "bad request"@)
                &&& !request.target.contains('?') && !request.target.contains('#') && below
                    && rest.len() > 0 && !rest.contains('/') && facts.identity is None ==> next
                    == DecisionView::Identify(rest)
            }
        }),
{
    lemma_methods_differ();
    reveal_strlit("/assets/");
    assert("/assets/"@.len() == 8);
    let origin = header_value(request.headers, "origin"@);
    if origin is Some {
        if exists|i: int| 0 <= i < origins.len() && #[trigger] origins[i] == origin->0 {
            assert(origins.contains(origin->0));
        }
    }
    if request.target.len() >= 8 {
        assert(request.target.take(8) =~= request.target.subrange(0, 8));
    }
    if request.method == "OPTIONS"@ {
        let headers = cors_fields(origin) + seq![("Content-Length"@, "0"@)];
        match origin {
            None => {
                assert(headers =~= seq![("Content-Length"@, "0"@)]);
            },
            Some(origin) => {
                assert(headers =~= seq![
                    ("Access-Control-Allow-Origin"@, origin),
                    ("Access-Control-Allow-Methods"@, "GET, HEAD, OPTIONS"@),
                    ("Access-Control-Allow-Headers"@, "Authorization, Range"@),
                    (
                        "Access-Control-Expose-Headers"@,
                        "Content-Length, Content-Range, ETag, Accept-Ranges"@,
                    ),
                    ("Vary"@, "Origin"@),
                    ("Content-Length"@, "0"@),
                ]);
            },
        }
    }
}

/// A short answer is its message and a line end, as plain text: the Content-Length is the number of
/// bytes of that, and the connection is closed.
pub proof fn law_short_answers_tell_their_length(
    status: int,
    message: Seq<char>,
    extra: Seq<HeaderView>,
)
    ensures
        ({
            let answer = simple_response(status, message, extra);
            &&& answer.status == status
            &&& answer.body == Some(message + seq!['\n'])
            &&& answer.headers == seq![
                ("Content-Type"@, "text/plain; charset=utf-8"@),
                ("Content-Length"@, decimal(encode_utf8(answer.body->0).len() as int)),
                ("Connection"@, "close"@),
            ] + extra
        }),
        refusal(status, message) == DecisionView::Respond(
            simple_response(status, message, Seq::empty()),
        ),
{
    reveal_strlit("\n");
    assert("\n"@ =~= seq!['\n']);
}

/// A read of a stream asks for as much as is due and as a chunk may hold, and no more; a chunk that
/// the backend gives for it is taken exactly where it begins at the place asked for, holds
/// something, and no more than was asked for.
pub proof fn law_reads_are_bounded(
    offset: int,
    remaining: int,
    chunk_size: int,
    chunk: ChunkView,
)
    ensures
        read_length(remaining, chunk_size) <= remaining,
        read_length(remaining, chunk_size) <= chunk_size,
        read_length(remaining, chunk_size) == remaining || read_length(remaining, chunk_size)
            == chunk_size,
        acceptable_chunk(offset, remaining, chunk_size, chunk) <==> chunk.0 == offset
            && chunk.1.len() > 0 && chunk.1.len() <= remaining && chunk.1.len() <= chunk_size,
{
}

/// The end of a head that is made of lines is found where they end: no line of it is taken for the
/// blank one.
proof fn lemma_head_ends_behind_its_lines(lines: Seq<Seq<char>>, rest: Seq<char>)
    requires
        lines.len() > 0,
        forall|i: int| 0 <= i < lines.len() ==> (#[trigger] lines[i]).len() > 0,
        forall|i: int| 0 <= i < lines.len() ==> !breaks_line(#[trigger] lines[i]),
    ensures
        joined(lines, "\r\n"@).len() > 0,
        joined(lines, "\r\n"@)[0] != '\r',
        forall|k: int|
            0 <= k < joined(lines, "\r\n"@).len() ==> !#[trigger] occurs_at(
                joined(lines, "\r\n"@) + "\r\n\r\n"@ + rest,
                "\r\n\r\n"@,
                k,
            ),
        split_text(joined(lines, "\r\n"@), "\r\n"@) == lines,
    decreases lines.len(),
{
    reveal_strlit("\r\n");
    reveal_strlit("\r\n\r\n");
    let end = "\r\n"@;
    let blank = "\r\n\r\n"@;
    let first = lines[0];
    let all = joined(lines, end);
    let text = all + blank + rest;
    assert(!breaks_line(first));
    assert(first.contains(first[0]));
    if lines.len() == 1 {
        assert forall|k: int| 0 <= k < all.len() implies !#[trigger] occurs_at(text, blank, k) by {
            if occurs_at(text, blank, k) {
                assert(text.subrange(k, k + 4)[0] == text[k]);
                assert(text[k] == first[k]);
                assert(first.contains(first[k]));
            }
        }
        lemma_find_from(first, end, 0);
        if let Some(k) = find_text(first, end) {
            assert(first.subrange(k, k + 2)[0] == first[k]);
            assert(first.contains(first[k]));
        }
        assert(split_text(all, end) =~= lines);
    } else {
        let more = lines.skip(1);
        assert forall|i: int| 0 <= i < more.len() implies (#[trigger] more[i]).len() > 0
            && !breaks_line(more[i]) by {
            assert(more[i] == lines[i + 1]);
            assert(!breaks_line(lines[i + 1]));
        }
        lemma_head_ends_behind_its_lines(more, rest);
        let tail = joined(more, end);
        let behind = tail + blank + rest;
        let n = first.len() as int;
        assert(text =~= first + end + behind);
        assert(all[0] == first[0]);
        assert forall|k: int| 0 <= k < all.len() implies !#[trigger] occurs_at(text, blank, k) by {
            if occurs_at(text, blank, k) {
                let found = text.subrange(k, k + 4);
                assert(found[0] == text[k]);
                assert(found[2] == text[k + 2]);
                if k < n {
                    assert(text[k] == first[k]);
                    assert(first.contains(first[k]));
                } else if k == n {
                    assert(text[k + 2] == behind[0]);
                    assert(behind[0] == tail[0]);
                } else if k == n + 1 {
                    assert(text[k] == end[1]);
                } else {
                    assert(behind.subrange(k - n - 2, k - n + 2) =~= found);
                    assert(occurs_at(behind, blank, k - n - 2));
                }
            }
        }
        lemma_split_after_line(first, tail);
        assert(seq![first] + more =~= lines);
    }
}

/// A header line is its name, a colon and its value; the name is taken in small letters, and
/// neither keeps surrounding white space. A line without a colon, or with nothing before it, is
/// none.
pub proof fn law_header_lines(name: Seq<char>, value: Seq<char>, line: Seq<char>)
    ensures
        name.len() > 0 && !name.contains(':') && !value.contains('\r') && !value.contains('\n')
            ==> header_line(name + seq![':'] + value) == Some(
            (lower_text(trim_text(name)), trim_text(value)),
        ),
        name.len() > 0 && !name.contains(':') && (value.contains('\r') || value.contains('\n'))
            ==> header_line(name + seq![':'] + value) is None,
        !line.contains(':') ==> header_line(line) is None,
        line.len() > 0 && line[0] == ':' ==> header_line(line) is None,
{
    if !name.contains(':') {
        lemma_first_colon(name, value);
    }
    lemma_no_field(line);
}

proof fn lemma_first_colon(name: Seq<char>, value: Seq<char>)
    requires
        !name.contains(':'),
    ensures
        find_text(name + seq![':'] + value, seq![':']) == Some(name.len() as int),
        (name + seq![':'] + value).take(name.len() as int) == name,
        (name + seq![':'] + value).skip(name.len() as int + 1) == value,
{
    let colon = seq![':'];
    let whole = name + colon + value;
    let n = name.len() as int;
    lemma_find_from(whole, colon, 0);
    assert(whole.subrange(n, n + 1) =~= colon);
    assert(occurs_at(whole, colon, n));
    let k = find_text(whole, colon)->0;
    assert(whole.subrange(k, k + 1)[0] == whole[k]);
    assert(k == n) by {
        if k < n {
            assert(name[k] == ':');
            assert(name.contains(name[k]));
        }
    }
    assert(whole.take(n) =~= name);
    assert(whole.skip(n + 1) =~= value);
}

proof fn lemma_no_field(line: Seq<char>)
    ensures
        !line.contains(':') ==> header_line(line) is None,
        line.len() > 0 && line[0] == ':' ==> header_line(line) is None,
{
    let colon = seq![':'];
    lemma_find_from(line, colon, 0);
    if let Some(k) = find_text(line, colon) {
        assert(line.subrange(k, k + 1)[0] == line[k]);
        assert(line.contains(line[k]));
    }
    if line.len() > 0 && line[0] == ':' {
        assert(line.subrange(0, 1) =~= colon);
        assert(occurs_at(line, colon, 0));
    }
}

/// A request head is read as it is written: a line of method, target and an HTTP/1 version with one
/// space between them, then one line for each header field, then a blank line. What follows is not
/// looked at. It is refused only where it announces a body.
pub proof fn law_written_requests_are_read(
    method: Seq<char>,
    target: Seq<char>,
    minor: Seq<char>,
    names: Seq<Seq<char>>,
    values: Seq<Seq<char>>,
    rest: Seq<char>,
)
    requires
        method.len() > 0,
        !has_white_space(method),
        target.len() > 0,
        !has_white_space(target),
        !has_white_space(minor),
        names.len() == values.len(),
        forall|i: int|
            0 <= i < names.len() ==> (#[trigger] names[i]).len() > 0 && !names[i].contains(':')
                && !breaks_line(names[i]),
        forall|i: int| 0 <= i < values.len() ==> !breaks_line(#[trigger] values[i]),
    ensures
        ({
            let first = method + seq![' '] + (target + seq![' '] + ("HTTP/1."@ + minor));
            let lines = seq![first] + Seq::new(
                names.len(),
                |i: int| names[i] + seq![':'] + values[i],
            );
            let headers = Seq::new(
                names.len(),
                |i: int| (lower_text(trim_text(names[i])), trim_text(values[i])),
            );
            let announced = header_value(headers, "content-length"@);
            request_of_text(joined(lines, "\r\n"@) + "\r\n\r\n"@ + rest) == if announced is None
                || announced == Some("0"@) {
                Some(RequestView { method, target, headers })
            } else {
                None
            }
        }),
{
    reveal_strlit("HTTP/1.");
    reveal_strlit("\r\n");
    reveal_strlit("\r\n\r\n");
    let space = seq![' '];
    let version = "HTTP/1."@ + minor;
    let first = method + space + (target + space + version);
    let fields = Seq::new(names.len(), |i: int| names[i] + seq![':'] + values[i]);
    let lines = seq![first] + fields;
    let headers = Seq::new(
        names.len(),
        |i: int| (lower_text(trim_text(names[i])), trim_text(values[i])),
    );
    assert forall|i: int| 0 <= i < version.len() implies !is_white_space(#[trigger] version[i]) by {
        if i < 7 {
            assert(i == 0 || i == 1 || i == 2 || i == 3 || i == 4 || i == 5 || i == 6);
        } else {
            assert(version[i] == minor[i - 7]);
        }
    }
    assert(!breaks_line(first)) by {
        assert forall|i: int| 0 <= i < first.len() implies first[i] != '\r' && first[i]
            != '\n' by {
            let m = method.len() as int;
            let t = target.len() as int;
            if i < m {
                assert(first[i] == method[i]);
            } else if i == m {
                assert(first[i] == ' ');
            } else if i < m + 1 + t {
                assert(first[i] == target[i - m - 1]);
            } else if i == m + 1 + t {
                assert(first[i] == ' ');
            } else {
                assert(first[i] == version[i - m - t - 2]);
            }
        }
    }
    assert forall|i: int| 0 <= i < lines.len() implies (#[trigger] lines[i]).len() > 0
        && !breaks_line(lines[i]) by {
        if i > 0 {
            lemma_field_is_a_line(names[i - 1], values[i - 1]);
            assert(lines[i] == fields[i - 1]);
        }
    }
    lemma_head_ends_behind_its_lines(lines, rest);
    let head = joined(lines, "\r\n"@);
    let blank = "\r\n\r\n"@;
    let text = head + blank + rest;
    lemma_find_from(text, blank, 0);
    let n = head.len() as int;
    assert(text.subrange(n, n + 4) =~= blank);
    assert(occurs_at(text, blank, n));
    assert(find_text(text, blank) == Some(n));
    assert(text.take(n) =~= head);
    assert(head_of(text) == head);
    law_words_are_taken_apart(version, Seq::empty());
    law_words_are_taken_apart(target, version);
    law_words_are_taken_apart(method, target + space + version);
    let found = words(first);
    assert(found =~= seq![method, target, version]);
    assert(version.subrange(0, 7) =~= "HTTP/1."@);
    assert(lines.skip(1) =~= fields);
    assert forall|i: int| 0 <= i < fields.len() implies header_line(#[trigger] fields[i]) == Some(
        headers[i],
    ) by {
        law_header_lines(names[i], values[i], names[i]);
    }
    assert(header_fields(fields) =~= headers);
}

proof fn lemma_field_is_a_line(name: Seq<char>, value: Seq<char>)
    requires
        name.len() > 0,
        !breaks_line(name),
        !breaks_line(value),
    ensures
        (name + seq![':'] + value).len() > 0,
        !breaks_line(name + seq![':'] + value),
{
    let line = name + seq![':'] + value;
    assert forall|i: int| 0 <= i < line.len() implies line[i] != '\r' && line[i] != '\n' by {
        let n = name.len() as int;
        if i < n {
            assert(line[i] == name[i]);
            assert(name.contains(name[i]));
        } else if i > n {
            assert(line[i] == value[i - n - 1]);
            assert(value.contains(value[i - n - 1]));
        }
    }
}

/// A head whose first line is not three words with an HTTP/1 version is no request, whatever
/// follows it, and neither is one with a line that is no header field.
pub proof fn law_malformed_requests_are_refused(lines: Seq<Seq<char>>, rest: Seq<char>, k: int)
    requires
        lines.len() > 0,
        forall|i: int| 0 <= i < lines.len() ==> (#[trigger] lines[i]).len() > 0,
        forall|i: int| 0 <= i < lines.len() ==> !breaks_line(#[trigger] lines[i]),
        words(lines[0]).len() != 3 || !starts_with(words(lines[0])[2], "HTTP/1."@) || (1 <= k
            < lines.len() && !lines[k].contains(':')),
    ensures
        request_of_text(joined(lines, "\r\n"@) + "\r\n\r\n"@ + rest) is None,
{
    reveal_strlit("\r\n\r\n");
    lemma_head_ends_behind_its_lines(lines, rest);
    let head = joined(lines, "\r\n"@);
    let blank = "\r\n\r\n"@;
    let text = head + blank + rest;
    lemma_find_from(text, blank, 0);
    let n = head.len() as int;
    assert(text.subrange(n, n + 4) =~= blank);
    assert(occurs_at(text, blank, n));
    assert(find_text(text, blank) == Some(n));
    assert(text.take(n) =~= head);
    if 1 <= k < lines.len() && !lines[k].contains(':') {
        law_header_lines(lines[k], lines[k], lines[k]);
        assert(lines.skip(1)[k - 1] == lines[k]);
    }
}

/// A head is complete exactly where a carriage return, a line feed, a carriage return and a line
/// feed follow each other somewhere in the bytes; it is given up at 16384 bytes.
pub proof fn law_blank_line_ends_a_head(before: Seq<u8>, after: Seq<u8>, bytes: Seq<u8>)
    ensures
        has_blank_line(before + seq![13u8, 10u8, 13u8, 10u8] + after),
        has_blank_line(bytes) ==> exists|i: int|
            0 <= i && i + 4 <= bytes.len() && #[trigger] bytes.subrange(i, i + 4) == seq![
                13u8,
                10u8,
                13u8,
                10u8,
            ],
        MAX_HEADER_BYTES == 16384,
{
    let whole = before + seq![13u8, 10u8, 13u8, 10u8] + after;
    let n = before.len() as int;
    assert(whole[n] == 13 && whole[n + 1] == 10 && whole[n + 2] == 13 && whole[n + 3] == 10);
    if has_blank_line(bytes) {
        let i = choose|i: int|
            0 <= i <= bytes.len() - 4 && #[trigger] bytes[i] == 13 && bytes[i + 1] == 10 && bytes[i
                + 2] == 13 && bytes[i + 3] == 10;
        assert(bytes.subrange(i, i + 4) =~= seq![13u8, 10u8, 13u8, 10u8]);
    }
}

/// A response head is its status line, its header fields in their order and a blank line: the
/// status line names the version, the status and its reason.
pub proof fn law_heads_are_written_in_order(
    status: int,
    fields: Seq<HeaderView>,
    field: HeaderView,
)
    ensures
        head_text(status, Seq::empty()) == "HTTP/1.1 "@ + decimal(status) + " "@ + reason_phrase(
            status,
        ) + "\r\n"@ + "\r\n"@,
        head_text(status, fields.push(field)) + "\r\n"@
            == head_text(status, fields).drop_last().drop_last()
            + field.0 + ": "@ + field.1 + "\r\n"@ + "\r\n"@ + "\r\n"@,
        reason_phrase(200) == "OK"@,
        reason_phrase(204) == "No Content"@,
        reason_phrase(206) == "Partial Content"@,
        reason_phrase(400) == "Bad Request"@,
        reason_phrase(401) == "Unauthorized"@,
        reason_phrase(403) == "Forbidden"@,
        reason_phrase(404) == "Not Found"@,
        reason_phrase(405) == "Method Not Allowed"@,
        reason_phrase(416) == "Range Not Satisfiable"@,
        reason_phrase(503) == "Service Unavailable"@,
        reason_phrase(500) == "Internal Server Error"@,
{
    reveal_strlit("\r\n");
    let none = Seq::<HeaderView>::empty();
    assert(head_text(status, none) =~= "HTTP/1.1 "@ + decimal(status) + " "@ + reason_phrase(status)
        + "\r\n"@ + "\r\n"@);
    assert(fields.push(field).drop_last() =~= fields);
    let end = "\r\n"@;
    let front = status_line(status) + end + field_block(fields);
    assert(head_text(status, fields) =~= front + end);
    assert((front + end).drop_last().drop_last() =~= front);
    assert(head_text(status, fields.push(field)) + end =~= front + field.0 + ": "@ + field.1 + end
        + end + end);
}

/// A request is read from bytes exactly as from the text that they encode, and not at all where
/// they encode none; header fields, bearers and failures show what they hold.
pub proof fn law_requests_are_read_from_text(
    bytes: Seq<u8>,
    headers: Seq<Header>,
    value: Seq<char>,
)
    ensures
        valid_utf8(bytes) ==> request_of(bytes) == request_of_text(decode_utf8(bytes)),
        !valid_utf8(bytes) ==> request_of(bytes) is None,
        optional_bearer(None) is None,
        optional_bearer(Some(value)) == bearer_of(value),
        HttpTaskError::Request.spec_message() == "HTTP request failed"@,
        HttpTaskError::Backend.spec_message() == "Asset backend failed while streaming"@,
        headers_view(headers).len() == headers.len(),
        forall|i: int| 0 <= i < headers.len() ==> #[trigger] headers_view(headers)[i]
            == headers[i]@,
{
}

/// The facts of an exchange and a request show what they hold.
pub proof fn law_views_of_exchanges(
    facts: ExchangeFacts,
    request: HttpRequest,
    asset: AssetMetadata,
)
    ensures
        facts@.identity == facts.identity,
        facts@.grant == facts.grant,
        facts@.download == facts.download,
        facts@.asset == match facts.asset {
            None => None,
            Some(AssetLookup::Failed) => Some(AssetLookupView::Failed),
            Some(AssetLookup::Missing) => Some(AssetLookupView::Missing),
            Some(AssetLookup::Found(found)) => Some(AssetLookupView::Found(found@)),
        },
        request@.method == request.method@,
        request@.target == request.target@,
        request@.headers == headers_view(request.headers@),
        asset@.media_type == asset.media_type@,
        asset@.byte_length == asset.byte_length,
        asset@.content_hash == asset.content_hash@,
{
}

} // verus!
