//! Assembly of the request that a transport is to send. Nothing is sent
//! here.

use crate::error::{HeaderFault, HttpError};
use crate::headers::{ascii_lowercase, header_lines};
use crate::request::Request;
use crate::timeout::{
    lemma_span_parts, lemma_timeout_forms_agree, TimeSpan, Timeout, NANOS_PER_SEC,
};
use crate::transport::{sender_inits, Transport};
use reqwest::header::HeaderMap;
use reqwest::Method;
use reqwest_middleware::{ClientWithMiddleware, RequestBuilder};
use std::collections::HashMap;
use vstd::prelude::*;
use vstd::utf8::encode_utf8;

verus! {

/// `reqwest_middleware::RequestBuilder`, a request in the making together
/// with the client that is to send it.
#[verifier::external_type_specification]
#[verifier::external_body]
pub struct ExRequestBuilder(RequestBuilder);

/// The most lines that a header map is sure to take. A map refuses to grow
/// beyond 32768 slots, and where it is filled by `insert`, `append` or
/// `entry` it refuses by panicking. It grows on being full to three quarters,
/// and also, where many names fall on the same slots, on being full to one
/// fifth: with 32768 slots that is from 6554 lines on. Up to here it never
/// has to grow beyond its limit, whatever the names are.
pub const HEADER_ROOM: usize = 6553;

/// The most header pairs that a request is assembled with: the room of a
/// header map, less the two lines that the assembly itself may add, one for
/// credentials in the address and one for the content type of a structured
/// body.
pub const HEADER_LIMIT: usize = 6551;

/// The line that a header map holds for a pair of a table: the name in lower
/// case, with the bytes of the value.
pub open spec fn line_of(name: String, value: String) -> (Seq<char>, Seq<u8>) {
    (ascii_lowercase(name@), encode_utf8(value@))
}

/// Whether a line is that of some pair of the table.
pub open spec fn is_table_line(table: Map<String, String>, line: (Seq<char>, Seq<u8>)) -> bool {
    exists|name: String| table.contains_key(name) && #[trigger] line_of(name, table[name]) == line
}

/// Whether the lines hold the line of every pair of the table.
pub open spec fn holds_table(lines: Seq<(Seq<char>, Seq<u8>)>, table: Map<String, String>) -> bool {
    forall|name: String| #[trigger]
        table.contains_key(name) ==> lines.contains(line_of(name, table[name]))
}

/// Whether the lines are those of the pairs of the table: one for every
/// pair, and none besides.
pub open spec fn carries_table(lines: Seq<(Seq<char>, Seq<u8>)>, table: Map<String, String>)
    -> bool {
    &&& holds_table(lines, table)
    &&& forall|i: int| 0 <= i < lines.len() ==> is_table_line(table, #[trigger] lines[i])
}

/// Whether some line carries the name.
pub open spec fn carries_name(lines: Seq<(Seq<char>, Seq<u8>)>, name: Seq<char>) -> bool {
    exists|i: int| 0 <= i < lines.len() && (#[trigger] lines[i]).0 == name
}

/// Whether `after` is what a header map with the lines `before` holds once
/// the lines `added` were put in place of what it had under their names:
/// all that was added, and of what it had only the lines under other names.
pub open spec fn is_replaced(
    before: Seq<(Seq<char>, Seq<u8>)>,
    added: Seq<(Seq<char>, Seq<u8>)>,
    after: Seq<(Seq<char>, Seq<u8>)>,
) -> bool {
    &&& after.len() <= before.len() + added.len()
    &&& forall|i: int| 0 <= i < added.len() ==> after.contains(#[trigger] added[i])
    &&& forall|j: int|
        0 <= j < after.len() ==> added.contains(#[trigger] after[j]) || (before.contains(
            after[j],
        ) && !carries_name(added, after[j].0))
}

/// The line that names JSON as the content type.
pub open spec fn json_line() -> (Seq<char>, Seq<u8>) {
    ("content-type"@, encode_utf8("application/json"@))
}

/// The body that a request in the making holds.
pub enum DraftBody {
    /// None.
    Empty,
    /// The document, serialized as JSON.
    Json(serde_json::Value),
    /// The text as it is.
    Raw(Seq<char>),
}

/// What a request in the making holds.
pub struct Draft {
    /// The client that is to send the request.
    pub sender: ClientWithMiddleware,
    pub method: Method,
    /// The address that the request was started for, as it was given.
    /// Credentials in it go out as a header, not in the address.
    pub address: Seq<char>,
    /// The time allowed for this call, where it is set.
    pub timeout: Option<TimeSpan>,
    /// The header lines, in the order of the header map.
    pub lines: Seq<(Seq<char>, Seq<u8>)>,
    pub body: DraftBody,
}

/// Whether a text can be parsed as the address of a request.
pub uninterp spec fn is_address(text: Seq<char>) -> bool;

/// The request that a builder holds, or nothing where it holds an error
/// instead, as it does from the start where the address cannot be parsed.
pub uninterp spec fn draft(builder: RequestBuilder) -> Option<Draft>;

/// A character that may stand in a header name.
pub open spec fn is_name_char(c: char) -> bool {
    ||| 'a' <= c <= 'z'
    ||| 'A' <= c <= 'Z'
    ||| '0' <= c <= '9'
    ||| '!' <= c <= '\''
    ||| c == '*'
    ||| c == '+'
    ||| c == '-'
    ||| c == '.'
    ||| c == '^'
    ||| c == '_'
    ||| c == '`'
    ||| c == '|'
    ||| c == '~'
}

/// A header name valid for transmission: 1 to 65535 characters, each of
/// which may stand in a name.
pub open spec fn is_header_name(name: Seq<char>) -> bool {
    &&& 1 <= name.len() <= 65535
    &&& forall|i: int| 0 <= i < name.len() ==> is_name_char(#[trigger] name[i])
}

/// A character that may stand in a header value: a tab, or anything that is
/// neither a control character nor DEL.
pub open spec fn is_value_char(c: char) -> bool {
    c == '\t' || (' ' <= c && c != '\x7f')
}

/// A header value valid for transmission.
pub open spec fn is_header_value(value: Seq<char>) -> bool {
    forall|i: int| 0 <= i < value.len() ==> is_value_char(#[trigger] value[i])
}

/// Whether every pair of the table is a valid name with a valid value.
pub open spec fn is_encodable(table: Map<String, String>) -> bool {
    forall|name: String| #[trigger]
        table.contains_key(name) ==> is_header_name(name@) && is_header_value(table[name]@)
}

/// Calls `HeaderMap::try_from` on the table, which makes a header name of
/// every key and a header value of every value, appends each pair as one
/// line, and fails at the first key or value that is not valid. The order of
/// the lines is that in which the table is walked.
#[verifier::external_body]
fn encode_headers(table: &HashMap<String, String>) -> (r: Result<HeaderMap, http::Error>)
    requires
        table.len() <= HEADER_ROOM,
    ensures
        r is Ok <==> is_encodable(table@),
        r matches Ok(headers) ==> header_lines(headers).len() == table.len() && carries_table(
            header_lines(headers),
            table@,
        ),
{
    HeaderMap::try_from(table)
}

/// `Method::clone` gives the same method again.
pub assume_specification[ <Method as Clone>::clone ](method: &Method) -> (r: Method)
    ensures
        r == *method,
;

/// Calls `ClientWithMiddleware::request` on a client without request
/// initialisers, which starts a request of this method for this address, to
/// be sent by this client. An address that cannot be parsed is kept in the
/// builder as an error and shows when the request is sent. The request has
/// no timeout, no body and no header, but for one `authorization` line where
/// the address holds credentials.
#[verifier::external_body]
fn start_request(client: &ClientWithMiddleware, method: Method, url: &str) -> (r: RequestBuilder)
    requires
        sender_inits(*client) == 0,
    ensures
        draft(r) is Some <==> is_address(url@),
        draft(r) matches Some(d) ==> {
            &&& d.sender == *client
            &&& d.method == method
            &&& d.address == url@
            &&& d.timeout is None
            &&& d.body is Empty
            &&& d.lines.len() <= 1
            &&& forall|i: int| 0 <= i < d.lines.len() ==> (#[trigger] d.lines[i]).0 == "authorization"@
        },
{
    client.request(method, url)
}

/// Calls `RequestBuilder::timeout` with the `Duration` of these seconds and
/// nanoseconds, which sets the time allowed for the request and nothing
/// else. A builder that holds an error is left as it is.
#[verifier::external_body]
fn with_timeout(builder: RequestBuilder, secs: u64, nanos: u32) -> (r: RequestBuilder)
    requires
        nanos < NANOS_PER_SEC,
    ensures
        draft(r) == match draft(builder) {
            Some(d) => Some(Draft { timeout: Some(TimeSpan::of_parts(secs, nanos)), ..d }),
            None => None,
        },
{
    builder.timeout(std::time::Duration::new(secs, nanos))
}

/// `RequestBuilder::headers` puts the lines of the map on the request, in
/// place of what the request has under the same names, and changes nothing
/// else. A builder that holds an error is left as it is. The header map of
/// the request must have room for the lines.
pub assume_specification[ RequestBuilder::headers ](
    builder: RequestBuilder,
    headers: HeaderMap,
) -> (r: RequestBuilder)
    requires
        draft(builder) matches Some(d) ==> d.lines.len() + header_lines(headers).len()
            <= HEADER_ROOM,
    ensures
        match draft(builder) {
            Some(d) => draft(r) matches Some(e) && e == (Draft { lines: e.lines, ..d })
                && is_replaced(d.lines, header_lines(headers), e.lines),
            None => draft(r) is None,
        },
;

/// Calls `RequestBuilder::json`, which makes the document the body of the
/// request, serialized as JSON, and adds the line that names JSON as the
/// content type where no line names a content type yet. A builder that holds
/// an error is left as it is. The header map of the request must have room
/// for one more line.
#[verifier::external_body]
fn with_json(builder: RequestBuilder, body: &serde_json::Value) -> (r: RequestBuilder)
    requires
        draft(builder) matches Some(d) ==> d.lines.len() < HEADER_ROOM,
    ensures
        draft(r) == match draft(builder) {
            Some(d) => Some(
                Draft {
                    body: DraftBody::Json(*body),
                    lines: if carries_name(d.lines, "content-type"@) {
                        d.lines
                    } else {
                        d.lines.push(json_line())
                    },
                    ..d
                },
            ),
            None => None,
        },
{
    builder.json(body)
}

/// Calls `RequestBuilder::body`, which makes the text the body of the
/// request as it is, and changes nothing else. A builder that holds an error
/// is left as it is.
#[verifier::external_body]
fn with_raw_body(builder: RequestBuilder, body: String) -> (r: RequestBuilder)
    ensures
        draft(r) == match draft(builder) {
            Some(d) => Some(Draft { body: DraftBody::Raw(body@), ..d }),
            None => None,
        },
{
    builder.body(body)
}

/// The time allowed for a call of the request, if it sets one.
pub open spec fn timeout_span(data: Request) -> Option<TimeSpan> {
    match data.timeout {
        Some(t) => Some(t.to_span()),
        None => None,
    }
}

/// The body that a request is to carry: its raw body where it has one, else
/// its structured body where it has one, else none.
pub open spec fn body_of(data: Request) -> DraftBody {
    match data.raw_body {
        Some(text) => DraftBody::Raw(text@),
        None => match data.body {
            Some(document) => DraftBody::Json(document),
            None => DraftBody::Empty,
        },
    }
}

/// Whether a header line is one that the assembly of the request puts on it:
/// the line of a pair of its table, the line of the credentials in its
/// address, or the line that names JSON where it has a structured body.
pub open spec fn is_request_line(data: Request, line: (Seq<char>, Seq<u8>)) -> bool {
    ||| data.headers matches Some(table) && is_table_line(table@, line)
    ||| line.0 == "authorization"@
    ||| data.body is Some && line == json_line()
}

/// Whether `d` is the request that `data` describes, to be sent by `sender`:
/// its method and address as given, its timeout and body those of the
/// request, and its header lines those of the table and no others but what
/// the assembly adds.
pub open spec fn is_draft_of(data: Request, sender: ClientWithMiddleware, d: Draft) -> bool {
    &&& d.sender == sender
    &&& d.method == data.method
    &&& d.address == data.url@
    &&& d.timeout == timeout_span(data)
    &&& d.body == body_of(data)
    &&& data.headers matches Some(table) ==> holds_table(d.lines, table@)
    &&& data.body is Some ==> carries_name(d.lines, "content-type"@)
    &&& forall|j: int| 0 <= j < d.lines.len() ==> is_request_line(data, #[trigger] d.lines[j])
}

/// Whether the request has more headers than a request is assembled with.
pub open spec fn has_too_many_headers(data: Request) -> bool {
    data.headers matches Some(table) && table.len() > HEADER_LIMIT
}

/// Whether the headers of a request can be put on it.
pub open spec fn has_valid_headers(data: Request) -> bool {
    data.headers matches Some(table) ==> table.len() <= HEADER_LIMIT && is_encodable(table@)
}

/// Two requests that allow the same time, one by a duration string and one
/// by a count of nanoseconds, set the same timeout.
pub proof fn lemma_timeout_form_is_immaterial(a: Request, b: Request, span: TimeSpan, n: u64)
    requires
        a.timeout == Some(Timeout::TimeString(span)),
        b.timeout == Some(Timeout::Nanosec(n)),
        span.subsec_nanos() < NANOS_PER_SEC,
        span.total_nanos() == n,
    ensures
        timeout_span(a) == timeout_span(b),
{
    lemma_timeout_forms_agree(span, n);
}

/// A request assembled and not yet sent, with the transport that is to send
/// it.
pub struct PreparedRequest {
    transport: Transport,
    builder: RequestBuilder,
}

impl PreparedRequest {
    /// The transport that is to send the request.
    pub closed spec fn transport(self) -> Transport {
        self.transport
    }

    /// The request in the making.
    pub closed spec fn builder(self) -> RequestBuilder {
        self.builder
    }

    /// The transport that is to send the request.
    pub fn sender(&self) -> (r: &Transport)
        ensures
            *r == self.transport(),
    {
        &self.transport
    }

    /// Hands the request over for sending.
    pub fn into_builder(self) -> (r: RequestBuilder)
        ensures
            r == self.builder(),
    {
        self.builder
    }
}

/// Assembles the request that the transport is to send. Fails where the
/// headers of the request cannot be put on it, and only there. The request
/// assembled is the one described, unless its address cannot be parsed: then
/// the builder holds the error, which shows when the request is sent.
pub fn build_request(data: &Request, transport: Transport) -> (r: Result<
    PreparedRequest,
    HttpError,
>)
    ensures
        r is Ok <==> has_valid_headers(*data),
        r matches Ok(prepared) ==> {
            &&& prepared.transport() == transport
            &&& draft(prepared.builder()) is Some <==> is_address(data.url@)
            &&& draft(prepared.builder()) matches Some(d) ==> is_draft_of(
                *data,
                transport.sender(),
                d,
            )
        },
        r matches Err(e) ==> e matches HttpError::HeaderEncoding(fault) && if has_too_many_headers(
            *data,
        ) {
            fault is TooMany
        } else {
            fault is Invalid
        },
{
    let mut builder = start_request(transport.client(), data.method.clone(), data.url.as_str());
    if let Some(timeout) = &data.timeout {
        let span = timeout.span();
        proof {
            lemma_span_parts(span.secs(), span.subsec_nanos());
        }
        builder = with_timeout(builder, span.as_secs(), span.nanos_part());
    }
    if let Some(table) = &data.headers {
        if table.len() > HEADER_LIMIT {
            return Err(HttpError::HeaderEncoding(HeaderFault::TooMany));
        }
        match encode_headers(table) {
            Ok(headers) => {
                let ghost before = draft(builder);
                let ghost added = header_lines(headers);
                builder = builder.headers(headers);
                proof {
                    if let Some(e) = draft(builder) {
                        lemma_table_put_on(before->0.lines, added, e.lines, table@);
                    }
                }
            },
            Err(e) => {
                return Err(HttpError::HeaderEncoding(HeaderFault::Invalid(e)));
            },
        }
    }
    assert(draft(builder) matches Some(d) ==> {
        &&& d.body is Empty
        &&& d.lines.len() <= HEADER_LIMIT + 1
        &&& data.headers matches Some(table) ==> holds_table(d.lines, table@)
        &&& forall|j: int| 0 <= j < d.lines.len() ==> is_request_line(*data, #[trigger] d.lines[j])
    });
    if let Some(body) = &data.body {
        let ghost before = draft(builder);
        builder = with_json(builder, body);
        proof {
            if let Some(e) = draft(builder) {
                lemma_json_line_added(*data, before->0.lines, e.lines);
            }
        }
    }
    if let Some(raw_body) = &data.raw_body {
        builder = with_raw_body(builder, raw_body.clone());
    }
    Ok(PreparedRequest { transport, builder })
}

/// Once the lines of a table are put on a request that had nothing but a
/// line of credentials, the request holds the line of every pair, and
/// besides them only that line of credentials.
proof fn lemma_table_put_on(
    before: Seq<(Seq<char>, Seq<u8>)>,
    added: Seq<(Seq<char>, Seq<u8>)>,
    after: Seq<(Seq<char>, Seq<u8>)>,
    table: Map<String, String>,
)
    requires
        forall|i: int| 0 <= i < before.len() ==> (#[trigger] before[i]).0 == "authorization"@,
        carries_table(added, table),
        is_replaced(before, added, after),
    ensures
        holds_table(after, table),
        forall|j: int|
            0 <= j < after.len() ==> is_table_line(table, #[trigger] after[j]) || after[j].0
                == "authorization"@,
{
    assert forall|name: String| #[trigger] table.contains_key(name) implies after.contains(
        line_of(name, table[name]),
    ) by {
        let line = line_of(name, table[name]);
        assert(added.contains(line));
        let i = choose|i: int| 0 <= i < added.len() && added[i] == line;
        assert(after.contains(added[i]));
    }
    assert forall|j: int| 0 <= j < after.len() implies is_table_line(table, #[trigger] after[j])
        || after[j].0 == "authorization"@ by {
        if added.contains(after[j]) {
            let i = choose|i: int| 0 <= i < added.len() && added[i] == after[j];
            assert(is_table_line(table, added[i]));
        } else {
            assert(before.contains(after[j]));
            let i = choose|i: int| 0 <= i < before.len() && before[i] == after[j];
            assert(before[i].0 == "authorization"@);
        }
    }
}

/// The step of the structured body keeps the lines of a request and adds at
/// most the line that names JSON; after it a line names the content type.
proof fn lemma_json_line_added(
    data: Request,
    before: Seq<(Seq<char>, Seq<u8>)>,
    after: Seq<(Seq<char>, Seq<u8>)>,
)
    requires
        data.body is Some,
        after == if carries_name(before, "content-type"@) {
            before
        } else {
            before.push(json_line())
        },
        data.headers matches Some(table) ==> holds_table(before, table@),
        forall|j: int| 0 <= j < before.len() ==> is_request_line(data, #[trigger] before[j]),
    ensures
        data.headers matches Some(table) ==> holds_table(after, table@),
        carries_name(after, "content-type"@),
        forall|j: int| 0 <= j < after.len() ==> is_request_line(data, #[trigger] after[j]),
{
    if !carries_name(before, "content-type"@) {
        let last = before.len() as int;
        assert(after[last] == json_line());
        assert(after[last].0 == "content-type"@);
        assert forall|j: int| 0 <= j < after.len() implies is_request_line(
            data,
            #[trigger] after[j],
        ) by {
            if j < last {
                assert(after[j] == before[j]);
            }
        }
        if let Some(table) = data.headers {
            assert forall|name: String| #[trigger] table@.contains_key(name) implies after.contains(
                line_of(name, table@[name]),
            ) by {
                let line = line_of(name, table@[name]);
                assert(before.contains(line));
                let i = choose|i: int| 0 <= i < before.len() && before[i] == line;
                assert(after[i] == line);
            }
        }
    }
}

} // verus!
