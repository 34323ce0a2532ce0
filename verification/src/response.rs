//! The normalized response of one call.

use crate::decode::{
    decision, decode_body, is_decoding, json_document, usable_content_type, BodyType,
};
use crate::error::HttpError;
use crate::headers::header_lines;
use crate::request::Request;
use crate::validate::{first_unsupported, lemma_rejected_iff_unsupported};
use reqwest::header::HeaderMap;
use reqwest::StatusCode;
use std::collections::HashMap;
use vstd::prelude::*;
use vstd::string::StringExecFns;

verus! {

/// The status code of a response: a number of three digits.
#[derive(Clone, Copy, Debug)]
pub struct Status {
    code: u16,
}

impl Status {
    #[verifier::type_invariant]
    spec fn well_formed(self) -> bool {
        100 <= self.code <= 999
    }

    /// The number of the status.
    pub closed spec fn code(self) -> u16 {
        self.code
    }

    /// The status of a number of three digits; no other number is one.
    pub fn new(code: u16) -> (r: Option<Status>)
        ensures
            r is Some <==> 100 <= code <= 999,
            r matches Some(s) ==> s.code() == code,
    {
        if 100 <= code && code <= 999 {
            Some(Status { code })
        } else {
            None
        }
    }

    /// The number of the status.
    pub fn as_u16(&self) -> (r: u16)
        ensures
            r == self.code(),
            100 <= r <= 999,
    {
        proof {
            use_type_invariant(self);
        }
        self.code
    }
}

/// The character of a decimal digit.
pub open spec fn digit_char(d: int) -> char {
    (('0' as u8) + d) as char
}

/// The three decimal digits of a status code.
pub open spec fn code_digits(code: u16) -> Seq<char> {
    seq![digit_char(code as int / 100), digit_char((code as int / 10) % 10), digit_char(code as int % 10)]
}

/// The reason phrase that HTTP registers for a status code, where it
/// registers one.
pub uninterp spec fn reason_phrase(code: u16) -> Option<Seq<char>>;

/// Calls `StatusCode::from_u16`, which accepts the numbers of three digits,
/// and `StatusCode::as_str`, which gives those digits.
#[verifier::external_body]
fn status_digits(code: u16) -> (r: Option<String>)
    ensures
        r is Some <==> 100 <= code <= 999,
        r matches Some(s) ==> s@ == code_digits(code),
{
    match StatusCode::from_u16(code) {
        Ok(status) => Some(status.as_str().to_string()),
        Err(_) => None,
    }
}

/// Calls `StatusCode::canonical_reason` on the status of the number: a phrase
/// from a fixed table, or nothing where the table has none for the code. For
/// 200 the table has `OK`.
#[verifier::external_body]
fn canonical_reason(code: u16) -> (r: Option<&'static str>)
    requires
        100 <= code <= 999,
    ensures
        r is Some <==> reason_phrase(code) is Some,
        r matches Some(s) ==> reason_phrase(code) == Some(s@),
        r matches Some(s) ==> (code == 200 ==> s@ == "OK"@),
        r is None ==> code != 200,
{
    match StatusCode::from_u16(code) {
        Ok(status) => status.canonical_reason(),
        Err(_) => None,
    }
}

/// The status line made of the digits of a code and a reason phrase.
pub open spec fn line_of(code: u16, reason: Option<Seq<char>>) -> Seq<char> {
    match reason {
        Some(phrase) => code_digits(code) + " "@ + phrase,
        None => code_digits(code),
    }
}

/// The status line of a code: its digits, then a space and the registered
/// reason phrase where there is one.
pub open spec fn status_line_text(code: u16) -> Seq<char> {
    line_of(code, reason_phrase(code))
}

/// The status code that a response reports: the code on the wire, or 0 where
/// the request sets `raise_error` to `false`.
pub open spec fn reported_code(data: Request, code: u16) -> u16 {
    if data.raise_error == Some(false) {
        0
    } else {
        code
    }
}

/// Joins the digits of a status code and its reason phrase into a status
/// line.
pub fn join_status_line(digits: String, reason: Option<&str>) -> (r: String)
    ensures
        r@ == match reason {
            Some(phrase) => digits@ + " "@ + phrase@,
            None => digits@,
        },
{
    match reason {
        Some(phrase) => digits.concat(" ").concat(phrase),
        None => digits,
    }
}

/// The status line of a status. That of 200 is `200 OK`.
pub fn status_line(status: Status) -> (r: String)
    ensures
        r@ == status_line_text(status.code()),
        status.code() == 200 ==> r@ == "200 OK"@,
{
    let code = status.as_u16();
    proof {
        reveal_strlit("200 OK");
        reveal_strlit("OK");
        reveal_strlit(" ");
        if code == 200 {
            assert(code_digits(code) + " "@ + "OK"@ =~= "200 OK"@);
        }
    }
    join_status_line(status_digits(code).unwrap(), canonical_reason(code))
}

/// The outcome of one call.
#[derive(Debug)]
pub struct Response {
    /// The status line, for people to read.
    pub status: String,
    /// The status code, or 0 where the request withholds it.
    pub status_code: u16,
    /// The decoded body, where a decoder applied.
    pub body: Option<BodyType>,
    /// The body as it came.
    pub raw_body: String,
    /// The headers of the response, all values of each.
    pub headers: HeaderMap,
    /// Reserved for error codes by name; empty on success.
    pub error: HashMap<String, u16>,
}

/// Whether `r` is the outcome of a call that was answered with this status,
/// these headers and this body.
pub open spec fn is_outcome(
    data: Request,
    status: Status,
    headers: HeaderMap,
    raw_body: Seq<char>,
    r: Result<Response, HttpError>,
) -> bool {
    match r {
        Ok(response) => {
            &&& response.status@ == status_line_text(status.code())
            &&& response.status_code == reported_code(data, status.code())
            &&& response.raw_body@ == raw_body
            &&& response.headers == headers
            &&& response.error@ == Map::<String, u16>::empty()
            &&& is_decoding(
                decision(data, headers, raw_body),
                raw_body,
                Ok::<Option<BodyType>, HttpError>(response.body),
            )
        },
        Err(e) => is_decoding(
            decision(data, headers, raw_body),
            raw_body,
            Err::<Option<BodyType>, HttpError>(e),
        ),
    }
}

/// Assembles the response of a call from what came over the wire. Fails, with
/// no response, where the body was to be decoded and is malformed.
pub fn complete(data: &Request, status: Status, headers: HeaderMap, raw_body: String) -> (r:
    Result<Response, HttpError>)
    ensures
        is_outcome(*data, status, headers, raw_body@, r),
        status.code() == 200 ==> (r matches Ok(response) ==> response.status@ == "200 OK"@),
{
    let line = status_line(status);
    let status_code: u16 = if let Some(false) = data.raise_error {
        0
    } else {
        status.as_u16()
    };
    let error: HashMap<String, u16> = HashMap::new();
    match decode_body(data, &headers, raw_body.as_str()) {
        Ok(body) => Ok(Response { status: line, status_code, body, raw_body, headers, error }),
        Err(e) => Err(e),
    }
}

/// A body that is a JSON document, answered under the content type
/// `application/json`, is decoded to that document, and the text of the body
/// is kept as it came.
pub proof fn lemma_json_body_is_decoded(
    data: Request,
    status: Status,
    headers: HeaderMap,
    raw_body: Seq<char>,
    r: Result<Response, HttpError>,
)
    requires
        usable_content_type(header_lines(headers)) == Some("application/json"@),
        raw_body.len() > 0,
        json_document(raw_body) is Some,
        is_outcome(data, status, headers, raw_body, r),
    ensures
        r matches Ok(response) && response.body == Some(
            BodyType::Json(json_document(raw_body)->0),
        ) && response.raw_body@ == raw_body,
{
}

/// Where the response names no content type that can be read and the request
/// forces no decoder, the call succeeds with no decoded body and the text of
/// the body as it came.
pub proof fn lemma_undecoded_body_is_kept(
    data: Request,
    status: Status,
    headers: HeaderMap,
    raw_body: Seq<char>,
    r: Result<Response, HttpError>,
)
    requires
        usable_content_type(header_lines(headers)) is None,
        data.force_json_decode != Some(true),
        data.force_yaml_decode != Some(true),
        is_outcome(data, status, headers, raw_body, r),
    ensures
        r matches Ok(response) && response.body is None && response.raw_body@ == raw_body,
{
}

/// What came back is what is reported, whatever the status: a response to a
/// request that passed validation has the status code, the body and the
/// headers that came over the wire.
pub proof fn lemma_reply_is_reported(
    data: Request,
    status: Status,
    headers: HeaderMap,
    raw_body: Seq<char>,
    r: Result<Response, HttpError>,
)
    requires
        first_unsupported(data) is None,
        is_outcome(data, status, headers, raw_body, r),
    ensures
        r matches Ok(response) ==> response.status_code == status.code() && response.raw_body@
            == raw_body && response.headers == headers,
{
    lemma_validated_request_reports_code(data, status.code());
}

/// A request that passes validation names no `raise_error`, so its response
/// reports the status code that came over the wire.
pub proof fn lemma_validated_request_reports_code(data: Request, code: u16)
    requires
        first_unsupported(data) is None,
    ensures
        reported_code(data, code) == code,
{
    lemma_rejected_iff_unsupported(data);
    if data.raise_error is Some {
        assert(crate::validate::is_set(data, crate::error::UnsupportedField::RaiseError));
    }
}

} // verus!
