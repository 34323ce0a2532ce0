//! Content negotiation: which decoder reads the body of a response, and what
//! it makes of it.

use crate::error::{DecodeFault, HttpError};
use crate::headers::{
    ascii_lowercase, header_get_text, header_lines, header_text, is_plain_name,
};
use crate::request::Request;
use reqwest::header::HeaderMap;
use vstd::prelude::*;
use vstd::string::StringExecFns;

verus! {

/// `serde_yaml::Value`, a YAML document.
#[verifier::external_type_specification]
#[verifier::external_body]
pub struct ExYamlValue(serde_yaml::Value);

/// A decoded body, tagged with the format it was read as.
#[derive(Debug)]
pub enum BodyType {
    /// A JSON document.
    Json(serde_json::Value),
    /// A YAML document.
    Yaml(serde_yaml::Value),
}

/// A format in which a body can be read.
#[derive(Clone, Copy, Debug, PartialEq, Eq, Structural)]
pub enum Decoder {
    Json,
    Yaml,
}

/// The document that a text is when read as JSON, if it is one.
pub uninterp spec fn json_document(text: Seq<char>) -> Option<serde_json::Value>;

/// The document that a text is when read as YAML, if it is one.
pub uninterp spec fn yaml_document(text: Seq<char>) -> Option<serde_yaml::Value>;

/// Calls `serde_json::from_str` for a `serde_json::Value`. The outcome
/// depends on the text alone: the document, or an error where the text is not
/// one JSON document.
#[verifier::external_body]
fn parse_json(text: &str) -> (r: Result<serde_json::Value, serde_json::Error>)
    ensures
        r is Ok <==> json_document(text@) is Some,
        r matches Ok(v) ==> json_document(text@) == Some(v),
{
    serde_json::from_str::<serde_json::Value>(text)
}

/// Calls `serde_yaml::from_str` for a `serde_yaml::Value`. The outcome
/// depends on the text alone: the document, or an error where the text is not
/// one YAML document.
#[verifier::external_body]
fn parse_yaml(text: &str) -> (r: Result<serde_yaml::Value, serde_yaml::Error>)
    ensures
        r is Ok <==> yaml_document(text@) is Some,
        r matches Ok(v) ==> yaml_document(text@) == Some(v),
{
    serde_yaml::from_str::<serde_yaml::Value>(text)
}

/// The header name under which a response gives its content type, in lower
/// case.
pub open spec fn content_type_name() -> Seq<char> {
    "content-type"@
}

/// The decoder that a content type selects. The type is compared as a whole:
/// one with parameters selects none.
pub open spec fn decoder_for(media_type: Seq<char>) -> Option<Decoder> {
    if media_type == "application/json"@ {
        Some(Decoder::Json)
    } else if media_type == "application/yaml"@ || media_type == "application/x-yaml"@ {
        Some(Decoder::Yaml)
    } else {
        None
    }
}

/// The decoder that the request forces where the response names no content
/// type. JSON goes before YAML.
pub open spec fn forced_decoder(data: Request) -> Option<Decoder> {
    if data.force_json_decode == Some(true) {
        Some(Decoder::Json)
    } else if data.force_yaml_decode == Some(true) {
        Some(Decoder::Yaml)
    } else {
        None
    }
}

/// The decision of content negotiation, first match first: an empty body is
/// not decoded; a content type decides alone where the response has one that
/// can be used; the force flags of the request decide where it has none.
pub open spec fn negotiation(data: Request, content_type: Option<Seq<char>>, raw_body: Seq<char>)
    -> Option<Decoder> {
    if raw_body.len() == 0 {
        None
    } else {
        match content_type {
            Some(media_type) => decoder_for(media_type),
            None => forced_decoder(data),
        }
    }
}

/// The content type of a response with these lines that can be used: the
/// first value of its `Content-Type` header, where it is text.
pub open spec fn usable_content_type(lines: Seq<(Seq<char>, Seq<u8>)>) -> Option<Seq<char>> {
    header_text(lines, content_type_name())
}

/// The decision of content negotiation for a response with these headers and
/// this body.
pub open spec fn decision(data: Request, headers: HeaderMap, raw_body: Seq<char>) -> Option<
    Decoder,
> {
    negotiation(data, usable_content_type(header_lines(headers)), raw_body)
}

/// The content type of a response that can be used: the first value of its
/// `Content-Type` header, where it is text.
pub fn content_type(headers: &HeaderMap) -> (r: Option<String>)
    ensures
        r is Some <==> usable_content_type(header_lines(*headers)) is Some,
        r matches Some(s) ==> usable_content_type(header_lines(*headers)) == Some(s@),
{
    proof {
        reveal_strlit("Content-Type");
        reveal_strlit("content-type");
        assert(is_plain_name("Content-Type"@));
        assert(ascii_lowercase("Content-Type"@) =~= "content-type"@);
    }
    header_get_text(headers, "Content-Type")
}

/// The decoder that a content type selects.
pub fn decoder_for_media_type(media_type: &String) -> (r: Option<Decoder>)
    ensures
        r == decoder_for(media_type@),
{
    if *media_type == String::from_str("application/json") {
        Some(Decoder::Json)
    } else if *media_type == String::from_str("application/yaml") || *media_type
        == String::from_str("application/x-yaml") {
        Some(Decoder::Yaml)
    } else {
        None
    }
}

/// The decoder that the request forces.
pub fn forced(data: &Request) -> (r: Option<Decoder>)
    ensures
        r == forced_decoder(*data),
{
    if let Some(true) = data.force_json_decode {
        Some(Decoder::Json)
    } else if let Some(true) = data.force_yaml_decode {
        Some(Decoder::Yaml)
    } else {
        None
    }
}

/// The content type as plain text.
pub open spec fn text_of(content_type: Option<String>) -> Option<Seq<char>> {
    match content_type {
        Some(s) => Some(s@),
        None => None,
    }
}

/// Decides with which decoder the body of a response is read, if with any,
/// from the request, the usable content type of the response and the body.
pub fn negotiate(data: &Request, content_type: &Option<String>, raw_body: &str) -> (r: Option<
    Decoder,
>)
    ensures
        r == negotiation(*data, text_of(*content_type), raw_body@),
{
    if raw_body.is_empty() {
        return None;
    }
    match content_type {
        Some(media_type) => decoder_for_media_type(media_type),
        None => forced(data),
    }
}

/// The body that a JSON reading gives: the document, or the failure of the
/// call.
pub fn json_body(parsed: Result<serde_json::Value, serde_json::Error>) -> (r: Result<
    Option<BodyType>,
    HttpError,
>)
    ensures
        match parsed {
            Ok(v) => r == Ok::<Option<BodyType>, HttpError>(Some(BodyType::Json(v))),
            Err(e) => r == Err::<Option<BodyType>, HttpError>(
                HttpError::Decode(DecodeFault::Json(e)),
            ),
        },
{
    match parsed {
        Ok(v) => Ok(Some(BodyType::Json(v))),
        Err(e) => Err(HttpError::Decode(DecodeFault::Json(e))),
    }
}

/// The body that a YAML reading gives: the document, or the failure of the
/// call.
pub fn yaml_body(parsed: Result<serde_yaml::Value, serde_yaml::Error>) -> (r: Result<
    Option<BodyType>,
    HttpError,
>)
    ensures
        match parsed {
            Ok(v) => r == Ok::<Option<BodyType>, HttpError>(Some(BodyType::Yaml(v))),
            Err(e) => r == Err::<Option<BodyType>, HttpError>(
                HttpError::Decode(DecodeFault::Yaml(e)),
            ),
        },
{
    match parsed {
        Ok(v) => Ok(Some(BodyType::Yaml(v))),
        Err(e) => Err(HttpError::Decode(DecodeFault::Yaml(e))),
    }
}

/// Whether `r` is what decoding `raw_body` under the decision `how` gives.
/// A malformed body fails the call: it is never passed off as a body that
/// was not decoded.
pub open spec fn is_decoding(
    how: Option<Decoder>,
    raw_body: Seq<char>,
    r: Result<Option<BodyType>, HttpError>,
) -> bool {
    match how {
        None => r == Ok::<Option<BodyType>, HttpError>(None),
        Some(Decoder::Json) => match json_document(raw_body) {
            Some(v) => r == Ok::<Option<BodyType>, HttpError>(Some(BodyType::Json(v))),
            None => r matches Err(HttpError::Decode(DecodeFault::Json(_))),
        },
        Some(Decoder::Yaml) => match yaml_document(raw_body) {
            Some(v) => r == Ok::<Option<BodyType>, HttpError>(Some(BodyType::Yaml(v))),
            None => r matches Err(HttpError::Decode(DecodeFault::Yaml(_))),
        },
    }
}

/// Decodes the body of a response as content negotiation decides.
pub fn decode_body(data: &Request, headers: &HeaderMap, raw_body: &str) -> (r: Result<
    Option<BodyType>,
    HttpError,
>)
    ensures
        is_decoding(decision(*data, *headers, raw_body@), raw_body@, r),
{
    let found = content_type(headers);
    match negotiate(data, &found, raw_body) {
        None => Ok(None),
        Some(Decoder::Json) => json_body(parse_json(raw_body)),
        Some(Decoder::Yaml) => yaml_body(parse_yaml(raw_body)),
    }
}

} // verus!
