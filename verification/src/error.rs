//! The failures of one call.

use vstd::prelude::*;

verus! {

/// `reqwest::Error`, the failure of building a client or of a round trip.
#[verifier::external_type_specification]
#[verifier::external_body]
pub struct ExReqwestError(reqwest::Error);

/// `reqwest_middleware::Error`, the failure of a round trip through
/// middleware.
#[verifier::external_type_specification]
#[verifier::external_body]
pub struct ExMiddlewareError(reqwest_middleware::Error);

/// `http::Error`, the refusal of a header name or value.
#[verifier::external_type_specification]
#[verifier::external_body]
pub struct ExHttpError(http::Error);

/// `serde_json::Error`, the refusal of a text as JSON.
#[verifier::external_type_specification]
#[verifier::external_body]
pub struct ExJsonError(serde_json::Error);

/// `serde_yaml::Error`, the refusal of a text as YAML.
#[verifier::external_type_specification]
#[verifier::external_body]
pub struct ExYamlError(serde_yaml::Error);

/// An option that a request may name but that is not implemented.
#[derive(Clone, Copy, Debug, PartialEq, Eq, Structural)]
pub enum UnsupportedField {
    RaiseError,
    TlsCaCert,
    TlsClientKey,
    TlsServerName,
    TlsUseSystemCert,
    TlsCaCertFile,
    TlsClientKeyFile,
    TlsCaCertEnvVariable,
    TlsClientKeyEnvVariable,
    TlsInsecureSkipVerify,
    CachingMode,
    ForceCacheDurationSeconds,
}

/// Why the headers of a request could not be put on it.
#[derive(Debug)]
pub enum HeaderFault {
    /// The request names more headers than a request is assembled with.
    TooMany,
    /// A name or a value is not valid for transmission.
    Invalid(http::Error),
}

/// Why a body could not be decoded.
#[derive(Debug)]
pub enum DecodeFault {
    /// The body was read as JSON and is not a JSON document.
    Json(serde_json::Error),
    /// The body was read as YAML and is not a YAML document.
    Yaml(serde_yaml::Error),
}

/// The failure of a call. A call that fails yields no response.
#[derive(Debug)]
pub enum HttpError {
    /// The request names an option that is not implemented. Found before any
    /// client is built.
    UnsupportedOption(UnsupportedField),
    /// The transport client could not be built.
    TransportConstruction(reqwest::Error),
    /// A header of the request cannot be encoded.
    HeaderEncoding(HeaderFault),
    /// The round trip failed: no connection, a timeout, a broken body.
    Network(reqwest_middleware::Error),
    /// A decoding of the body was attempted and the body is malformed.
    Decode(DecodeFault),
}

} // verus!
