//! The sequence of one call: validate, build the transport, assemble the
//! request; then, once the caller has made the round trip, decode what came
//! back and assemble the response. A failure at any stage ends the call with
//! that failure, and a call that fails yields no response.

use crate::assemble::{
    build_request, draft, has_too_many_headers, has_valid_headers, is_address, is_draft_of,
    PreparedRequest,
};
use crate::error::HttpError;
use crate::request::Request;
use crate::response::{complete, is_outcome, Response, Status};
use crate::transport::{build_client, CacheStore};
use crate::validate::{
    first_unsupported, has_unsupported, is_set, lemma_rejected_iff_unsupported,
    unimplemented_option,
};
use reqwest::header::HeaderMap;
use vstd::prelude::*;

verus! {

/// Whether `r` is an outcome of preparing the request. A request that names
/// an unimplemented option is rejected for it. Any other request either
/// fails in the building of its transport, or is assembled exactly when its
/// headers can be put on it. What is assembled is the request described, to
/// be sent by the transport described; where the address cannot be parsed,
/// the builder holds the error instead.
pub open spec fn is_preparation(
    data: Request,
    store: CacheStore,
    r: Result<PreparedRequest, HttpError>,
) -> bool {
    match first_unsupported(data) {
        Some(field) => r == Err::<PreparedRequest, HttpError>(
            HttpError::UnsupportedOption(field),
        ),
        None => match r {
            Ok(prepared) => {
                &&& has_valid_headers(data)
                &&& prepared.transport().is_for(data, store)
                &&& draft(prepared.builder()) is Some <==> is_address(data.url@)
                &&& draft(prepared.builder()) matches Some(d) ==> is_draft_of(
                    data,
                    prepared.transport().sender(),
                    d,
                )
            },
            Err(HttpError::TransportConstruction(_)) => true,
            Err(HttpError::HeaderEncoding(fault)) => {
                &&& !has_valid_headers(data)
                &&& if has_too_many_headers(data) {
                    fault is TooMany
                } else {
                    fault is Invalid
                }
            },
            Err(_) => false,
        },
    }
}

/// Prepares the call that a request describes, up to the point of sending:
/// validates its options, builds its transport over the cache store, and
/// assembles the request. Nothing is built for a request that is rejected,
/// and nothing is sent here.
pub fn prepare(data: &Request, store: &CacheStore) -> (r: Result<PreparedRequest, HttpError>)
    ensures
        is_preparation(*data, *store, r),
{
    unimplemented_option(data)?;
    let transport = build_client(data, store)?;
    build_request(data, transport)
}

/// A request that names any unimplemented option is never prepared: the call
/// fails with `UnsupportedOption` for a field that the request names, so
/// there is no request to send.
pub proof fn lemma_unsupported_is_rejected(
    data: Request,
    store: CacheStore,
    r: Result<PreparedRequest, HttpError>,
)
    requires
        has_unsupported(data),
        is_preparation(data, store, r),
    ensures
        r matches Err(HttpError::UnsupportedOption(field)) && is_set(data, field),
{
    lemma_rejected_iff_unsupported(data);
}

/// What came back over the wire.
#[derive(Debug)]
pub struct Reply {
    pub status: Status,
    pub headers: HeaderMap,
    pub raw_body: String,
}

/// Whether `r` is the outcome of a call whose round trip ended in
/// `round_trip`: the failure of the round trip, or the outcome of what came
/// back.
pub open spec fn is_result(
    data: Request,
    round_trip: Result<Reply, reqwest_middleware::Error>,
    r: Result<Response, HttpError>,
) -> bool {
    match round_trip {
        Ok(reply) => is_outcome(data, reply.status, reply.headers, reply.raw_body@, r),
        Err(e) => r == Err::<Response, HttpError>(HttpError::Network(e)),
    }
}

/// Ends a call with the outcome of its round trip: a round trip that failed
/// fails the call, and what came back is completed to the response.
pub fn finish(data: &Request, round_trip: Result<Reply, reqwest_middleware::Error>) -> (r: Result<
    Response,
    HttpError,
>)
    ensures
        is_result(*data, round_trip, r),
        round_trip matches Ok(reply) && reply.status.code() == 200 ==> (r matches Ok(response)
            ==> response.status@ == "200 OK"@),
{
    match round_trip {
        Ok(reply) => complete(data, reply.status, reply.headers, reply.raw_body),
        Err(e) => Err(HttpError::Network(e)),
    }
}

} // verus!
