//! The envelopes in which a message bus carries requests for data and the
//! answers to them. What the cache holds is the usual payload of an answer.

use crate::identifiers::ClientId;
use nautilus_core::uuid::UUID4;
use vstd::prelude::*;

verus! {

/// A version 4 UUID. The envelopes carry it and never look inside.
#[verifier::external_type_specification]
#[verifier::external_body]
pub struct ExUuid4(UUID4);

/// A request for data.
pub struct DataRequest {
    /// The id of this request.
    pub request_id: UUID4,
    /// The id that ties the answer to this request.
    pub correlation_id: UUID4,
    /// The client that asks.
    pub client_id: ClientId,
}

/// An answer to a request for data, with a payload of type `T`. The type of
/// the payload is fixed where the answer is built, so that reading it back
/// needs no cast.
pub struct DataResponse<T> {
    /// The id of this answer.
    pub response_id: UUID4,
    /// The correlation id of the request that is answered.
    pub correlation_id: UUID4,
    /// The client that asked.
    pub client_id: ClientId,
    /// The payload.
    pub data: T,
}

impl DataRequest {
    /// Builds a request from its parts.
    pub fn new(request_id: UUID4, correlation_id: UUID4, client_id: ClientId) -> (request: Self)
        ensures
            request.request_id == request_id,
            request.correlation_id == correlation_id,
            request.client_id == client_id,
    {
        DataRequest { request_id, correlation_id, client_id }
    }
}

impl<T> DataResponse<T> {
    /// Builds an answer from its parts.
    pub fn new(response_id: UUID4, correlation_id: UUID4, client_id: ClientId, data: T) -> (response:
        Self)
        ensures
            response.response_id == response_id,
            response.correlation_id == correlation_id,
            response.client_id == client_id,
            response.data == data,
    {
        DataResponse { response_id, correlation_id, client_id, data }
    }

    /// Builds the answer to `request`: it carries the correlation id and the
    /// client of the request.
    pub fn answering(request: &DataRequest, response_id: UUID4, data: T) -> (response: Self)
        ensures
            response.response_id == response_id,
            response.correlation_id == request.correlation_id,
            response.client_id@ == request.client_id@,
            response.data == data,
    {
        DataResponse {
            response_id,
            correlation_id: request.correlation_id,
            client_id: request.client_id.duplicate(),
            data,
        }
    }

    /// Hands out the payload.
    pub fn into_data(self) -> (data: T)
        ensures
            data == self.data,
    {
        self.data
    }
}

} // verus!
