//! The outcome of the one fetch that a load session makes.

use vstd::prelude::*;

verus! {

/// How a fetch ended.
#[derive(Clone, Copy, Debug, PartialEq, Eq, Structural)]
pub enum FetchStatus {
    /// The transport succeeded and the server answered 200.
    Success,
    /// The request never got an answer.
    TransportError,
    /// The server answered with another code than 200.
    HttpError(i64),
}

/// The one result of one fetch. A failed fetch keeps no payload.
#[derive(Debug)]
pub struct FetchResult {
    pub status: FetchStatus,
    pub payload: Option<Vec<u8>>,
}

/// The status of a completed fetch: it succeeded when the transport did and
/// the response code is 200.
pub open spec fn fetch_status(result: i64, response_code: i64) -> FetchStatus {
    if result != 0 {
        FetchStatus::TransportError
    } else if response_code != 200 {
        FetchStatus::HttpError(response_code)
    } else {
        FetchStatus::Success
    }
}

impl FetchResult {
    /// The result kept the payload exactly when the fetch succeeded.
    pub open spec fn well_formed(&self) -> bool {
        self.status is Success <==> self.payload is Some
    }

    /// Builds the result of a completed fetch: the status, and the body
    /// where the fetch succeeded. The body of a failed fetch is dropped.
    pub fn new(result: i64, response_code: i64, body: Vec<u8>) -> (r: FetchResult)
        ensures
            r.status == fetch_status(result, response_code),
            r.status is Success ==> r.payload == Some(body),
            !(r.status is Success) ==> r.payload is None,
            r.well_formed(),
    {
        if result != 0 {
            FetchResult { status: FetchStatus::TransportError, payload: None }
        } else if response_code != 200 {
            FetchResult { status: FetchStatus::HttpError(response_code), payload: None }
        } else {
            FetchResult { status: FetchStatus::Success, payload: Some(body) }
        }
    }
}

} // verus!
