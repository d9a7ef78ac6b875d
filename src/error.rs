//! The kinds of failure the client reports, each distinct so that a caller can
//! choose its own message and exit code.

use vstd::prelude::*;

verus! {

/// A failure of a request or of reading what came back.
#[derive(Clone, Copy, Debug, PartialEq, Eq, Structural)]
pub enum ApiError {
    /// The connection failed or the server answered with a non-success status.
    TransportFailure,
    /// The body is not valid JSON or lacks a required field.
    DecodeFailure,
    /// The page holds no start marker of the embedded JSON.
    MarkerNotFound,
    /// The start marker is there but no end marker follows it.
    UnterminatedPayload,
    /// The embedded JSON parses but not into the search-page shape.
    SchemaMismatch,
    /// The page is a block page served by upstream protection.
    Blocked,
}

/// The description of each kind of failure.
pub open spec fn message_spec(e: ApiError) -> Seq<char> {
    match e {
        ApiError::TransportFailure => "Failed to fetch from the server"@,
        ApiError::DecodeFailure => "Failed to parse the response"@,
        ApiError::MarkerNotFound => "Could not find __NEXT_DATA__ in page"@,
        ApiError::UnterminatedPayload => "Could not find end of __NEXT_DATA__"@,
        ApiError::SchemaMismatch => "Failed to parse __NEXT_DATA__ JSON"@,
        ApiError::Blocked => "Access denied by CDN - please try again later"@,
    }
}

impl ApiError {
    /// A one-line description for people.
    pub fn message(&self) -> (r: &'static str)
        ensures
            r@ == message_spec(*self),
    {
        match self {
            ApiError::TransportFailure => "Failed to fetch from the server",
            ApiError::DecodeFailure => "Failed to parse the response",
            ApiError::MarkerNotFound => "Could not find __NEXT_DATA__ in page",
            ApiError::UnterminatedPayload => "Could not find end of __NEXT_DATA__",
            ApiError::SchemaMismatch => "Failed to parse __NEXT_DATA__ JSON",
            ApiError::Blocked => "Access denied by CDN - please try again later",
        }
    }
}

} // verus!
