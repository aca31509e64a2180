use vstd::prelude::*;

verus! {

/// The error taxonomy of the facade.
///
/// Identity errors (`SessionNotFound`, `NotAuthenticated`,
/// `InvalidRoomIdentifier`) always surface to the caller as a client
/// error. `UpstreamProtocolError` and `Timeout` are produced by the
/// orchestrator for strict writes; for degradable reads they are
/// recovered locally and never reach the caller.
#[derive(Debug, Clone)]
pub enum ApiError {
    /// The request named a session id that the registry does not hold.
    SessionNotFound,
    /// The session exists but has not completed a successful login.
    NotAuthenticated,
    /// A room identifier did not match the accepted grammar.
    InvalidRoomIdentifier,
    /// The remote capability reported a failure; the detail is its text.
    UpstreamProtocolError(String),
    /// The operation's deadline elapsed; the field names the operation.
    Timeout(String),
    /// A payload could not be encoded or decoded.
    SerializationError,
}

/// The text that `ApiError::message` returns for each error.
pub open spec fn error_text(e: &ApiError) -> Seq<char> {
    match e {
        ApiError::SessionNotFound => "session not found"@,
        ApiError::NotAuthenticated => "not authenticated"@,
        ApiError::InvalidRoomIdentifier => "invalid room identifier"@,
        ApiError::UpstreamProtocolError(d) => "upstream protocol error: "@ + d@,
        ApiError::Timeout(op) => "timed out: "@ + op@,
        ApiError::SerializationError => "serialization error"@,
    }
}

impl ApiError {
    /// True exactly for the errors that the caller caused: a bad
    /// session id, a session that is not logged in, or a malformed
    /// room identifier.
    pub open spec fn is_client_error(&self) -> bool {
        match self {
            ApiError::SessionNotFound => true,
            ApiError::NotAuthenticated => true,
            ApiError::InvalidRoomIdentifier => true,
            _ => false,
        }
    }

    /// The HTTP status code under which the facade reports this error:
    /// client errors map to the 4xx range, upstream and encoding
    /// failures to 500.
    pub fn status_code(&self) -> (code: u16)
        ensures
            code == match self {
                ApiError::SessionNotFound => 400u16,
                ApiError::NotAuthenticated => 401u16,
                ApiError::InvalidRoomIdentifier => 400u16,
                ApiError::UpstreamProtocolError(_) => 500u16,
                ApiError::Timeout(_) => 500u16,
                ApiError::SerializationError => 500u16,
            },
            self.is_client_error() <==> 400 <= code < 500,
    {
        match self {
            ApiError::SessionNotFound => 400,
            ApiError::NotAuthenticated => 401,
            ApiError::InvalidRoomIdentifier => 400,
            ApiError::UpstreamProtocolError(_) => 500,
            ApiError::Timeout(_) => 500,
            ApiError::SerializationError => 500,
        }
    }

    /// A human-readable description of the error.
    pub fn message(&self) -> (text: String)
        ensures
            text@ == error_text(self),
    {
        match self {
            ApiError::SessionNotFound => String::from_str("session not found"),
            ApiError::NotAuthenticated => String::from_str("not authenticated"),
            ApiError::InvalidRoomIdentifier => String::from_str("invalid room identifier"),
            ApiError::UpstreamProtocolError(d) => String::from_str(
                "upstream protocol error: ",
            ).concat(d.as_str()),
            ApiError::Timeout(op) => String::from_str("timed out: ").concat(op.as_str()),
            ApiError::SerializationError => String::from_str("serialization error"),
        }
    }
}

} // verus!
