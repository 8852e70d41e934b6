//! Client error types.

use vstd::prelude::*;

verus! {

/// `tonic::transport::Error`: a failure of the connection, carried as it came.
#[verifier::external_type_specification]
#[verifier::external_body]
pub struct ExTransportError(tonic::transport::Error);

/// `tonic::Status`: the engine's refusal of a call, carried as it came.
#[verifier::external_type_specification]
#[verifier::external_body]
pub struct ExStatus(tonic::Status);

/// What can go wrong with a call.
#[derive(Debug)]
pub enum ClientError {
    /// The connection failed.
    Transport(tonic::transport::Error),
    /// The engine refused the call.
    Status(tonic::Status),
    /// The engine's reply lacks what it must hold.
    Internal(String),
}

impl From<tonic::transport::Error> for ClientError {
    fn from(e: tonic::transport::Error) -> (r: Self) {
        ClientError::Transport(e)
    }
}

impl vstd::std_specs::convert::FromSpecImpl<tonic::transport::Error> for ClientError {
    open spec fn obeys_from_spec() -> bool {
        true
    }

    open spec fn from_spec(e: tonic::transport::Error) -> Self {
        ClientError::Transport(e)
    }
}

impl From<tonic::Status> for ClientError {
    fn from(s: tonic::Status) -> (r: Self) {
        ClientError::Status(s)
    }
}

impl vstd::std_specs::convert::FromSpecImpl<tonic::Status> for ClientError {
    open spec fn obeys_from_spec() -> bool {
        true
    }

    open spec fn from_spec(s: tonic::Status) -> Self {
        ClientError::Status(s)
    }
}

impl ClientError {
    /// The error is `Internal`, with this text.
    pub open spec fn is_internal(self, text: Seq<char>) -> bool {
        self matches ClientError::Internal(t) && t@ == text
    }

    /// The error for a reply that must hold a payload and does not.
    pub fn missing_payload() -> (r: Self)
        ensures
            r.is_internal("missing payload"@),
    {
        ClientError::Internal("missing payload".into())
    }
}

/// An error of the connection and a refusal of the engine are carried as they came, each in its
/// own variant, and a missing payload is an internal error that says so.
pub proof fn law_errors_are_carried_as_they_came(
    e: tonic::transport::Error,
    from_e: ClientError,
    s: tonic::Status,
    from_s: ClientError,
    missing: ClientError,
)
    requires
        call_ensures(<ClientError as From<tonic::transport::Error>>::from, (e,), from_e),
        call_ensures(<ClientError as From<tonic::Status>>::from, (s,), from_s),
        call_ensures(ClientError::missing_payload, (), missing),
    ensures
        from_e == ClientError::Transport(e),
        from_s == ClientError::Status(s),
        missing matches ClientError::Internal(t) && t@ == "missing payload"@,
{
}

} // verus!
