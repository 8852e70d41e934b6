//! Health service.

use vstd::prelude::*;

use crate::error::ClientError;

pub mod health_proto;

verus! {

/// Reads the replies of the health service.
pub struct HealthClient;

impl HealthClient {
    /// Read the reply to a health check: whether the engine is ready.
    pub fn check(reply: Result<health_proto::HealthResponse, tonic::Status>) -> (r: Result<
        bool,
        ClientError,
    >)
        ensures
            match reply {
                Err(s) => r == Err::<bool, ClientError>(ClientError::Status(s)),
                Ok(m) => r == Ok::<bool, ClientError>(
                    m.status == health_proto::EngineStatus::Ready,
                ),
            },
    {
        match reply {
            Err(s) => Err(ClientError::from(s)),
            Ok(m) => Ok(m.status == health_proto::EngineStatus::Ready),
        }
    }
}

/// The engine is ready exactly where it says that it is ready; a refusal is handed on.
pub proof fn law_ready_means_ready(
    reply: Result<health_proto::HealthResponse, tonic::Status>,
    r: Result<bool, ClientError>,
)
    requires
        call_ensures(HealthClient::check, (reply,), r),
    ensures
        reply matches Err(s) ==> r matches Err(ClientError::Status(t)) && t == s,
        reply matches Ok(m) ==> {
            &&& r is Ok
            &&& m.status is Ready ==> r->Ok_0
            &&& m.status is Other ==> !r->Ok_0
        },
{
}

} // verus!
