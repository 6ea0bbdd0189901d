//! The health service: answers with the server's version.
use vstd::prelude::*;
use crate::channel::proto::{HealthCheckRequest, HealthCheckResponse};
use crate::channel::status::GrpcStatus;

verus! {

pub struct HealthServiceHandler {
    version: String,
}

impl HealthServiceHandler {
    pub closed spec fn version(&self) -> Seq<char> {
        self.version@
    }

    pub fn new(version: String) -> (r: Self)
        ensures
            r.version() == version@,
    {
        HealthServiceHandler { version }
    }

    /// Always healthy; reports the configured version.
    pub fn health_check(&self, request: HealthCheckRequest) -> (r: Result<HealthCheckResponse, GrpcStatus>)
        ensures
            r matches Ok(resp) && resp.version@ == self.version(),
    {
        Ok(HealthCheckResponse { version: self.version.clone() })
    }
}

} // verus!
