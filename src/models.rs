use vstd::prelude::*;

verus! {

/// Why the server accepted or refused a connection.
#[derive(Clone, Copy, Debug, PartialEq, Eq, Structural)]
pub enum ConnectionReason {
    Success,
    InvalidKey,
    InvalidName,
    InvalidJobs,
    InvalidPayload,
}

/// The first message of a session, sent bare (not inside an envelope).
#[derive(Clone, Debug)]
pub struct ConnectionRequest {
    pub client_secret: Option<String>,
    pub friendly_name: Option<String>,
    pub jobs_available: Option<Vec<String>>,
}

/// The server's answer to a `ConnectionRequest`.
#[derive(Clone, Copy, Debug, PartialEq, Eq, Structural)]
pub struct ConnectionResponse {
    pub success: bool,
    pub reason: ConnectionReason,
}

/// A liveness probe, and its acknowledgement.
#[derive(Clone, Debug)]
pub struct Heartbeat {
    pub timestamp: String,
    pub acknowledged: Option<String>,
}

/// The envelope of every inbound message; `job_name` is the route and
/// `job_data` an embedded JSON document. A job request carries a second
/// envelope of the same shape, whose `job_name` names the job to run.
#[derive(Clone, Debug)]
pub struct JobRequest {
    pub job_id: String,
    pub job_name: String,
    pub job_data: String,
    pub client_name: String,
}

/// The outcome of a job request (or the acknowledgement of a heartbeat).
#[derive(Clone, Debug)]
pub struct JobResponse {
    pub job_id: String,
    pub success: bool,
    pub is_async: bool,
    pub result: Option<String>,
}

} // verus!
