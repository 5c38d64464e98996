//! The health prober's decision logic and the fixed worker configuration.
//!
//! The worker serves a liveness endpoint at a fixed local address. The
//! embedding application performs the single HTTP round-trip (with a bounded
//! timeout) and hands its outcome — the status code, or the transport error
//! text — to [`classify_health`], which decides whether the worker counts as
//! healthy. The prober keeps no state and is independent of the supervisor's
//! slot: a process can be alive and not yet serving.

use crate::numfmt::decimal_rep;
use crate::numfmt::decimal_string;
use vstd::prelude::*;
use vstd::string::StringExecFns;

verus! {

/// Everything a health probe can fail with.
#[derive(Debug, PartialEq, Eq)]
pub enum HealthError {
    /// No HTTP response was obtained: connection refused, timeout, or name
    /// resolution failure. The text is the transport error.
    Unreachable(String),
    /// The endpoint answered, but with the given non-success status code.
    UnhealthyStatus(u16),
}

impl HealthError {
    /// The human-readable message for this error, as the embedding
    /// application reports it to its caller; the transport error text or the
    /// status code is carried along.
    pub fn message(&self) -> (r: String)
        ensures
            self is Unreachable ==> r@ == "Failed to connect to backend: "@
                + self->Unreachable_0@,
            self is UnhealthyStatus ==> r@ == "Backend returned status: "@ + decimal_rep(
                self->UnhealthyStatus_0 as nat,
            ),
    {
        match self {
            HealthError::Unreachable(e) => String::from_str(
                "Failed to connect to backend: ",
            ).concat(e.as_str()),
            HealthError::UnhealthyStatus(code) => String::from_str(
                "Backend returned status: ",
            ).concat(decimal_string(*code).as_str()),
        }
    }
}

/// The status codes that count as success: the HTTP 2xx range.
pub open spec fn is_success_code(code: u16) -> bool {
    200 <= code < 300
}

/// The base address the worker serves on.
pub open spec fn backend_url_spec() -> Seq<char> {
    "http://127.0.0.1:8765"@
}

/// Classify the outcome of one HTTP probe of the health endpoint.
///
/// A response with a success status code means the worker is healthy; any
/// other status code is `UnhealthyStatus` with that code, and a transport
/// failure is `Unreachable` with its error text.
pub fn classify_health(probe: Result<u16, String>) -> (r: Result<String, HealthError>)
    ensures
        r is Ok <==> (probe is Ok && is_success_code(probe->Ok_0)),
        r is Ok ==> r->Ok_0@ == "Backend is healthy"@,
        probe is Ok && !is_success_code(probe->Ok_0) ==> r == Result::<String, HealthError>::Err(
            HealthError::UnhealthyStatus(probe->Ok_0),
        ),
        probe is Err ==> r == Result::<String, HealthError>::Err(
            HealthError::Unreachable(probe->Err_0),
        ),
{
    match probe {
        Ok(code) => {
            if 200 <= code && code < 300 {
                Ok(String::from_str("Backend is healthy"))
            } else {
                Err(HealthError::UnhealthyStatus(code))
            }
        },
        Err(e) => Err(HealthError::Unreachable(e)),
    }
}

/// The base address of the worker's service, for callers that address the
/// worker directly.
pub fn get_backend_url() -> (r: String)
    ensures
        r@ == backend_url_spec(),
{
    String::from_str("http://127.0.0.1:8765")
}

/// The full address of the worker's health endpoint: the base address
/// followed by the health path.
pub fn health_endpoint_url() -> (r: String)
    ensures
        r@ == backend_url_spec() + "/health"@,
{
    let r = String::from_str("http://127.0.0.1:8765/health");
    proof {
        reveal_strlit("http://127.0.0.1:8765/health");
        reveal_strlit("http://127.0.0.1:8765");
        reveal_strlit("/health");
        assert(r@ =~= backend_url_spec() + "/health"@);
    }
    r
}

/// The ceiling, in seconds, on how long one health probe may block.
pub fn health_timeout_secs() -> (r: u64)
    ensures
        r == 5,
{
    5
}

/// The program the worker is started as.
pub fn worker_program() -> (r: String)
    ensures
        r@ == "python"@,
{
    String::from_str("python")
}

/// The argument handed to the worker program.
pub fn worker_script() -> (r: String)
    ensures
        r@ == "main.py"@,
{
    String::from_str("main.py")
}

/// The subdirectory of the application's working directory the worker runs
/// in.
pub fn worker_dir_name() -> (r: String)
    ensures
        r@ == "backend"@,
{
    String::from_str("backend")
}

} // verus!
