//! Supervision of a single long-running worker process.
//!
//! The library is the decision core of a small process supervisor: it owns
//! the state that says whether a worker process is held, decides how each
//! start, stop and status request changes that state, and classifies the
//! outcome of an HTTP health probe. The operating-system calls themselves
//! (spawning, signalling, waiting, the HTTP round-trip) are performed by the
//! embedding application, which feeds their observed outcomes back into the
//! decision functions here.

pub mod health;
pub mod numfmt;
pub mod supervisor;

pub use health::HealthError;
pub use health::classify_health;
pub use health::get_backend_url;
pub use supervisor::Liveness;
pub use supervisor::StopOutcome;
pub use supervisor::Supervisor;
pub use supervisor::SupervisorError;
