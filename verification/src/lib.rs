//! Safe, verified core of a binding to a hardware performance-counter
//! runtime: version negotiation, error translation, thread-identity
//! assignment, counter-name resolution, and the start/stop state machine
//! of a grouped counter set.
//!
//! Everything that talks to the native runtime itself (process spawning,
//! the C entry points) lives outside this crate; this crate holds the
//! decisions and data that can be stated and proved.

pub mod counter;
pub mod errors;
pub mod events_set;
pub mod thread_registry;
pub mod version;

pub use errors::check_error;
pub use errors::Action;
pub use errors::ErrorKind;
pub use errors::PapiError;
pub use version::papi_version_number;
