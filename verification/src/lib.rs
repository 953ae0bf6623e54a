//! Verified core of a binding to the DTrace tracing library: the classification
//! of the library's error codes, the decoding of its fixed-size name buffers,
//! the session handle, and the bridge that turns native probe records into
//! owned probe descriptions for a consumer.

pub mod err;
pub mod probe;
pub mod session;
pub mod text;

pub use err::Error;
pub use probe::Probe;
pub use session::DTrace;
