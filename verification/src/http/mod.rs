//! The transport-facing half of the client: how a response is classified,
//! which failures are worth retrying, how long to wait, and the client-side
//! token bucket. The sockets themselves are driven by the application layer.

pub mod error;
pub mod headers;
pub mod retry;
pub mod retry_after;
pub mod throttle;
pub mod transport;
