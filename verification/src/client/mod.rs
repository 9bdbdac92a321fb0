//! The client half: credentials and request headers, endpoint URLs, the query
//! parameters of the list endpoints, pagination, and the client's error type.

pub mod credentials;
pub mod error;
pub mod paging;
pub mod params;
pub mod url;
