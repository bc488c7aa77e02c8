//! A typed gateway over the backend's HTTP API. Each operation is one GET;
//! the transport's outcome is handed to a fixed policy that either returns
//! the operation's neutral value or reports an error.

pub mod fallback;
pub mod laws;
pub mod operation;
pub mod records;
