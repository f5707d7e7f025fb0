//! Turning a request builder into what an HTTP client sends.
pub mod request;
