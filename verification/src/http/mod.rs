//! HTTP request/response building and parsing.

pub mod headers;
pub mod request;
pub mod response;

pub use headers::Headers;
pub use request::Request;
pub use response::Response;
