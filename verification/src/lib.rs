//! A minimal, allocation-aware vocabulary of core HTTP message concepts:
//! request methods, protocol versions, status codes, ordered header
//! multimaps, and generic request/response envelopes, unified under a
//! single error type for all fallible constructors.

pub mod error;
pub mod header;
pub mod method;
pub mod request;
pub mod response;
pub mod status;
pub mod text;
pub mod uri;
pub mod version;

pub use error::Error;
pub use header::HeaderMap;
pub use method::Method;
pub use request::Request;
pub use response::Response;
pub use status::StatusCode;
pub use uri::Uri;
pub use version::Version;
