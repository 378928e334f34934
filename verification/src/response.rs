//! The HTTP response envelope: a status code, a version and headers,
//! composed with a caller-supplied body of any type. Composition is
//! structural; the envelope never inspects or mutates its body.

use vstd::prelude::*;

use crate::header::HeaderMap;
use crate::status::StatusCode;
use crate::version::Version;

verus! {

/// Component parts of an HTTP response: the head fields and the body.
#[derive(Debug, Clone)]
pub struct Response<T> {
    /// The response's status.
    pub status: StatusCode,
    /// The response's version.
    pub version: Version,
    /// The response's headers.
    pub headers: HeaderMap,
    /// The response's body, owned by the envelope.
    pub body: T,
}

impl<T> Response<T> {
    /// Assembles a response fully formed from its four parts; every
    /// part is carried unchanged.
    pub fn new(status: StatusCode, version: Version, headers: HeaderMap, body: T) -> (r: Response<
        T,
    >)
        ensures
            r.status == status,
            r.version == version,
            r.headers == headers,
            r.body == body,
    {
        Response { status, version, headers, body }
    }
}

} // verus!
