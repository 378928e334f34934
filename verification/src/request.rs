//! The HTTP request envelope: a method, a URI, a version and headers,
//! composed with a caller-supplied body of any type. Composition is
//! structural; the envelope never inspects or mutates its body.

use vstd::prelude::*;

use crate::header::HeaderMap;
use crate::method::Method;
use crate::uri::Uri;
use crate::version::Version;

verus! {

/// Component parts of an HTTP request: the head fields and the body.
#[derive(Debug, Clone)]
pub struct Request<T> {
    /// The request's method.
    pub method: Method,
    /// The request's URI.
    pub uri: Uri,
    /// The request's version.
    pub version: Version,
    /// The request's headers.
    pub headers: HeaderMap,
    /// The request's body, owned by the envelope.
    pub body: T,
}

impl<T> Request<T> {
    /// Assembles a request fully formed from its five parts; every
    /// part is carried unchanged.
    pub fn new(method: Method, uri: Uri, version: Version, headers: HeaderMap, body: T) -> (r:
        Request<T>)
        ensures
            r.method == method,
            r.uri == uri,
            r.version == version,
            r.headers == headers,
            r.body == body,
    {
        Request { method, uri, version, headers, body }
    }
}

impl<T: Default> Default for Request<T> {
    /// An empty GET request for `"/"` over HTTP/1.1, with the body's
    /// own default.
    fn default() -> (r: Self)
        ensures
            r.method is Get,
            r.uri@ == "/"@,
            r.version is Http11,
            r.headers@ == Seq::<crate::header::EntryView>::empty(),
            r.headers.wf(),
    {
        Request {
            method: Method::default(),
            uri: Uri::default(),
            version: Version::default(),
            headers: HeaderMap::new(),
            body: T::default(),
        }
    }
}

} // verus!
