//! The single error type of the crate: a sum over the failures of the
//! fallible constructors (URI parsing, URI reconstruction, status-code
//! validation). Each source error converts into it losslessly, so the
//! original detail stays inspectable through the wrapping variant.

use vstd::prelude::*;

use crate::uri::InvalidUri;
use crate::uri::InvalidUriParts;

verus! {

/// Any error produced by this crate's fallible constructors.
#[derive(Debug)]
pub enum Error {
    /// URI text was rejected; the underlying error is carried whole.
    Uri(InvalidUri),
    /// URI parts were rejected; the underlying error is carried whole.
    UriParts(InvalidUriParts),
    /// A status code was outside the three-digit range.
    InvalidStatusCode,
}

impl Error {
    /// The message of an error: the failure category for an invalid
    /// status code, and the underlying error's own message, unmodified,
    /// for a wrapped error.
    pub open spec fn spec_message(self) -> Seq<char> {
        match self {
            Error::Uri(e) => e@,
            Error::UriParts(e) => e@,
            Error::InvalidStatusCode => "invalid status code"@,
        }
    }

    /// Renders the error's message.
    pub fn message(&self) -> (r: String)
        ensures
            r@ == self.spec_message(),
    {
        match self {
            Error::Uri(e) => String::from_str(e.message()),
            Error::UriParts(e) => String::from_str(e.message()),
            Error::InvalidStatusCode => String::from_str("invalid status code"),
        }
    }
}

impl From<InvalidUri> for Error {
    /// Wraps a URI-parse failure, keeping the error whole.
    fn from(err: InvalidUri) -> (r: Error) {
        Error::Uri(err)
    }
}

impl vstd::std_specs::convert::FromSpecImpl<InvalidUri> for Error {
    open spec fn obeys_from_spec() -> bool {
        true
    }

    open spec fn from_spec(v: InvalidUri) -> Error {
        Error::Uri(v)
    }
}

impl From<InvalidUriParts> for Error {
    /// Wraps a URI-reconstruction failure, keeping the error whole.
    fn from(err: InvalidUriParts) -> (r: Error) {
        Error::UriParts(err)
    }
}

impl vstd::std_specs::convert::FromSpecImpl<InvalidUriParts> for Error {
    open spec fn obeys_from_spec() -> bool {
        true
    }

    open spec fn from_spec(v: InvalidUriParts) -> Error {
        Error::UriParts(v)
    }
}

/// Law: wrapping a source error into the unified type loses nothing.
/// The wrapped error is the variant's payload, and the unified error's
/// message is the source error's message, verbatim.
pub proof fn lemma_error_wrapping_lossless(e: InvalidUri, p: InvalidUriParts)
    ensures
        <Error as vstd::std_specs::convert::FromSpec<InvalidUri>>::from_spec(e) == Error::Uri(e),
        <Error as vstd::std_specs::convert::FromSpec<InvalidUriParts>>::from_spec(p)
            == Error::UriParts(p),
        Error::Uri(e).spec_message() == e@,
        Error::UriParts(p).spec_message() == p@,
{
}

} // verus!
