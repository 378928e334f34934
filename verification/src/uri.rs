//! The URI collaborator: a value type constructible from text, with a
//! distinguishable error for an invalid URI and a second one for an
//! invalid reconstruction from parts. The rest of the crate only
//! stores and moves `Uri` values; it never inspects them.

use vstd::prelude::*;

use crate::text::text_eq;

verus! {

/// Whether `c` may appear in URI text: the visible ASCII characters
/// (no spaces, no control characters).
pub open spec fn is_uri_char(c: char) -> bool {
    33 <= c as u32 <= 126
}

/// Whether `s` is accepted as URI text: non-empty, visible ASCII.
pub open spec fn is_valid_uri_text(s: Seq<char>) -> bool {
    &&& s.len() > 0
    &&& forall|i: int| 0 <= i < s.len() ==> is_uri_char(s[i])
}

/// The separator written between a scheme and an authority.
pub open spec fn scheme_separator() -> Seq<char> {
    "://"@
}

/// Whether scheme, authority and path are accepted for reconstruction:
/// scheme and authority non-empty and of URI characters, the path of
/// URI characters and either empty or starting with a slash.
pub open spec fn are_valid_uri_parts(scheme: Seq<char>, authority: Seq<char>, path: Seq<char>) -> bool {
    &&& scheme.len() > 0
    &&& forall|i: int| 0 <= i < scheme.len() ==> is_uri_char(scheme[i])
    &&& authority.len() > 0
    &&& forall|i: int| 0 <= i < authority.len() ==> is_uri_char(authority[i])
    &&& forall|i: int| 0 <= i < path.len() ==> is_uri_char(path[i])
    &&& (path.len() == 0 || path[0] == '/')
}

/// The error returned when text is not a valid URI.
#[derive(Debug)]
pub struct InvalidUri {
    message: String,
}

impl View for InvalidUri {
    type V = Seq<char>;

    /// The error's message.
    closed spec fn view(&self) -> Seq<char> {
        self.message@
    }
}

/// The message every `InvalidUri` carries.
pub open spec fn invalid_uri_message() -> Seq<char> {
    "invalid uri"@
}

impl InvalidUri {
    /// The error's message, unmodified.
    pub fn message(&self) -> (r: &str)
        ensures
            r@ == self@,
    {
        self.message.as_str()
    }
}

impl Clone for InvalidUri {
    fn clone(&self) -> (r: Self)
        ensures
            r@ == self@,
    {
        InvalidUri { message: self.message.clone() }
    }
}

/// The error returned when parts do not reconstruct a valid URI.
#[derive(Debug)]
pub struct InvalidUriParts {
    message: String,
}

impl View for InvalidUriParts {
    type V = Seq<char>;

    /// The error's message.
    closed spec fn view(&self) -> Seq<char> {
        self.message@
    }
}

/// The message every `InvalidUriParts` carries.
pub open spec fn invalid_uri_parts_message() -> Seq<char> {
    "invalid uri parts"@
}

impl InvalidUriParts {
    /// The error's message, unmodified.
    pub fn message(&self) -> (r: &str)
        ensures
            r@ == self@,
    {
        self.message.as_str()
    }
}

impl Clone for InvalidUriParts {
    fn clone(&self) -> (r: Self)
        ensures
            r@ == self@,
    {
        InvalidUriParts { message: self.message.clone() }
    }
}

/// A URI, stored as the text that parsing accepted.
#[derive(Debug)]
pub struct Uri {
    text: String,
}

impl View for Uri {
    type V = Seq<char>;

    /// The URI's text.
    closed spec fn view(&self) -> Seq<char> {
        self.text@
    }
}

/// Whether every character of `s` is a URI character.
fn all_uri_chars(s: &str) -> (r: bool)
    ensures
        r == forall|i: int| 0 <= i < s@.len() ==> is_uri_char(s@[i]),
{
    let n = s.unicode_len();
    let mut i: usize = 0;
    while i < n
        invariant
            n == s@.len(),
            i <= n,
            forall|j: int| 0 <= j < i ==> is_uri_char(s@[j]),
        decreases n - i,
    {
        let c = s.get_char(i);
        let x = c as u32;
        if x < 33 || x > 126 {
            return false;
        }
        i += 1;
    }
    true
}

impl Uri {
    /// Parses URI text; text that is empty or holds a character that
    /// is not visible ASCII is rejected with `InvalidUri`.
    pub fn parse(s: &str) -> (r: Result<Uri, InvalidUri>)
        ensures
            r is Ok <==> is_valid_uri_text(s@),
            r matches Ok(u) ==> u@ == s@,
            r matches Err(e) ==> e@ == invalid_uri_message(),
    {
        if s.unicode_len() == 0 || !all_uri_chars(s) {
            Err(InvalidUri { message: String::from_str("invalid uri") })
        } else {
            Ok(Uri { text: s.to_owned() })
        }
    }

    /// Reconstructs a URI as `scheme "://" authority path`; parts that
    /// `are_valid_uri_parts` rejects fail with `InvalidUriParts`.
    pub fn from_parts(scheme: &str, authority: &str, path: &str) -> (r: Result<
        Uri,
        InvalidUriParts,
    >)
        ensures
            r is Ok <==> are_valid_uri_parts(scheme@, authority@, path@),
            r matches Ok(u) ==> u@ == scheme@ + scheme_separator() + authority@ + path@,
            r matches Err(e) ==> e@ == invalid_uri_parts_message(),
    {
        let parts_ok = scheme.unicode_len() > 0 && all_uri_chars(scheme)
            && authority.unicode_len() > 0 && all_uri_chars(authority) && all_uri_chars(path)
            && (path.unicode_len() == 0 || path.get_char(0) == '/');
        if !parts_ok {
            return Err(InvalidUriParts { message: String::from_str("invalid uri parts") });
        }
        let mut text = scheme.to_owned();
        text.append("://");
        text.append(authority);
        text.append(path);
        Ok(Uri { text })
    }

    /// The URI's text.
    pub fn as_text(&self) -> (r: &str)
        ensures
            r@ == self@,
    {
        self.text.as_str()
    }

    /// Whether two URIs hold the same text.
    pub fn text_equals(&self, other: &Uri) -> (r: bool)
        ensures
            r == (self@ == other@),
    {
        text_eq(self.text.as_str(), other.text.as_str())
    }
}

impl Clone for Uri {
    fn clone(&self) -> (r: Self)
        ensures
            r@ == self@,
    {
        Uri { text: self.text.clone() }
    }
}

impl Default for Uri {
    /// The default URI is the bare path `"/"`.
    fn default() -> (r: Self)
        ensures
            r@ == "/"@,
    {
        Uri { text: String::from_str("/") }
    }
}

} // verus!
