//! The HTTP request method (verb): the eight methods of RFC 7231 plus
//! PATCH, with their safety and idempotency classification and their
//! case-insensitive textual form.

use vstd::prelude::*;

use crate::text::eq_ignore_ascii_case;
use crate::text::text_eq_ignore_case;

verus! {

/// The request method.
///
/// A closed enumeration: exactly one tag per request. The textual form
/// is the canonical uppercase token; parsing accepts any case.
#[derive(Debug, Clone, PartialEq, Eq, Structural, Hash)]
pub enum Method {
    Options,
    Get,
    Post,
    Put,
    Delete,
    Head,
    Trace,
    Connect,
    Patch,
}

/// The canonical uppercase token of each method.
pub open spec fn token_of(m: Method) -> Seq<char> {
    match m {
        Method::Options => "OPTIONS"@,
        Method::Get => "GET"@,
        Method::Post => "POST"@,
        Method::Put => "PUT"@,
        Method::Delete => "DELETE"@,
        Method::Head => "HEAD"@,
        Method::Trace => "TRACE"@,
        Method::Connect => "CONNECT"@,
        Method::Patch => "PATCH"@,
    }
}

/// The method whose token matches `s` case-insensitively, if any.
pub open spec fn method_of_text(s: Seq<char>) -> Option<Method> {
    if eq_ignore_ascii_case(s, token_of(Method::Options)) {
        Some(Method::Options)
    } else if eq_ignore_ascii_case(s, token_of(Method::Get)) {
        Some(Method::Get)
    } else if eq_ignore_ascii_case(s, token_of(Method::Post)) {
        Some(Method::Post)
    } else if eq_ignore_ascii_case(s, token_of(Method::Put)) {
        Some(Method::Put)
    } else if eq_ignore_ascii_case(s, token_of(Method::Delete)) {
        Some(Method::Delete)
    } else if eq_ignore_ascii_case(s, token_of(Method::Head)) {
        Some(Method::Head)
    } else if eq_ignore_ascii_case(s, token_of(Method::Trace)) {
        Some(Method::Trace)
    } else if eq_ignore_ascii_case(s, token_of(Method::Connect)) {
        Some(Method::Connect)
    } else if eq_ignore_ascii_case(s, token_of(Method::Patch)) {
        Some(Method::Patch)
    } else {
        None
    }
}

impl Method {
    /// Whether the method is "safe": the request is essentially
    /// read-only (RFC 7231, section 4.2.1).
    pub fn is_safe(&self) -> (r: bool)
        ensures
            r == (self is Get || self is Head || self is Options || self is Trace),
    {
        matches!(self, Method::Get | Method::Head | Method::Options | Method::Trace)
    }

    /// Whether the method is "idempotent": repeating the request has
    /// the same result as issuing it once (RFC 7231, section 4.2.2).
    /// True exactly for PUT, DELETE and the safe methods.
    pub fn is_idempotent(&self) -> (r: bool)
        ensures
            r == (self is Put || self is Delete || self is Get || self is Head
                || self is Options || self is Trace),
    {
        match self {
            Method::Put | Method::Delete => true,
            _ => self.is_safe(),
        }
    }

    /// The canonical uppercase token of the method.
    pub fn to_text(&self) -> (r: &'static str)
        ensures
            r@ == token_of(*self),
    {
        match self {
            Method::Options => "OPTIONS",
            Method::Get => "GET",
            Method::Post => "POST",
            Method::Put => "PUT",
            Method::Delete => "DELETE",
            Method::Head => "HEAD",
            Method::Trace => "TRACE",
            Method::Connect => "CONNECT",
            Method::Patch => "PATCH",
        }
    }

    /// Parses a method token, accepting any mix of ASCII case; any
    /// text that matches none of the nine tokens is rejected.
    pub fn parse(s: &str) -> (r: Option<Method>)
        ensures
            r == method_of_text(s@),
    {
        if text_eq_ignore_case(s, "OPTIONS") {
            Some(Method::Options)
        } else if text_eq_ignore_case(s, "GET") {
            Some(Method::Get)
        } else if text_eq_ignore_case(s, "POST") {
            Some(Method::Post)
        } else if text_eq_ignore_case(s, "PUT") {
            Some(Method::Put)
        } else if text_eq_ignore_case(s, "DELETE") {
            Some(Method::Delete)
        } else if text_eq_ignore_case(s, "HEAD") {
            Some(Method::Head)
        } else if text_eq_ignore_case(s, "TRACE") {
            Some(Method::Trace)
        } else if text_eq_ignore_case(s, "CONNECT") {
            Some(Method::Connect)
        } else if text_eq_ignore_case(s, "PATCH") {
            Some(Method::Patch)
        } else {
            None
        }
    }

    /// All nine methods, in declaration order.
    pub fn all() -> (r: Vec<Method>)
        ensures
            r@ =~= seq![
                Method::Options,
                Method::Get,
                Method::Post,
                Method::Put,
                Method::Delete,
                Method::Head,
                Method::Trace,
                Method::Connect,
                Method::Patch,
            ],
    {
        let mut v: Vec<Method> = Vec::new();
        v.push(Method::Options);
        v.push(Method::Get);
        v.push(Method::Post);
        v.push(Method::Put);
        v.push(Method::Delete);
        v.push(Method::Head);
        v.push(Method::Trace);
        v.push(Method::Connect);
        v.push(Method::Patch);
        v
    }
}

/// No text matches the tokens of two distinct methods, even up to
/// ASCII case: every pair of tokens differs in length or in the
/// uppercase code of its first character.
proof fn lemma_token_determines(s: Seq<char>, m1: Method, m2: Method)
    requires
        eq_ignore_ascii_case(s, token_of(m1)),
        eq_ignore_ascii_case(s, token_of(m2)),
    ensures
        m1 == m2,
{
    reveal_strlit("OPTIONS");
    reveal_strlit("GET");
    reveal_strlit("POST");
    reveal_strlit("PUT");
    reveal_strlit("DELETE");
    reveal_strlit("HEAD");
    reveal_strlit("TRACE");
    reveal_strlit("CONNECT");
    reveal_strlit("PATCH");
    assert(s.len() > 0);
    assert(crate::text::upper_code(s[0]) == crate::text::upper_code(token_of(m1)[0]));
    assert(crate::text::upper_code(s[0]) == crate::text::upper_code(token_of(m2)[0]));
}

/// Law: parsing is the case-insensitive inverse of printing. Any text
/// that matches a method's token up to ASCII case parses back to that
/// method; in particular the canonical token itself does.
pub proof fn lemma_method_parse_round_trip(m: Method, s: Seq<char>)
    requires
        eq_ignore_ascii_case(s, token_of(m)),
    ensures
        method_of_text(s) == Some(m),
{
    let r = method_of_text(s);
    assert(r is Some);
    let m2 = r.unwrap();
    assert(eq_ignore_ascii_case(s, token_of(m2)));
    lemma_token_determines(s, m, m2);
}

/// Law: for every method, parsing its canonical token gives the
/// method back.
pub proof fn lemma_method_canonical_round_trip(m: Method)
    ensures
        method_of_text(token_of(m)) == Some(m),
{
    assert(eq_ignore_ascii_case(token_of(m), token_of(m)));
    lemma_method_parse_round_trip(m, token_of(m));
}

impl Default for Method {
    /// The default method is GET.
    fn default() -> (r: Self)
        ensures
            r is Get,
    {
        Method::Get
    }
}

} // verus!
