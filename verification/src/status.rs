//! The HTTP status code: a number constrained to the inclusive range
//! [100, 599]. No instance outside that range can exist; construction
//! from an out-of-range number fails with the unified error type.

use vstd::prelude::*;

use crate::error::Error;
use vstd::std_specs::cmp::PartialOrdSpec;

verus! {

/// The character of one decimal digit.
pub open spec fn digit_char(d: int) -> char {
    ((48 + d) as u8) as char
}

/// The three-digit decimal text of a status number.
pub open spec fn status_text(n: int) -> Seq<char> {
    seq![digit_char(n / 100), digit_char((n / 10) % 10), digit_char(n % 10)]
}

/// An HTTP status code, always within [100, 599].
#[derive(Debug, Clone, Copy, PartialEq, Eq, Structural, Hash)]
pub struct StatusCode {
    code: u16,
}

impl View for StatusCode {
    type V = int;

    /// The numeric value of the status code.
    closed spec fn view(&self) -> int {
        self.code as int
    }
}

impl StatusCode {
    /// The range invariant: every status code is three decimal digits.
    #[verifier::type_invariant]
    pub closed spec fn range_invariant(self) -> bool {
        100 <= self.code <= 599
    }

    /// Constructs a status code; numbers outside [100, 599] fail with
    /// `Error::InvalidStatusCode`, and no other construction path
    /// exists.
    pub fn from_u16(n: u16) -> (r: Result<StatusCode, Error>)
        ensures
            r is Ok <==> 100 <= n <= 599,
            r matches Ok(c) ==> c@ == n,
            r matches Err(e) ==> e is InvalidStatusCode,
    {
        if 100 <= n && n <= 599 {
            Ok(StatusCode { code: n })
        } else {
            Err(Error::InvalidStatusCode)
        }
    }

    /// The numeric value, always within [100, 599].
    pub fn as_u16(&self) -> (r: u16)
        ensures
            r == self@,
            100 <= r <= 599,
    {
        proof {
            use_type_invariant(self);
        }
        self.code
    }

    /// The three-digit decimal text of the status code.
    pub fn to_text(&self) -> (r: String)
        ensures
            r@ == status_text(self@),
    {
        proof {
            use_type_invariant(self);
        }
        let d0 = (self.code / 100) as u8;
        let d1 = ((self.code / 10) % 10) as u8;
        let d2 = (self.code % 10) as u8;
        let mut s = String::from_str(digit_text(d0));
        s.append(digit_text(d1));
        s.append(digit_text(d2));
        proof {
            assert(s@ =~= status_text(self@));
        }
        s
    }
}

impl PartialOrd for StatusCode {
    fn partial_cmp(&self, other: &StatusCode) -> (r: Option<core::cmp::Ordering>) {
        if self.code < other.code {
            Some(core::cmp::Ordering::Less)
        } else if self.code == other.code {
            Some(core::cmp::Ordering::Equal)
        } else {
            Some(core::cmp::Ordering::Greater)
        }
    }
}

impl vstd::std_specs::cmp::PartialOrdSpecImpl for StatusCode {
    open spec fn obeys_partial_cmp_spec() -> bool {
        true
    }

    open spec fn partial_cmp_spec(&self, other: &StatusCode) -> Option<core::cmp::Ordering> {
        if self@ < other@ {
            Some(core::cmp::Ordering::Less)
        } else if self@ == other@ {
            Some(core::cmp::Ordering::Equal)
        } else {
            Some(core::cmp::Ordering::Greater)
        }
    }
}

/// The one-character text of a decimal digit.
fn digit_text(d: u8) -> (r: &'static str)
    requires
        d < 10,
    ensures
        r@ =~= seq![digit_char(d as int)],
{
    proof {
        reveal_strlit("0");
        reveal_strlit("1");
        reveal_strlit("2");
        reveal_strlit("3");
        reveal_strlit("4");
        reveal_strlit("5");
        reveal_strlit("6");
        reveal_strlit("7");
        reveal_strlit("8");
        reveal_strlit("9");
    }
    match d {
        0 => "0",
        1 => "1",
        2 => "2",
        3 => "3",
        4 => "4",
        5 => "5",
        6 => "6",
        7 => "7",
        8 => "8",
        _ => "9",
    }
}

/// Law: ordering status codes compares their numeric values.
pub proof fn lemma_status_order(a: StatusCode, b: StatusCode)
    ensures
        a.partial_cmp_spec(&b) == Some(core::cmp::Ordering::Less) <==> a@ < b@,
        a.partial_cmp_spec(&b) == Some(core::cmp::Ordering::Equal) <==> a@ == b@,
{
}

/// Law: the three-digit text of a status number in [100, 599] is made
/// of decimal digits and evaluates back to the number itself.
pub proof fn lemma_status_text_reproduces(n: int)
    requires
        100 <= n <= 599,
    ensures
        status_text(n).len() == 3,
        forall|i: int| 0 <= i < 3 ==> 48 <= #[trigger] status_text(n)[i] as int <= 57,
        (status_text(n)[0] as int - 48) * 100 + (status_text(n)[1] as int - 48) * 10 + (
        status_text(n)[2] as int - 48) == n,
{
    assert(1 <= n / 100 <= 5);
    assert(0 <= (n / 10) % 10 <= 9);
    assert(0 <= n % 10 <= 9);
    assert(digit_char(n / 100) as int == 48 + n / 100);
    assert(digit_char((n / 10) % 10) as int == 48 + (n / 10) % 10);
    assert(digit_char(n % 10) as int == 48 + n % 10);
    assert((n / 100) * 100 + ((n / 10) % 10) * 10 + n % 10 == n) by (nonlinear_arith)
        requires
            100 <= n <= 599,
    ;
}

} // verus!
