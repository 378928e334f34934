//! Character-sequence comparisons used throughout the crate: exact
//! equality, strict lexicographic order by code point (the order of
//! header names), and ASCII case-insensitive equality (the order of
//! business for method tokens).

use vstd::prelude::*;

verus! {

/// The code point of `c` with an ASCII lowercase letter folded to its
/// uppercase counterpart; every other character maps to itself.
pub open spec fn upper_code(c: char) -> u32 {
    if 97 <= c as u32 && c as u32 <= 122 {
        (c as u32 - 32) as u32
    } else {
        c as u32
    }
}

/// ASCII case-insensitive equality of two character sequences.
pub open spec fn eq_ignore_ascii_case(a: Seq<char>, b: Seq<char>) -> bool {
    &&& a.len() == b.len()
    &&& forall|i: int| 0 <= i < a.len() ==> upper_code(a[i]) == upper_code(b[i])
}

/// Strict lexicographic order on character sequences by code point.
pub open spec fn lex_lt(a: Seq<char>, b: Seq<char>) -> bool
    decreases a.len(),
{
    if b.len() == 0 {
        false
    } else if a.len() == 0 {
        true
    } else if (a[0] as u32) < (b[0] as u32) {
        true
    } else if a[0] == b[0] {
        lex_lt(a.skip(1), b.skip(1))
    } else {
        false
    }
}

/// Dropping a common prefix does not change how two sequences compare.
proof fn lemma_lex_lt_skip(a: Seq<char>, b: Seq<char>, i: int)
    requires
        0 <= i <= a.len(),
        i <= b.len(),
        forall|j: int| 0 <= j < i ==> a[j] == b[j],
    ensures
        lex_lt(a, b) == lex_lt(a.skip(i), b.skip(i)),
    decreases i,
{
    if i == 0 {
        assert(a.skip(0) =~= a);
        assert(b.skip(0) =~= b);
    } else {
        assert(a.len() > 0 && b.len() > 0);
        assert(a[0] == b[0]);
        lemma_lex_lt_skip(a.skip(1), b.skip(1), i - 1);
        assert(a.skip(1).skip(i - 1) =~= a.skip(i));
        assert(b.skip(1).skip(i - 1) =~= b.skip(i));
    }
}

/// Two characters with the same code point are the same character.
proof fn lemma_char_code_injective(x: char, y: char)
    requires
        x as u32 == y as u32,
    ensures
        x == y,
{
}

/// Exactly one of `lex_lt(a, b)`, `a == b` and `lex_lt(b, a)` holds:
/// the order is total on character sequences.
pub proof fn lemma_lex_lt_trichotomy(a: Seq<char>, b: Seq<char>)
    ensures
        lex_lt(a, b) || a == b || lex_lt(b, a),
        lex_lt(a, b) ==> a != b && !lex_lt(b, a),
        a == b ==> !lex_lt(a, b) && !lex_lt(b, a),
    decreases a.len(),
{
    if a.len() == 0 && b.len() == 0 {
        assert(a =~= b);
    } else if a.len() > 0 && b.len() > 0 {
        if a[0] as u32 == b[0] as u32 {
            lemma_char_code_injective(a[0], b[0]);
        }
        if a[0] == b[0] {
            lemma_lex_lt_trichotomy(a.skip(1), b.skip(1));
            if a.skip(1) == b.skip(1) {
                assert forall|i: int| 0 <= i < a.len() implies a[i] == b[i] by {
                    if i > 0 {
                        assert(a.skip(1)[i - 1] == b.skip(1)[i - 1]);
                    }
                }
                assert(a =~= b);
            }
            if a == b {
                assert(a.skip(1) =~= b.skip(1));
            }
        }
    }
}

/// The order is transitive.
pub proof fn lemma_lex_lt_transitive(a: Seq<char>, b: Seq<char>, c: Seq<char>)
    requires
        lex_lt(a, b),
        lex_lt(b, c),
    ensures
        lex_lt(a, c),
    decreases a.len(),
{
    if a.len() > 0 && b.len() > 0 && c.len() > 0 {
        if a[0] == b[0] && b[0] == c[0] {
            lemma_lex_lt_transitive(a.skip(1), b.skip(1), c.skip(1));
        }
    }
}

/// The uppercase code point of a character.
pub fn char_upper_code(c: char) -> (r: u32)
    ensures
        r == upper_code(c),
{
    let x = c as u32;
    if 97 <= x && x <= 122 {
        x - 32
    } else {
        x
    }
}

/// Exact equality of the character sequences of two strings.
pub fn text_eq(a: &str, b: &str) -> (r: bool)
    ensures
        r == (a@ == b@),
{
    let alen = a.unicode_len();
    let blen = b.unicode_len();
    if alen != blen {
        return false;
    }
    let mut i: usize = 0;
    while i < alen
        invariant
            alen == a@.len(),
            blen == b@.len(),
            alen == blen,
            i <= alen,
            forall|j: int| 0 <= j < i ==> a@[j] == b@[j],
        decreases alen - i,
    {
        let ca = a.get_char(i);
        let cb = b.get_char(i);
        if ca != cb {
            return false;
        }
        i += 1;
    }
    proof {
        assert(a@ =~= b@);
    }
    true
}

/// Whether `a` comes strictly before `b` in lexicographic order.
pub fn text_lt(a: &str, b: &str) -> (r: bool)
    ensures
        r == lex_lt(a@, b@),
{
    let alen = a.unicode_len();
    let blen = b.unicode_len();
    let mut i: usize = 0;
    loop
        invariant
            alen == a@.len(),
            blen == b@.len(),
            i <= alen,
            i <= blen,
            forall|j: int| 0 <= j < i ==> a@[j] == b@[j],
        decreases alen - i,
    {
        if i == alen || i == blen {
            proof {
                lemma_lex_lt_skip(a@, b@, i as int);
            }
            return i == alen && i < blen;
        }
        let ca = a.get_char(i);
        let cb = b.get_char(i);
        if (ca as u32) < (cb as u32) {
            proof {
                lemma_lex_lt_skip(a@, b@, i as int);
            }
            return true;
        }
        if ca != cb {
            proof {
                lemma_lex_lt_skip(a@, b@, i as int);
            }
            return false;
        }
        i += 1;
    }
}

/// ASCII case-insensitive equality of two strings.
pub fn text_eq_ignore_case(a: &str, b: &str) -> (r: bool)
    ensures
        r == eq_ignore_ascii_case(a@, b@),
{
    let alen = a.unicode_len();
    let blen = b.unicode_len();
    if alen != blen {
        return false;
    }
    let mut i: usize = 0;
    while i < alen
        invariant
            alen == a@.len(),
            blen == b@.len(),
            alen == blen,
            i <= alen,
            forall|j: int| 0 <= j < i ==> upper_code(a@[j]) == upper_code(b@[j]),
        decreases alen - i,
    {
        let ca = a.get_char(i);
        let cb = b.get_char(i);
        if char_upper_code(ca) != char_upper_code(cb) {
            return false;
        }
        i += 1;
    }
    true
}

} // verus!
