//! Numbers with a fraction, kept as the bits of a double.

use vstd::prelude::*;

verus! {

/// The bit that holds the sign.
pub const SIGN: u64 = 0x8000_0000_0000_0000;

/// The bits of positive infinity. Larger ones stand for no number.
pub const INFINITY: u64 = 0x7ff0_0000_0000_0000;

/// The bits without the sign.
pub open spec fn magnitude(bits: u64) -> int {
    if bits >= SIGN {
        bits - SIGN
    } else {
        bits as int
    }
}

/// Whether the bits stand for a number, or for an infinity.
pub open spec fn is_number(bits: u64) -> bool {
    magnitude(bits) <= INFINITY
}

/// Whether the bits stand for the same number. The two zeros are the same, and what is no number is
/// not even the same as itself.
pub open spec fn same_number(a: u64, b: u64) -> bool {
    &&& is_number(a) && is_number(b)
    &&& a == b || (magnitude(a) == 0 && magnitude(b) == 0)
}

/// Whether the bits of two lists stand for the same numbers.
pub open spec fn same_numbers(a: Seq<u64>, b: Seq<u64>) -> bool {
    &&& a.len() == b.len()
    &&& forall|i: int| 0 <= i < a.len() ==> same_number(#[trigger] a[i], b[i])
}

fn without_sign(bits: u64) -> (r: u64)
    ensures
        r == magnitude(bits),
{
    if bits >= SIGN {
        bits - SIGN
    } else {
        bits
    }
}

/// Whether the bits stand for the same number.
pub fn number_eq(a: u64, b: u64) -> (r: bool)
    ensures
        r == same_number(a, b),
{
    let a_size: u64 = without_sign(a);
    let b_size: u64 = without_sign(b);
    a_size <= INFINITY && b_size <= INFINITY && (a == b || (a_size == 0 && b_size == 0))
}

/// Whether the bits of two lists stand for the same numbers.
pub fn numbers_eq(a: &Vec<u64>, b: &Vec<u64>) -> (r: bool)
    ensures
        r == same_numbers(a@, b@),
{
    if a.len() != b.len() {
        return false;
    }
    for i in 0..a.len()
        invariant
            a@.len() == b@.len(),
            forall|j: int| 0 <= j < i ==> same_number(#[trigger] a@[j], b@[j]),
    {
        if !number_eq(a[i], b[i]) {
            return false;
        }
    }
    true
}

/// Being the same number is symmetric, carries over from one pair to the next, and holds of every
/// number and itself.
pub proof fn sameness_is_an_equivalence_on_numbers(a: u64, b: u64, c: u64)
    ensures
        is_number(a) <==> same_number(a, a),
        same_number(a, b) ==> same_number(b, a),
        same_number(a, b) && same_number(b, c) ==> same_number(a, c),
{
}

} // verus!
