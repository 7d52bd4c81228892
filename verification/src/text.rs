//! String helpers: comparison, concatenation and decimal numbers.

use vstd::prelude::*;

verus! {

/// `String::push` of the standard library: the character is appended to the end of the string.
pub assume_specification[ String::push ](s: &mut String, c: char)
    ensures
        final(s)@ == old(s)@.push(c),
;

/// The decimal digit `d`.
pub open spec fn digit(d: nat) -> char {
    (('0' as int) + d) as char
}

/// The decimal representation of `n`, without leading zeros.
pub open spec fn decimal(n: nat) -> Seq<char>
    decreases n,
{
    if n < 10 {
        seq![digit(n)]
    } else {
        decimal(n / 10).push(digit(n % 10))
    }
}

/// Whether two string slices hold the same characters.
pub fn same_text(a: &str, b: &str) -> (same: bool)
    ensures
        same == (a@ == b@),
{
    let a: String = a.to_owned();
    let b: String = b.to_owned();
    a == b
}

/// The characters of an optional string.
pub open spec fn opt_text(s: Option<String>) -> Option<Seq<char>> {
    match s {
        Some(s) => Some(s@),
        None => None,
    }
}

/// The characters of `s`, in order.
pub fn chars_of(s: &str) -> (v: Vec<char>)
    ensures
        v@ == s@,
{
    let mut v: Vec<char> = Vec::new();
    for c in it: s.chars()
        invariant
            v@ == it.seq().take(it.index() as int),
    {
        v.push(c);
    }
    v
}

/// `a` followed by `b`.
pub fn join(a: &str, b: &str) -> (s: String)
    ensures
        s@ == a@ + b@,
{
    a.to_owned().concat(b)
}

/// The number `n` in decimal.
pub fn decimal_string(n: u64) -> (s: String)
    ensures
        s@ == decimal(n as nat),
    decreases n,
{
    if n < 10 {
        let mut s = String::new();
        s.push((48u8 + n as u8) as char);
        assert(s@ =~= decimal(n as nat));
        s
    } else {
        let mut s = decimal_string(n / 10);
        s.push((48u8 + (n % 10) as u8) as char);
        s
    }
}

/// The text `prefix` followed by the number `n` in decimal.
pub fn numbered(prefix: &str, n: u64) -> (s: String)
    ensures
        s@ == prefix@ + decimal(n as nat),
{
    let number = decimal_string(n);
    join(prefix, number.as_str())
}

/// Different numbers have different decimal representations.
pub proof fn decimal_is_injective(a: nat, b: nat)
    requires
        decimal(a) == decimal(b),
    ensures
        a == b,
    decreases a,
{
    assert(decimal(a).len() > 0);
    assert(decimal(b).len() > 0);
    assert(decimal(a).last() == digit(a % 10));
    assert(decimal(b).last() == digit(b % 10));
    assert(digit(a % 10) as int == ('0' as int) + a % 10);
    assert(digit(b % 10) as int == ('0' as int) + b % 10);
    if a >= 10 {
        assert(decimal(a / 10).len() > 0);
        assert(decimal(a).drop_last() =~= decimal(a / 10));
    }
    if b >= 10 {
        assert(decimal(b / 10).len() > 0);
        assert(decimal(b).drop_last() =~= decimal(b / 10));
    }
    if a >= 10 && b >= 10 {
        decimal_is_injective(a / 10, b / 10);
    }
}

/// Numbering one prefix with different numbers gives different texts.
pub proof fn numbering_is_injective(prefix: Seq<char>, a: nat, b: nat)
    requires
        prefix + decimal(a) == prefix + decimal(b),
    ensures
        a == b,
{
    let left = prefix + decimal(a);
    let right = prefix + decimal(b);
    assert(left.skip(prefix.len() as int) =~= decimal(a));
    assert(right.skip(prefix.len() as int) =~= decimal(b));
    decimal_is_injective(a, b);
}

} // verus!
