//! Byte-string helpers: header-name comparison and decimal rendering.

use vstd::prelude::*;
use vstd::string::StringSliceAdditionalSpecFns;

verus! {

/// The ASCII lower-case form of a byte; bytes outside `A..=Z` are unchanged.
pub open spec fn fold_byte(b: u8) -> u8 {
    if 65 <= b && b <= 90 {
        (b + 32) as u8
    } else {
        b
    }
}

/// Two header names denote the same header: equal up to ASCII case.
pub open spec fn same_name(a: Seq<u8>, b: Seq<u8>) -> bool {
    &&& a.len() == b.len()
    &&& forall|i: int| 0 <= i < a.len() ==> fold_byte(#[trigger] a[i]) == fold_byte(b[i])
}

/// The decimal digits of `n`, most significant first, without leading zeros.
pub open spec fn decimal(n: nat) -> Seq<u8>
    decreases n,
{
    if n < 10 {
        seq![(48 + n) as u8]
    } else {
        decimal(n / 10).push((48 + n % 10) as u8)
    }
}

/// The bytes of a string literal.
pub open spec fn literal(s: &str) -> Seq<u8> {
    s.spec_bytes()
}

/// Folds one byte to ASCII lower case.
pub fn lower_byte(b: u8) -> (folded: u8)
    ensures
        folded == fold_byte(b),
{
    if 65 <= b && b <= 90 {
        b + 32
    } else {
        b
    }
}

/// Compares two header names, ignoring ASCII case.
pub fn names_match(a: &[u8], b: &[u8]) -> (same: bool)
    ensures
        same == same_name(a@, b@),
{
    if a.len() != b.len() {
        return false;
    }
    let mut i: usize = 0;
    while i < a.len()
        invariant
            i <= a.len(),
            a.len() == b.len(),
            forall|j: int| 0 <= j < i ==> fold_byte(#[trigger] a@[j]) == fold_byte(b@[j]),
        decreases a.len() - i,
    {
        if lower_byte(a[i]) != lower_byte(b[i]) {
            return false;
        }
        i = i + 1;
    }
    true
}

/// Renders `n` in decimal.
pub fn to_decimal(n: u128) -> (digits: Vec<u8>)
    ensures
        digits@ == decimal(n as nat),
    decreases n,
{
    if n < 10 {
        let digit: u8 = (48 + n) as u8;
        let digits: Vec<u8> = vec![digit];
        assert(digits@ =~= decimal(n as nat));
        digits
    } else {
        let mut digits = to_decimal(n / 10);
        let digit: u8 = (48 + n % 10) as u8;
        digits.push(digit);
        digits
    }
}

/// Copies the bytes of a string literal into a vector.
pub fn literal_bytes(s: &str) -> (bytes: Vec<u8>)
    ensures
        bytes@ == literal(s),
{
    let source = s.as_bytes();
    let mut bytes: Vec<u8> = Vec::new();
    let mut i: usize = 0;
    while i < source.len()
        invariant
            i <= source.len(),
            bytes@ == source@.subrange(0, i as int),
        decreases source.len() - i,
    {
        bytes.push(source[i]);
        assert(source@.subrange(0, i + 1) =~= source@.subrange(0, i as int).push(source@[i as int]));
        i = i + 1;
    }
    assert(source@.subrange(0, source@.len() as int) =~= source@);
    bytes
}

} // verus!
