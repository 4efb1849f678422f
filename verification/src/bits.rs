//! Bits of a byte, stated by division so that they mix with ordinary
//! arithmetic.

use vstd::prelude::*;

verus! {

/// Two to the power `n`, for the bit positions of a byte.
pub open spec fn pow2(n: nat) -> nat {
    if n == 0 {
        1
    } else if n == 1 {
        2
    } else if n == 2 {
        4
    } else if n == 3 {
        8
    } else if n == 4 {
        16
    } else if n == 5 {
        32
    } else if n == 6 {
        64
    } else {
        128
    }
}

/// Whether bit `n` of `value` is set.
pub open spec fn bit_of(value: int, n: nat) -> bool {
    (value / pow2(n) as int) % 2 == 1
}

/// `value` with bit `n` set.
pub open spec fn with_bit(value: u8, n: nat) -> u8 {
    if bit_of(value as int, n) {
        value
    } else {
        (value + pow2(n)) as u8
    }
}

/// `value` with bit `n` cleared.
pub open spec fn without_bit(value: u8, n: nat) -> u8 {
    if bit_of(value as int, n) {
        (value - pow2(n)) as u8
    } else {
        value
    }
}

/// Two to the power `n` for `n` below 8.
pub fn power_of_two(n: u8) -> (r: u8)
    requires
        n < 8,
    ensures
        r == pow2(n as nat),
{
    if n == 0 {
        1
    } else if n == 1 {
        2
    } else if n == 2 {
        4
    } else if n == 3 {
        8
    } else if n == 4 {
        16
    } else if n == 5 {
        32
    } else if n == 6 {
        64
    } else {
        128
    }
}

/// Whether bit `n` of `value` is set.
pub fn bit(value: u8, n: u8) -> (r: bool)
    requires
        n < 8,
    ensures
        r == bit_of(value as int, n as nat),
{
    (value / power_of_two(n)) % 2 == 1
}

/// `value` with bit `n` set.
pub fn set_bit(value: u8, n: u8) -> (r: u8)
    requires
        n < 8,
    ensures
        r == with_bit(value, n as nat),
        bit_of(r as int, n as nat),
{
    if bit(value, n) {
        value
    } else {
        let p = power_of_two(n);
        assert(value + p < 256) by {
            lemma_bit_room(value, n as nat);
        }
        assert(bit_of((value + p) as int, n as nat)) by {
            lemma_bit_room(value, n as nat);
        }
        value + p
    }
}

/// `value` with bit `n` cleared.
pub fn clear_bit(value: u8, n: u8) -> (r: u8)
    requires
        n < 8,
    ensures
        r == without_bit(value, n as nat),
        !bit_of(r as int, n as nat),
{
    if bit(value, n) {
        let p = power_of_two(n);
        assert(value >= p && !bit_of((value - p) as int, n as nat)) by {
            lemma_bit_room(value, n as nat);
        }
        value - p
    } else {
        value
    }
}

/// A byte whose bit `n` is clear has room for it, and one whose bit `n` is
/// set is at least that large; adding or taking the bit flips it.
pub proof fn lemma_bit_room(value: u8, n: nat)
    requires
        n < 8,
    ensures
        !bit_of(value as int, n) ==> value + pow2(n) < 256 && bit_of(value + pow2(n), n),
        bit_of(value as int, n) ==> value >= pow2(n) && !bit_of(value - pow2(n), n),
{
    let p = pow2(n) as int;
    let q = value as int / p;
    assert(value == q * p + value as int % p) by (nonlinear_arith)
        requires
            p > 0,
            q == value as int / p,
    ;
    if n == 0 {
    } else if n == 1 {
    } else if n == 2 {
    } else if n == 3 {
    } else if n == 4 {
    } else if n == 5 {
    } else if n == 6 {
    } else {
    }
}

} // verus!
