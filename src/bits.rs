use vstd::prelude::*;
use bit_field::BitField;

verus! {

/// Whether bit `n` of `v` is one.
pub open spec fn bit_of(v: u32, n: u32) -> bool {
    v & (1u32 << n) != 0
}

/// `v` with bit `n` set to one when `b` holds, else cleared.
pub open spec fn with_bit(v: u32, n: u32, b: bool) -> u32 {
    if b {
        v | (1u32 << n)
    } else {
        v & !(1u32 << n)
    }
}

/// Relies on `bit_field::BitField::get_bit` for `u32`: `v & (1 << bit) != 0`; it
/// panics when `bit` is 32 or more.
#[verifier::external_body]
pub(crate) fn get_bit(v: u32, bit: usize) -> (r: bool)
    requires
        bit < 32,
    ensures
        r == bit_of(v, bit as u32),
{
    v.get_bit(bit)
}

/// Relies on `bit_field::BitField::set_bit` for `u32`: ors in `1 << bit` when
/// `value` holds, else ands with its complement; it panics when `bit` is 32 or more.
#[verifier::external_body]
pub(crate) fn set_bit(v: &mut u32, bit: usize, value: bool)
    requires
        bit < 32,
    ensures
        *final(v) == with_bit(*old(v), bit as u32, value),
{
    v.set_bit(bit, value);
}

} // verus!
