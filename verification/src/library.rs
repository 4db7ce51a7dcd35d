use vstd::prelude::*;

verus! {

/// True when the bit at `offset` (counting from the least significant end)
/// of `val` is 1.
pub open spec fn bit_is_set(val: u8, offset: u8) -> bool {
    (val >> offset) & 1 != 0
}

/// Isolates a specific bit from a byte, useful for bitflag checks.
pub fn isolate_bit_u8(val: u8, offset: u8) -> (r: u8)
    requires
        offset < 8,
    ensures
        r == (val >> offset) & 1,
        (r != 0) == bit_is_set(val, offset),
{
    (val >> offset) & 0x1
}

} // verus!
