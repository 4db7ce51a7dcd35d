use vstd::prelude::*;

use crate::library::bit_is_set;

verus! {

/// The seven condition bits of the processor status register.
///
/// Bit layout of the packed byte, most significant bit first:
/// 7 negative, 6 overflow, 5 unused (always 1 in the packed form),
/// 4 break_command, 3 decimal_mode, 2 interrupt_disable, 1 zero, 0 carry.
#[derive(Clone, Copy, Debug, PartialEq, Eq, Structural)]
pub struct Flags {
    pub carry: bool,
    pub zero: bool,
    pub interrupt_disable: bool,
    pub decimal_mode: bool,
    pub break_command: bool,
    pub overflow: bool,
    pub negative: bool,
}

/// The packed 8-bit encoding of the status register; bit 5 is always 1.
pub open spec fn spec_pack(f: Flags) -> u8 {
    (if f.negative { 0x80u8 } else { 0u8 }) | (if f.overflow { 0x40u8 } else { 0u8 }) | 0x20u8
        | (if f.break_command { 0x10u8 } else { 0u8 }) | (if f.decimal_mode {
        0x08u8
    } else {
        0u8
    }) | (if f.interrupt_disable { 0x04u8 } else { 0u8 }) | (if f.zero { 0x02u8 } else { 0u8 })
        | (if f.carry { 0x01u8 } else { 0u8 })
}

/// The flags encoded by a packed status byte; bit 5 carries no flag and is
/// ignored.
pub open spec fn spec_unpack(v: u8) -> Flags {
    Flags {
        carry: bit_is_set(v, 0),
        zero: bit_is_set(v, 1),
        interrupt_disable: bit_is_set(v, 2),
        decimal_mode: bit_is_set(v, 3),
        break_command: bit_is_set(v, 4),
        overflow: bit_is_set(v, 6),
        negative: bit_is_set(v, 7),
    }
}

impl Default for Flags {
    /// All seven flags start cleared.
    fn default() -> (r: Self)
        ensures
            r == (Flags {
                carry: false,
                zero: false,
                interrupt_disable: false,
                decimal_mode: false,
                break_command: false,
                overflow: false,
                negative: false,
            }),
    {
        Flags {
            carry: false,
            zero: false,
            interrupt_disable: false,
            decimal_mode: false,
            break_command: false,
            overflow: false,
            negative: false,
        }
    }
}

impl Flags {
    /// Serializes the flags into the packed byte, bit 5 forced to 1.
    pub fn into_u8(&self) -> (r: u8)
        ensures
            r == spec_pack(*self),
    {
        (if self.negative { 0x80u8 } else { 0u8 }) | (if self.overflow { 0x40u8 } else { 0u8 })
            | 0x20u8 | (if self.break_command { 0x10u8 } else { 0u8 }) | (if self.decimal_mode {
            0x08u8
        } else {
            0u8
        }) | (if self.interrupt_disable { 0x04u8 } else { 0u8 }) | (if self.zero {
            0x02u8
        } else {
            0u8
        }) | (if self.carry { 0x01u8 } else { 0u8 })
    }

    /// Restores all seven flags from the corresponding bits of `val`;
    /// bit 5 is ignored.
    pub fn from_u8(&mut self, val: u8)
        ensures
            *final(self) == spec_unpack(val),
    {
        self.negative = crate::library::isolate_bit_u8(val, 7) != 0;
        self.overflow = crate::library::isolate_bit_u8(val, 6) != 0;
        self.break_command = crate::library::isolate_bit_u8(val, 4) != 0;
        self.decimal_mode = crate::library::isolate_bit_u8(val, 3) != 0;
        self.interrupt_disable = crate::library::isolate_bit_u8(val, 2) != 0;
        self.zero = crate::library::isolate_bit_u8(val, 1) != 0;
        self.carry = crate::library::isolate_bit_u8(val, 0) != 0;
    }
}

/// Law: each bit of the packed status byte holds exactly the flag the layout
/// assigns to it, and bit 5 is always set.
pub proof fn lemma_pack_bits(f: Flags)
    ensures
        bit_is_set(spec_pack(f), 7) == f.negative,
        bit_is_set(spec_pack(f), 6) == f.overflow,
        bit_is_set(spec_pack(f), 5),
        bit_is_set(spec_pack(f), 4) == f.break_command,
        bit_is_set(spec_pack(f), 3) == f.decimal_mode,
        bit_is_set(spec_pack(f), 2) == f.interrupt_disable,
        bit_is_set(spec_pack(f), 1) == f.zero,
        bit_is_set(spec_pack(f), 0) == f.carry,
{
    let n: u8 = if f.negative { 0x80 } else { 0 };
    let o: u8 = if f.overflow { 0x40 } else { 0 };
    let b: u8 = if f.break_command { 0x10 } else { 0 };
    let d: u8 = if f.decimal_mode { 0x08 } else { 0 };
    let i: u8 = if f.interrupt_disable { 0x04 } else { 0 };
    let z: u8 = if f.zero { 0x02 } else { 0 };
    let c: u8 = if f.carry { 0x01 } else { 0 };
    let v: u8 = n | o | 0x20 | b | d | i | z | c;
    assert((((v >> 7) & 1 != 0) == (n == 0x80)) && (((v >> 6) & 1 != 0) == (o == 0x40)) && ((v
        >> 5) & 1 != 0) && (((v >> 4) & 1 != 0) == (b == 0x10)) && (((v >> 3) & 1 != 0) == (d
        == 0x08)) && (((v >> 2) & 1 != 0) == (i == 0x04)) && (((v >> 1) & 1 != 0) == (z == 0x02))
        && (((v >> 0) & 1 != 0) == (c == 0x01))) by (bit_vector)
        requires
            n == 0x80 || n == 0,
            o == 0x40 || o == 0,
            b == 0x10 || b == 0,
            d == 0x08 || d == 0,
            i == 0x04 || i == 0,
            z == 0x02 || z == 0,
            c == 0x01 || c == 0,
            v == n | o | 0x20 | b | d | i | z | c,
    ;
}

/// Law: unpacking a packed status byte restores every flag exactly
/// (bit 5 of the packed form carries no flag, so it drops out).
pub proof fn lemma_status_round_trip(f: Flags)
    ensures
        spec_unpack(spec_pack(f)) == f,
{
    lemma_pack_bits(f);
}

} // verus!
