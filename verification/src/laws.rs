use vstd::prelude::*;

use crate::cpu::{
    hi_byte, lo_byte, make_word, sp_dec, sp_inc, spec_brk, spec_compare, spec_jsr, spec_lda,
    spec_ldx, spec_ldy, spec_pull, spec_push, spec_rti, spec_rts, stack_addr, CpuState,
};
use crate::flags::{lemma_status_round_trip, spec_pack, Flags};
use crate::library::bit_is_set;
use vstd::arithmetic::div_mod::lemma_fundamental_div_mod;

verus! {

/// Law: loading a value into any register stores the value and sets the zero
/// flag exactly when the value is zero and the negative flag to the value's
/// sign bit.
pub proof fn lemma_load_flags(s: CpuState, v: u8)
    ensures
        spec_lda(s, v).accumulator == v,
        spec_lda(s, v).flags.zero == (v == 0),
        spec_lda(s, v).flags.negative == bit_is_set(v, 7),
        spec_ldx(s, v).idx == v,
        spec_ldx(s, v).flags.zero == (v == 0),
        spec_ldx(s, v).flags.negative == bit_is_set(v, 7),
        spec_ldy(s, v).idy == v,
        spec_ldy(s, v).flags.zero == (v == 0),
        spec_ldy(s, v).flags.negative == bit_is_set(v, 7),
{
}

/// Law: comparing a register with an operand sets carry exactly when the
/// register is at least the operand, and zero exactly when they are equal.
pub proof fn lemma_compare_flags(f: Flags, register: u8, rhs: u8)
    ensures
        spec_compare(f, register, rhs).carry == (register >= rhs),
        spec_compare(f, register, rhs).zero == (register == rhs),
{
}

/// Law: pulling right after pushing returns the pushed byte and leaves the
/// stack pointer where it stood before the push.
pub proof fn lemma_stack_round_trip(s: CpuState, v: u8)
    requires
        s.mem.len() == 65536,
    ensures
        spec_pull(spec_push(s, v)).1 == v,
        spec_pull(spec_push(s, v)).0.stack_pointer == s.stack_pointer,
{
    assert(sp_inc(sp_dec(s.stack_pointer)) == s.stack_pointer);
    assert(0 <= stack_addr(s.stack_pointer) < 65536);
}

/// Law: a subroutine call followed by a return restores both the program
/// counter and the stack pointer, whatever the jump target was.
pub proof fn lemma_jsr_rts_round_trip(s: CpuState, location: u16)
    requires
        s.mem.len() == 65536,
    ensures
        spec_rts(spec_jsr(s, location)).program_counter == s.program_counter,
        spec_rts(spec_jsr(s, location)).stack_pointer == s.stack_pointer,
{
    let sp: u8 = s.stack_pointer;
    assert(sp_dec(sp) != sp);
    assert(sp_inc(sp_dec(sp_dec(sp))) == sp_dec(sp));
    assert(sp_inc(sp_dec(sp))== sp);
    assert(0 <= stack_addr(sp) < 65536);
    assert(0 <= stack_addr(sp_dec(sp)) < 65536);
    lemma_fundamental_div_mod(s.program_counter as int, 256);
    assert(make_word(lo_byte(s.program_counter), hi_byte(s.program_counter))
        == s.program_counter);
}

/// Law (interrupt path): a return from interrupt straight after a break
/// restores the stack pointer, sets the program counter to the pushed return
/// address (the break's program counter plus two, with 16-bit wraparound),
/// and restores the flags with the break flag set.
pub proof fn lemma_brk_rti_round_trip(s: CpuState)
    requires
        s.mem.len() == 65536,
    ensures
        spec_rti(spec_brk(s)).stack_pointer == s.stack_pointer,
        spec_rti(spec_brk(s)).program_counter == (if s.program_counter + 2 > 0xFFFF {
            (s.program_counter + 2 - 0x10000) as u16
        } else {
            (s.program_counter + 2) as u16
        }),
        spec_rti(spec_brk(s)).flags == (Flags { break_command: true, ..s.flags }),
{
    let sp: u8 = s.stack_pointer;
    assert(sp_dec(sp) != sp);
    assert(sp_dec(sp_dec(sp)) != sp);
    assert(sp_dec(sp_dec(sp)) != sp_dec(sp));
    assert(sp_inc(sp_dec(sp_dec(sp_dec(sp)))) == sp_dec(sp_dec(sp)));
    assert(sp_inc(sp_dec(sp_dec(sp))) == sp_dec(sp));
    assert(sp_inc(sp_dec(sp)) == sp);
    assert(0 <= stack_addr(sp) < 65536);
    assert(0 <= stack_addr(sp_dec(sp)) < 65536);
    assert(0 <= stack_addr(sp_dec(sp_dec(sp))) < 65536);
    let ret: u16 = if s.program_counter + 2 > 0xFFFF {
        (s.program_counter + 2 - 0x10000) as u16
    } else {
        (s.program_counter + 2) as u16
    };
    lemma_fundamental_div_mod(ret as int, 256);
    assert(make_word(lo_byte(ret), hi_byte(ret)) == ret);
    lemma_status_round_trip(Flags { break_command: true, ..s.flags });
}

} // verus!
