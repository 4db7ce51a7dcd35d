use vstd::prelude::*;

use crate::flags::{spec_pack, spec_unpack, Flags};
use crate::library::bit_is_set;
use crate::memory::Memory;

verus! {

/// The mathematical image of a processor: its registers, flags, and the
/// contents of the memory bus. Every instruction's contract is stated as a
/// pure function on this state.
pub ghost struct CpuState {
    pub address_bus: u16,
    pub program_counter: u16,
    pub stack_pointer: u8,
    pub accumulator: u8,
    pub idx: u8,
    pub idy: u8,
    pub flags: Flags,
    pub mem: Seq<u8>,
    pub controller_state: u8,
    pub shift_register: u8,
}

/// The zero/negative update applied after every instruction that loads a
/// register or memory value.
pub open spec fn spec_update_flags(f: Flags, value: u8) -> Flags {
    Flags { zero: value == 0, negative: bit_is_set(value, 7), ..f }
}

/// Stack-pointer decrement, wrapping modulo 256.
pub open spec fn sp_dec(sp: u8) -> u8 {
    if sp == 0 {
        255
    } else {
        (sp - 1) as u8
    }
}

/// Stack-pointer increment, wrapping modulo 256.
pub open spec fn sp_inc(sp: u8) -> u8 {
    if sp == 255 {
        0
    } else {
        (sp + 1) as u8
    }
}

/// The bus address a stack pointer denotes: an offset into the fixed stack
/// page at 0x0100.
pub open spec fn stack_addr(sp: u8) -> int {
    0x100 + sp as int
}

/// Byte-wide increment with wraparound.
pub open spec fn wrap_inc(v: u8) -> u8 {
    if v == 255 {
        0
    } else {
        (v + 1) as u8
    }
}

/// Byte-wide decrement with wraparound.
pub open spec fn wrap_dec(v: u8) -> u8 {
    if v == 0 {
        255
    } else {
        (v - 1) as u8
    }
}

/// The low byte of a 16-bit word.
pub open spec fn lo_byte(v: u16) -> u8 {
    (v % 256) as u8
}

/// The high byte of a 16-bit word.
pub open spec fn hi_byte(v: u16) -> u8 {
    (v / 256) as u8
}

/// Reassembles a 16-bit word from its low and high bytes.
pub open spec fn make_word(lo: u8, hi: u8) -> u16 {
    (lo + 256 * hi) as u16
}

/// Push writes at the stack address, then decrements the stack pointer.
pub open spec fn spec_push(s: CpuState, value: u8) -> CpuState {
    CpuState {
        mem: s.mem.update(stack_addr(s.stack_pointer), value),
        stack_pointer: sp_dec(s.stack_pointer),
        ..s
    }
}

/// Pull increments the stack pointer first, then reads at the new stack
/// address.
pub open spec fn spec_pull(s: CpuState) -> (CpuState, u8) {
    let sp = sp_inc(s.stack_pointer);
    (CpuState { stack_pointer: sp, ..s }, s.mem[stack_addr(sp)])
}

pub open spec fn spec_lda(s: CpuState, value: u8) -> CpuState {
    CpuState { accumulator: value, flags: spec_update_flags(s.flags, value), ..s }
}

pub open spec fn spec_ldx(s: CpuState, value: u8) -> CpuState {
    CpuState { idx: value, flags: spec_update_flags(s.flags, value), ..s }
}

pub open spec fn spec_ldy(s: CpuState, value: u8) -> CpuState {
    CpuState { idy: value, flags: spec_update_flags(s.flags, value), ..s }
}

pub open spec fn spec_sta(s: CpuState, address: u16) -> CpuState {
    CpuState { mem: s.mem.update(address as int, s.accumulator), ..s }
}

pub open spec fn spec_stx(s: CpuState, address: u16) -> CpuState {
    CpuState { mem: s.mem.update(address as int, s.idx), ..s }
}

pub open spec fn spec_sty(s: CpuState, address: u16) -> CpuState {
    CpuState { mem: s.mem.update(address as int, s.idy), ..s }
}

pub open spec fn spec_tax(s: CpuState) -> CpuState {
    CpuState { idx: s.accumulator, flags: spec_update_flags(s.flags, s.accumulator), ..s }
}

pub open spec fn spec_tay(s: CpuState) -> CpuState {
    CpuState { idy: s.accumulator, flags: spec_update_flags(s.flags, s.accumulator), ..s }
}

pub open spec fn spec_txa(s: CpuState) -> CpuState {
    CpuState { accumulator: s.idx, flags: spec_update_flags(s.flags, s.idx), ..s }
}

pub open spec fn spec_tya(s: CpuState) -> CpuState {
    CpuState { accumulator: s.idy, flags: spec_update_flags(s.flags, s.idy), ..s }
}

pub open spec fn spec_tsx(s: CpuState) -> CpuState {
    CpuState { idx: s.stack_pointer, flags: spec_update_flags(s.flags, s.stack_pointer), ..s }
}

pub open spec fn spec_txs(s: CpuState) -> CpuState {
    CpuState { stack_pointer: s.idx, ..s }
}

pub open spec fn spec_pha(s: CpuState) -> CpuState {
    spec_push(s, s.accumulator)
}

pub open spec fn spec_php(s: CpuState) -> CpuState {
    spec_push(s, spec_pack(s.flags))
}

pub open spec fn spec_pla(s: CpuState) -> CpuState {
    let (s1, v) = spec_pull(s);
    CpuState { accumulator: v, flags: spec_update_flags(s1.flags, v), ..s1 }
}

pub open spec fn spec_plp(s: CpuState) -> CpuState {
    let (s1, v) = spec_pull(s);
    CpuState { flags: spec_unpack(v), ..s1 }
}

pub open spec fn spec_and(s: CpuState, rhs: u8) -> CpuState {
    let v = s.accumulator & rhs;
    CpuState { accumulator: v, flags: spec_update_flags(s.flags, v), ..s }
}

pub open spec fn spec_eor(s: CpuState, rhs: u8) -> CpuState {
    let v = s.accumulator ^ rhs;
    CpuState { accumulator: v, flags: spec_update_flags(s.flags, v), ..s }
}

pub open spec fn spec_ora(s: CpuState, rhs: u8) -> CpuState {
    let v = s.accumulator | rhs;
    CpuState { accumulator: v, flags: spec_update_flags(s.flags, v), ..s }
}

/// Bit test: the conjunction is computed but not stored; zero, overflow and
/// negative come from bits of the result.
pub open spec fn spec_bit(s: CpuState, rhs: u8) -> CpuState {
    let v = s.accumulator & rhs;
    CpuState {
        flags: Flags {
            zero: v == 0,
            overflow: bit_is_set(v, 6),
            negative: bit_is_set(v, 7),
            ..s.flags
        },
        ..s
    }
}

/// Add with carry: sum of accumulator, operand and carry-in, wrapping at 256.
/// Carry-out is the unsigned overflow of the whole sum; overflow is signed
/// overflow against the original accumulator.
pub open spec fn spec_adc(s: CpuState, rhs: u8) -> CpuState {
    let cin: int = if s.flags.carry {
        1
    } else {
        0
    };
    let total: int = s.accumulator + rhs + cin;
    let res: u8 = if total >= 256 {
        (total - 256) as u8
    } else {
        total as u8
    };
    CpuState {
        accumulator: res,
        flags: Flags {
            carry: total >= 256,
            zero: res == 0,
            negative: bit_is_set(res, 7),
            overflow: (bit_is_set(rhs, 7) == bit_is_set(s.accumulator, 7)) && (bit_is_set(res, 7)
                != bit_is_set(s.accumulator, 7)),
            ..s.flags
        },
        ..s
    }
}

/// Subtract with carry: the carry flag inverted is the borrow-in. Carry-out
/// is set exactly when no borrow occurred; overflow is signed overflow
/// against the original accumulator.
pub open spec fn spec_sbc(s: CpuState, rhs: u8) -> CpuState {
    let bin: int = if s.flags.carry {
        0
    } else {
        1
    };
    let total: int = s.accumulator + 256 - rhs - bin;
    let res: u8 = if total >= 256 {
        (total - 256) as u8
    } else {
        total as u8
    };
    CpuState {
        accumulator: res,
        flags: Flags {
            carry: s.accumulator >= rhs + bin,
            zero: res == 0,
            negative: bit_is_set(res, 7),
            overflow: (bit_is_set(rhs, 7) != bit_is_set(s.accumulator, 7)) && (bit_is_set(res, 7)
                != bit_is_set(s.accumulator, 7)),
            ..s.flags
        },
        ..s
    }
}

/// Compare of a register against an operand: flags only, nothing stored.
pub open spec fn spec_compare(f: Flags, register: u8, rhs: u8) -> Flags {
    let diff: u8 = if register >= rhs {
        (register - rhs) as u8
    } else {
        (register - rhs + 256) as u8
    };
    Flags {
        carry: register >= rhs,
        zero: register == rhs,
        negative: bit_is_set(diff, 7),
        ..f
    }
}

pub open spec fn spec_cmp(s: CpuState, rhs: u8) -> CpuState {
    CpuState { flags: spec_compare(s.flags, s.accumulator, rhs), ..s }
}

pub open spec fn spec_cmx(s: CpuState, rhs: u8) -> CpuState {
    CpuState { flags: spec_compare(s.flags, s.idx, rhs), ..s }
}

pub open spec fn spec_cmy(s: CpuState, rhs: u8) -> CpuState {
    CpuState { flags: spec_compare(s.flags, s.idy, rhs), ..s }
}

/// Increment/decrement flag rule: carry holds the wraparound indicator and
/// negative the sign bit of the result; zero is untouched.
pub open spec fn spec_step_flags(f: Flags, wrapped: bool, result: u8) -> Flags {
    Flags { carry: wrapped, negative: bit_is_set(result, 7), ..f }
}

pub open spec fn spec_inc(s: CpuState, location: u16) -> CpuState {
    let v = s.mem[location as int];
    CpuState {
        mem: s.mem.update(location as int, wrap_inc(v)),
        flags: spec_step_flags(s.flags, v == 255, wrap_inc(v)),
        ..s
    }
}

pub open spec fn spec_inx(s: CpuState) -> CpuState {
    CpuState {
        idx: wrap_inc(s.idx),
        flags: spec_step_flags(s.flags, s.idx == 255, wrap_inc(s.idx)),
        ..s
    }
}

pub open spec fn spec_iny(s: CpuState) -> CpuState {
    CpuState {
        idy: wrap_inc(s.idy),
        flags: spec_step_flags(s.flags, s.idy == 255, wrap_inc(s.idy)),
        ..s
    }
}

pub open spec fn spec_dec(s: CpuState, location: u16) -> CpuState {
    let v = s.mem[location as int];
    CpuState {
        mem: s.mem.update(location as int, wrap_dec(v)),
        flags: spec_step_flags(s.flags, v == 0, wrap_dec(v)),
        ..s
    }
}

pub open spec fn spec_dex(s: CpuState) -> CpuState {
    CpuState {
        idx: wrap_dec(s.idx),
        flags: spec_step_flags(s.flags, s.idx == 0, wrap_dec(s.idx)),
        ..s
    }
}

pub open spec fn spec_dey(s: CpuState) -> CpuState {
    CpuState {
        idy: wrap_dec(s.idy),
        flags: spec_step_flags(s.flags, s.idy == 0, wrap_dec(s.idy)),
        ..s
    }
}

/// Arithmetic shift left of a caller-supplied byte: carry takes the old sign
/// bit.
pub open spec fn spec_asl(f: Flags, v: u8) -> (Flags, u8) {
    let nv = v << 1;
    (Flags { carry: bit_is_set(v, 7), zero: nv == 0, negative: bit_is_set(nv, 7), ..f }, nv)
}

/// Logical shift right: carry takes the old low bit; negative is forced
/// false.
pub open spec fn spec_lsr(f: Flags, v: u8) -> (Flags, u8) {
    let nv = v >> 1;
    (Flags { carry: bit_is_set(v, 0), zero: nv == 0, negative: false, ..f }, nv)
}

/// Eight-bit left rotate (not through carry); carry takes the old sign bit.
pub open spec fn spec_rol(f: Flags, v: u8) -> (Flags, u8) {
    let nv = (v << 1) | (v >> 7);
    (Flags { carry: bit_is_set(v, 7), zero: nv == 0, negative: bit_is_set(nv, 7), ..f }, nv)
}

/// Eight-bit right rotate (not through carry); carry takes the old low bit.
pub open spec fn spec_ror(f: Flags, v: u8) -> (Flags, u8) {
    let nv = (v >> 1) | ((v & 1) << 7);
    (Flags { carry: bit_is_set(v, 0), zero: nv == 0, negative: bit_is_set(nv, 7), ..f }, nv)
}

pub open spec fn spec_jmp(s: CpuState, location: u16) -> CpuState {
    CpuState { program_counter: location, ..s }
}

/// Jump to subroutine: the current program counter is pushed high byte
/// first, then low byte, then the jump is taken.
pub open spec fn spec_jsr(s: CpuState, location: u16) -> CpuState {
    let s1 = spec_push(s, hi_byte(s.program_counter));
    let s2 = spec_push(s1, lo_byte(s.program_counter));
    CpuState { program_counter: location, ..s2 }
}

/// Return from subroutine: the low byte is pulled first, then the high byte.
pub open spec fn spec_rts(s: CpuState) -> CpuState {
    let (s1, lo) = spec_pull(s);
    let (s2, hi) = spec_pull(s1);
    CpuState { program_counter: make_word(lo, hi), ..s2 }
}

/// Conditional branch: when the condition holds, the signed displacement is
/// added to the program counter with 16-bit wraparound.
pub open spec fn spec_branch(s: CpuState, condition: bool, immediate: i8) -> CpuState {
    if condition {
        let target: int = s.program_counter + immediate;
        let wrapped: u16 = if target < 0 {
            (target + 0x10000) as u16
        } else if target > 0xFFFF {
            (target - 0x10000) as u16
        } else {
            target as u16
        };
        CpuState { program_counter: wrapped, ..s }
    } else {
        s
    }
}

/// Break: pushes the program counter plus two (high byte, then low byte),
/// sets the break flag, pushes the packed status, then loads the program
/// counter from the vector at 0xFFFE/0xFFFF (low byte, high byte).
pub open spec fn spec_brk(s: CpuState) -> CpuState {
    let ret: u16 = if s.program_counter + 2 > 0xFFFF {
        (s.program_counter + 2 - 0x10000) as u16
    } else {
        (s.program_counter + 2) as u16
    };
    let f = Flags { break_command: true, ..s.flags };
    let s1 = spec_push(s, hi_byte(ret));
    let s2 = spec_push(s1, lo_byte(ret));
    let s3 = spec_push(CpuState { flags: f, ..s2 }, spec_pack(f));
    CpuState { program_counter: make_word(s3.mem[0xFFFE], s3.mem[0xFFFF]), ..s3 }
}

/// Return from interrupt: pulls the status byte, then the program counter's
/// low byte, then its high byte.
pub open spec fn spec_rti(s: CpuState) -> CpuState {
    let (s1, status) = spec_pull(s);
    let (s2, lo) = spec_pull(s1);
    let (s3, hi) = spec_pull(s2);
    CpuState { flags: spec_unpack(status), program_counter: make_word(lo, hi), ..s3 }
}

/// The state a freshly constructed processor is in: registers and program
/// counter zeroed, stack pointer at 0xFF, all flags clear, memory
/// zero-filled.
pub open spec fn spec_new() -> CpuState {
    CpuState {
        address_bus: 0,
        program_counter: 0,
        stack_pointer: 0xFF,
        accumulator: 0,
        idx: 0,
        idy: 0,
        flags: Flags {
            carry: false,
            zero: false,
            interrupt_disable: false,
            decimal_mode: false,
            break_command: false,
            overflow: false,
            negative: false,
        },
        mem: Seq::new(65536, |i: int| 0u8),
        controller_state: 0,
        shift_register: 0,
    }
}

/// The processor: registers, status flags, the memory bus it owns, and the
/// controller shift register mapped into it.
pub struct Cpu {
    pub address_bus: u16,
    pub program_counter: u16,
    pub stack_pointer: u8,
    pub accumulator: u8,
    pub idx: u8,
    pub idy: u8,
    pub flags: Flags,
    pub memory: Memory,
    pub controller_state: u8,
    pub shift_register: u8,
}

impl View for Cpu {
    type V = CpuState;

    open spec fn view(&self) -> CpuState {
        CpuState {
            address_bus: self.address_bus,
            program_counter: self.program_counter,
            stack_pointer: self.stack_pointer,
            accumulator: self.accumulator,
            idx: self.idx,
            idy: self.idy,
            flags: self.flags,
            mem: self.memory@,
            controller_state: self.controller_state,
            shift_register: self.shift_register,
        }
    }
}

impl Cpu {
    /// The processor owns a full 64KB bus.
    pub open spec fn wf(&self) -> bool {
        self.memory.wf()
    }

    pub fn new() -> (r: Self)
        ensures
            r.wf(),
            r@ == spec_new(),
    {
        let r = Cpu {
            address_bus: 0,
            program_counter: 0,
            stack_pointer: 0xFF,
            accumulator: 0,
            idx: 0,
            idy: 0,
            flags: Flags::default(),
            memory: Memory::new(),
            controller_state: 0,
            shift_register: 0,
        };
        proof {
            assert(r@.mem =~= spec_new().mem);
        }
        r
    }

    /// Sets the zero and negative flags from `register`; invoked after every
    /// instruction that loads a register or memory value.
    pub fn update_flags(&mut self, register: u8)
        ensures
            final(self)@ == (CpuState {
                flags: spec_update_flags(old(self)@.flags, register),
                ..old(self)@
            }),
    {
        self.flags.zero = register == 0;
        self.flags.negative = crate::library::isolate_bit_u8(register, 7) != 0;
    }

    pub fn read_memory(&self, location: u16) -> (r: u8)
        requires
            self.wf(),
        ensures
            r == self@.mem[location as int],
    {
        self.memory.read(location)
    }

    /// Writes `value` at the current stack address, then decrements the
    /// stack pointer with wraparound.
    pub fn push_to_stack(&mut self, value: u8)
        requires
            old(self).wf(),
        ensures
            final(self).wf(),
            final(self)@ == spec_push(old(self)@, value),
    {
        let location: u16 = 0x100 + self.stack_pointer as u16;
        self.memory.write(location, value);
        self.stack_pointer = self.stack_pointer.wrapping_sub(1);
    }

    /// Increments the stack pointer with wraparound, then reads at the new
    /// stack address.
    pub fn pull_from_stack(&mut self) -> (r: u8)
        requires
            old(self).wf(),
        ensures
            final(self).wf(),
            final(self)@ == spec_pull(old(self)@).0,
            r == spec_pull(old(self)@).1,
    {
        self.stack_pointer = self.stack_pointer.wrapping_add(1);
        self.read_memory(self.stack_location())
    }

    pub fn stack_location(&self) -> (r: u16)
        ensures
            r as int == stack_addr(self@.stack_pointer),
    {
        0x100 + self.stack_pointer as u16
    }

    /// Restores the stack pointer to 0xFF; memory, registers and flags are
    /// untouched.
    pub fn reset(&mut self)
        ensures
            final(self)@ == (CpuState { stack_pointer: 0xFF, ..old(self)@ }),
    {
        self.stack_pointer = 0xFF;
    }

    // Load/store instructions
    pub fn lda(&mut self, value: u8)
        ensures
            final(self)@ == spec_lda(old(self)@, value),
    {
        self.accumulator = value;
        let a: u8 = self.accumulator;
        self.update_flags(a);
    }

    pub fn ldx(&mut self, value: u8)
        ensures
            final(self)@ == spec_ldx(old(self)@, value),
    {
        self.idx = value;
        let x: u8 = self.idx;
        self.update_flags(x);
    }

    pub fn ldy(&mut self, value: u8)
        ensures
            final(self)@ == spec_ldy(old(self)@, value),
    {
        self.idy = value;
        let y: u8 = self.idy;
        self.update_flags(y);
    }

    pub fn sta(&mut self, address: u16)
        requires
            old(self).wf(),
        ensures
            final(self).wf(),
            final(self)@ == spec_sta(old(self)@, address),
    {
        let a: u8 = self.accumulator;
        self.memory.write(address, a);
    }

    pub fn stx(&mut self, address: u16)
        requires
            old(self).wf(),
        ensures
            final(self).wf(),
            final(self)@ == spec_stx(old(self)@, address),
    {
        let x: u8 = self.idx;
        self.memory.write(address, x);
    }

    pub fn sty(&mut self, address: u16)
        requires
            old(self).wf(),
        ensures
            final(self).wf(),
            final(self)@ == spec_sty(old(self)@, address),
    {
        let y: u8 = self.idy;
        self.memory.write(address, y);
    }

    // Transfer instructions
    pub fn tax(&mut self)
        ensures
            final(self)@ == spec_tax(old(self)@),
    {
        self.idx = self.accumulator;
        let x: u8 = self.idx;
        self.update_flags(x);
    }

    pub fn tay(&mut self)
        ensures
            final(self)@ == spec_tay(old(self)@),
    {
        self.idy = self.accumulator;
        let y: u8 = self.idy;
        self.update_flags(y);
    }

    pub fn txa(&mut self)
        ensures
            final(self)@ == spec_txa(old(self)@),
    {
        self.accumulator = self.idx;
        let a: u8 = self.accumulator;
        self.update_flags(a);
    }

    pub fn tya(&mut self)
        ensures
            final(self)@ == spec_tya(old(self)@),
    {
        self.accumulator = self.idy;
        let a: u8 = self.accumulator;
        self.update_flags(a);
    }

    // Stack operations
    pub fn tsx(&mut self)
        ensures
            final(self)@ == spec_tsx(old(self)@),
    {
        self.idx = self.stack_pointer;
        let x: u8 = self.idx;
        self.update_flags(x);
    }

    pub fn txs(&mut self)
        ensures
            final(self)@ == spec_txs(old(self)@),
    {
        self.stack_pointer = self.idx;
    }

    pub fn pha(&mut self)
        requires
            old(self).wf(),
        ensures
            final(self).wf(),
            final(self)@ == spec_pha(old(self)@),
    {
        let a: u8 = self.accumulator;
        self.push_to_stack(a);
    }

    pub fn php(&mut self)
        requires
            old(self).wf(),
        ensures
            final(self).wf(),
            final(self)@ == spec_php(old(self)@),
    {
        let status: u8 = self.flags.into_u8();
        self.push_to_stack(status);
    }

    pub fn pla(&mut self)
        requires
            old(self).wf(),
        ensures
            final(self).wf(),
            final(self)@ == spec_pla(old(self)@),
    {
        let v: u8 = self.pull_from_stack();
        self.accumulator = v;
        self.update_flags(v);
    }

    pub fn plp(&mut self)
        requires
            old(self).wf(),
        ensures
            final(self).wf(),
            final(self)@ == spec_plp(old(self)@),
    {
        let v: u8 = self.pull_from_stack();
        self.flags.from_u8(v);
    }

    // Logical instructions
    pub fn and(&mut self, rhs: u8)
        ensures
            final(self)@ == spec_and(old(self)@, rhs),
    {
        self.accumulator &= rhs;
        let a: u8 = self.accumulator;
        self.update_flags(a);
    }

    pub fn eor(&mut self, rhs: u8)
        ensures
            final(self)@ == spec_eor(old(self)@, rhs),
    {
        self.accumulator ^= rhs;
        let a: u8 = self.accumulator;
        self.update_flags(a);
    }

    pub fn ora(&mut self, rhs: u8)
        ensures
            final(self)@ == spec_ora(old(self)@, rhs),
    {
        self.accumulator |= rhs;
        let a: u8 = self.accumulator;
        self.update_flags(a);
    }

    pub fn bit(&mut self, rhs: u8)
        ensures
            final(self)@ == spec_bit(old(self)@, rhs),
    {
        let res: u8 = self.accumulator & rhs;
        self.flags.zero = res == 0;
        self.flags.overflow = crate::library::isolate_bit_u8(res, 6) != 0;
        self.flags.negative = crate::library::isolate_bit_u8(res, 7) != 0;
    }

    // Arithmetic instructions
    pub fn adc(&mut self, rhs: u8)
        ensures
            final(self)@ == spec_adc(old(self)@, rhs),
    {
        let a: u8 = self.accumulator;
        let cin: u16 = if self.flags.carry {
            1
        } else {
            0
        };
        let total: u16 = a as u16 + rhs as u16 + cin;
        let res: u8 = if total >= 256 {
            (total - 256) as u8
        } else {
            total as u8
        };
        self.accumulator = res;
        self.flags.carry = total >= 256;
        self.flags.zero = res == 0;
        self.flags.negative = crate::library::isolate_bit_u8(res, 7) != 0;
        let a7: bool = crate::library::isolate_bit_u8(a, 7) != 0;
        let r7: bool = crate::library::isolate_bit_u8(res, 7) != 0;
        let rhs7: bool = crate::library::isolate_bit_u8(rhs, 7) != 0;
        self.flags.overflow = (rhs7 == a7) && (r7 != a7);
    }

    pub fn sbc(&mut self, rhs: u8)
        ensures
            final(self)@ == spec_sbc(old(self)@, rhs),
    {
        let a: u8 = self.accumulator;
        let bin: u16 = if self.flags.carry {
            0
        } else {
            1
        };
        let total: u16 = a as u16 + 256 - rhs as u16 - bin;
        let res: u8 = if total >= 256 {
            (total - 256) as u8
        } else {
            total as u8
        };
        self.accumulator = res;
        self.flags.carry = a as u16 >= rhs as u16 + bin;
        self.flags.zero = res == 0;
        self.flags.negative = crate::library::isolate_bit_u8(res, 7) != 0;
        let a7: bool = crate::library::isolate_bit_u8(a, 7) != 0;
        let r7: bool = crate::library::isolate_bit_u8(res, 7) != 0;
        let rhs7: bool = crate::library::isolate_bit_u8(rhs, 7) != 0;
        self.flags.overflow = (rhs7 != a7) && (r7 != a7);
    }

    pub fn cmp(&mut self, rhs: u8)
        ensures
            final(self)@ == spec_cmp(old(self)@, rhs),
    {
        let result: u8 = self.accumulator.wrapping_sub(rhs);
        self.flags.carry = self.accumulator >= rhs;
        self.flags.zero = self.accumulator == rhs;
        self.flags.negative = crate::library::isolate_bit_u8(result, 7) != 0;
    }

    pub fn cmx(&mut self, rhs: u8)
        ensures
            final(self)@ == spec_cmx(old(self)@, rhs),
    {
        let result: u8 = self.idx.wrapping_sub(rhs);
        self.flags.carry = self.idx >= rhs;
        self.flags.zero = self.idx == rhs;
        self.flags.negative = crate::library::isolate_bit_u8(result, 7) != 0;
    }

    pub fn cmy(&mut self, rhs: u8)
        ensures
            final(self)@ == spec_cmy(old(self)@, rhs),
    {
        let result: u8 = self.idy.wrapping_sub(rhs);
        self.flags.carry = self.idy >= rhs;
        self.flags.zero = self.idy == rhs;
        self.flags.negative = crate::library::isolate_bit_u8(result, 7) != 0;
    }

    // Increments/decrements
    pub fn inc(&mut self, location: u16)
        requires
            old(self).wf(),
        ensures
            final(self).wf(),
            final(self)@ == spec_inc(old(self)@, location),
    {
        let v: u8 = self.memory.read(location);
        let nv: u8 = v.wrapping_add(1);
        self.memory.write(location, nv);
        self.flags.carry = v == 255;
        self.flags.negative = crate::library::isolate_bit_u8(nv, 7) != 0;
    }

    pub fn inx(&mut self)
        ensures
            final(self)@ == spec_inx(old(self)@),
    {
        let v: u8 = self.idx;
        self.idx = v.wrapping_add(1);
        self.flags.carry = v == 255;
        let nv: u8 = self.idx;
        self.flags.negative = crate::library::isolate_bit_u8(nv, 7) != 0;
    }

    pub fn iny(&mut self)
        ensures
            final(self)@ == spec_iny(old(self)@),
    {
        let v: u8 = self.idy;
        self.idy = v.wrapping_add(1);
        self.flags.carry = v == 255;
        let nv: u8 = self.idy;
        self.flags.negative = crate::library::isolate_bit_u8(nv, 7) != 0;
    }

    pub fn dec(&mut self, location: u16)
        requires
            old(self).wf(),
        ensures
            final(self).wf(),
            final(self)@ == spec_dec(old(self)@, location),
    {
        let v: u8 = self.memory.read(location);
        let nv: u8 = v.wrapping_sub(1);
        self.memory.write(location, nv);
        self.flags.carry = v == 0;
        self.flags.negative = crate::library::isolate_bit_u8(nv, 7) != 0;
    }

    pub fn dex(&mut self)
        ensures
            final(self)@ == spec_dex(old(self)@),
    {
        let v: u8 = self.idx;
        self.idx = v.wrapping_sub(1);
        self.flags.carry = v == 0;
        let nv: u8 = self.idx;
        self.flags.negative = crate::library::isolate_bit_u8(nv, 7) != 0;
    }

    pub fn dey(&mut self)
        ensures
            final(self)@ == spec_dey(old(self)@),
    {
        let v: u8 = self.idy;
        self.idy = v.wrapping_sub(1);
        self.flags.carry = v == 0;
        let nv: u8 = self.idy;
        self.flags.negative = crate::library::isolate_bit_u8(nv, 7) != 0;
    }

    // Shift/rotate operations on a caller-supplied byte (a register or a
    // memory cell, resolved by the addressing-mode collaborator).
    pub fn asl(&mut self, value: &mut u8)
        ensures
            final(self)@ == (CpuState {
                flags: spec_asl(old(self)@.flags, *old(value)).0,
                ..old(self)@
            }),
            *final(value) == spec_asl(old(self)@.flags, *old(value)).1,
    {
        let v: u8 = *value;
        self.flags.carry = crate::library::isolate_bit_u8(v, 7) != 0;
        *value = v << 1;
        self.flags.zero = *value == 0;
        let nv: u8 = *value;
        self.flags.negative = crate::library::isolate_bit_u8(nv, 7) != 0;
    }

    pub fn lsr(&mut self, value: &mut u8)
        ensures
            final(self)@ == (CpuState {
                flags: spec_lsr(old(self)@.flags, *old(value)).0,
                ..old(self)@
            }),
            *final(value) == spec_lsr(old(self)@.flags, *old(value)).1,
    {
        let v: u8 = *value;
        self.flags.carry = crate::library::isolate_bit_u8(v, 0) != 0;
        *value = v >> 1;
        self.flags.zero = *value == 0;
        self.flags.negative = false;
    }

    pub fn rol(&mut self, value: &mut u8)
        ensures
            final(self)@ == (CpuState {
                flags: spec_rol(old(self)@.flags, *old(value)).0,
                ..old(self)@
            }),
            *final(value) == spec_rol(old(self)@.flags, *old(value)).1,
    {
        let v: u8 = *value;
        self.flags.carry = crate::library::isolate_bit_u8(v, 7) != 0;
        *value = (v << 1) | (v >> 7);
        self.flags.zero = *value == 0;
        let nv: u8 = *value;
        self.flags.negative = crate::library::isolate_bit_u8(nv, 7) != 0;
    }

    pub fn ror(&mut self, value: &mut u8)
        ensures
            final(self)@ == (CpuState {
                flags: spec_ror(old(self)@.flags, *old(value)).0,
                ..old(self)@
            }),
            *final(value) == spec_ror(old(self)@.flags, *old(value)).1,
    {
        let v: u8 = *value;
        self.flags.carry = crate::library::isolate_bit_u8(v, 0) != 0;
        *value = (v >> 1) | ((v & 1) << 7);
        self.flags.zero = *value == 0;
        let nv: u8 = *value;
        self.flags.negative = crate::library::isolate_bit_u8(nv, 7) != 0;
    }

    // Jumps
    pub fn jmp(&mut self, location: u16)
        ensures
            final(self)@ == spec_jmp(old(self)@, location),
    {
        self.program_counter = location;
    }

    pub fn jsr(&mut self, location: u16)
        requires
            old(self).wf(),
        ensures
            final(self).wf(),
            final(self)@ == spec_jsr(old(self)@, location),
    {
        let lo: u8 = (self.program_counter % 256) as u8;
        let hi: u8 = (self.program_counter / 256) as u8;
        self.push_to_stack(hi);
        self.push_to_stack(lo);
        self.program_counter = location;
    }

    pub fn rts(&mut self)
        requires
            old(self).wf(),
        ensures
            final(self).wf(),
            final(self)@ == spec_rts(old(self)@),
    {
        let lo: u8 = self.pull_from_stack();
        let hi: u8 = self.pull_from_stack();
        self.program_counter = lo as u16 + 256 * (hi as u16);
    }

    // Branching
    pub fn branch_if(&mut self, condition: bool, immediate: i8)
        ensures
            final(self)@ == spec_branch(old(self)@, condition, immediate),
    {
        if condition {
            let pc: i32 = self.program_counter as i32;
            let target: i32 = pc + immediate as i32;
            let wrapped: i32 = if target < 0 {
                target + 0x10000
            } else if target > 0xFFFF {
                target - 0x10000
            } else {
                target
            };
            self.program_counter = wrapped as u16;
        }
    }

    pub fn bcc(&mut self, immediate: i8)
        ensures
            final(self)@ == spec_branch(old(self)@, !old(self)@.flags.carry, immediate),
    {
        let condition: bool = !self.flags.carry;
        self.branch_if(condition, immediate);
    }

    pub fn bcs(&mut self, immediate: i8)
        ensures
            final(self)@ == spec_branch(old(self)@, old(self)@.flags.carry, immediate),
    {
        let condition: bool = self.flags.carry;
        self.branch_if(condition, immediate);
    }

    pub fn beq(&mut self, immediate: i8)
        ensures
            final(self)@ == spec_branch(old(self)@, old(self)@.flags.zero, immediate),
    {
        let condition: bool = self.flags.zero;
        self.branch_if(condition, immediate);
    }

    pub fn bmi(&mut self, immediate: i8)
        ensures
            final(self)@ == spec_branch(old(self)@, old(self)@.flags.negative, immediate),
    {
        let condition: bool = self.flags.negative;
        self.branch_if(condition, immediate);
    }

    pub fn bne(&mut self, immediate: i8)
        ensures
            final(self)@ == spec_branch(old(self)@, !old(self)@.flags.zero, immediate),
    {
        let condition: bool = !self.flags.zero;
        self.branch_if(condition, immediate);
    }

    pub fn bpl(&mut self, immediate: i8)
        ensures
            final(self)@ == spec_branch(old(self)@, !old(self)@.flags.negative, immediate),
    {
        let condition: bool = !self.flags.negative;
        self.branch_if(condition, immediate);
    }

    pub fn bvc(&mut self, immediate: i8)
        ensures
            final(self)@ == spec_branch(old(self)@, !old(self)@.flags.overflow, immediate),
    {
        let condition: bool = !self.flags.overflow;
        self.branch_if(condition, immediate);
    }

    pub fn bvs(&mut self, immediate: i8)
        ensures
            final(self)@ == spec_branch(old(self)@, old(self)@.flags.overflow, immediate),
    {
        let condition: bool = self.flags.overflow;
        self.branch_if(condition, immediate);
    }

    // Status flag changes
    pub fn clc(&mut self)
        ensures
            final(self)@ == (CpuState {
                flags: Flags { carry: false, ..old(self)@.flags },
                ..old(self)@
            }),
    {
        self.flags.carry = false;
    }

    pub fn cld(&mut self)
        ensures
            final(self)@ == (CpuState {
                flags: Flags { decimal_mode: false, ..old(self)@.flags },
                ..old(self)@
            }),
    {
        self.flags.decimal_mode = false;
    }

    pub fn cli(&mut self)
        ensures
            final(self)@ == (CpuState {
                flags: Flags { interrupt_disable: false, ..old(self)@.flags },
                ..old(self)@
            }),
    {
        self.flags.interrupt_disable = false;
    }

    pub fn clv(&mut self)
        ensures
            final(self)@ == (CpuState {
                flags: Flags { overflow: false, ..old(self)@.flags },
                ..old(self)@
            }),
    {
        self.flags.overflow = false;
    }

    pub fn sec(&mut self)
        ensures
            final(self)@ == (CpuState {
                flags: Flags { carry: true, ..old(self)@.flags },
                ..old(self)@
            }),
    {
        self.flags.carry = true;
    }

    pub fn sed(&mut self)
        ensures
            final(self)@ == (CpuState {
                flags: Flags { decimal_mode: true, ..old(self)@.flags },
                ..old(self)@
            }),
    {
        self.flags.decimal_mode = true;
    }

    pub fn sei(&mut self)
        ensures
            final(self)@ == (CpuState {
                flags: Flags { interrupt_disable: true, ..old(self)@.flags },
                ..old(self)@
            }),
    {
        self.flags.interrupt_disable = true;
    }

    // System functions
    pub fn brk(&mut self)
        requires
            old(self).wf(),
        ensures
            final(self).wf(),
            final(self)@ == spec_brk(old(self)@),
    {
        let ret: u16 = self.program_counter.wrapping_add(2);
        let lo: u8 = (ret % 256) as u8;
        let hi: u8 = (ret / 256) as u8;
        self.push_to_stack(hi);
        self.push_to_stack(lo);
        self.flags.break_command = true;
        let bitflags: u8 = self.flags.into_u8();
        self.push_to_stack(bitflags);
        let vector_lo: u8 = self.read_memory(0xFFFE);
        let vector_hi: u8 = self.read_memory(0xFFFF);
        self.program_counter = vector_lo as u16 + 256 * (vector_hi as u16);
    }

    pub fn nop(&self) {
    }

    pub fn rti(&mut self)
        requires
            old(self).wf(),
        ensures
            final(self).wf(),
            final(self)@ == spec_rti(old(self)@),
    {
        let status: u8 = self.pull_from_stack();
        let lo: u8 = self.pull_from_stack();
        let hi: u8 = self.pull_from_stack();
        self.flags.from_u8(status);
        self.program_counter = lo as u16 + 256 * (hi as u16);
    }
}

} // verus!
