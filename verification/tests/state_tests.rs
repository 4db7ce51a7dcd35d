use iron_cartridge::cpu::Cpu;
use iron_cartridge::flags::Flags;
use iron_cartridge::input::Mapping;

#[test]
fn test_register_load_flags() {
    let mut cpu = Cpu::new();
    cpu.ldx(0x00);
    assert!(cpu.flags.zero);
    assert!(!cpu.flags.negative);
    cpu.ldx(0x90);
    assert!(!cpu.flags.zero);
    assert!(cpu.flags.negative);
    cpu.ldy(0x00);
    assert!(cpu.flags.zero);
    assert!(!cpu.flags.negative);
    cpu.ldy(0x7F);
    assert!(!cpu.flags.zero);
    assert!(!cpu.flags.negative);
}

#[test]
fn test_compare_flags() {
    let mut cpu = Cpu::new();
    cpu.lda(0x20);
    cpu.cmp(0x10);
    assert!(cpu.flags.carry);
    assert!(!cpu.flags.zero);
    assert!(!cpu.flags.negative);
    cpu.cmp(0x20);
    assert!(cpu.flags.carry);
    assert!(cpu.flags.zero);
    assert!(!cpu.flags.negative);
    cpu.cmp(0x30);
    assert!(!cpu.flags.carry);
    assert!(!cpu.flags.zero);
    assert!(cpu.flags.negative); // 0x20 - 0x30 wraps to 0xF0

    cpu.ldx(0x05);
    cpu.cmx(0x05);
    assert!(cpu.flags.carry);
    assert!(cpu.flags.zero);
    cpu.ldy(0x01);
    cpu.cmy(0x02);
    assert!(!cpu.flags.carry);
    assert!(!cpu.flags.zero);
    assert!(cpu.flags.negative);
}

#[test]
fn test_stack_pointer_wraparound() {
    let mut cpu = Cpu::new();
    cpu.ldx(0x00);
    cpu.txs();
    assert_eq!(cpu.stack_pointer, 0x00);
    cpu.push_to_stack(0x77);
    assert_eq!(cpu.stack_pointer, 0xFF);
    assert_eq!(cpu.read_memory(0x0100), 0x77);
    let value = cpu.pull_from_stack();
    assert_eq!(value, 0x77);
    assert_eq!(cpu.stack_pointer, 0x00);
}

#[test]
fn test_adc_wraparound() {
    let mut cpu = Cpu::new();
    cpu.lda(0xFF);
    cpu.adc(0x01);
    assert_eq!(cpu.accumulator, 0x00);
    assert!(cpu.flags.carry);
    assert!(cpu.flags.zero);
}

#[test]
fn test_adc_uses_carry_in() {
    let mut cpu = Cpu::new();
    cpu.sec();
    cpu.lda(0x10);
    cpu.adc(0x20);
    assert_eq!(cpu.accumulator, 0x31);
    assert!(!cpu.flags.carry);
}

#[test]
fn test_adc_signed_overflow() {
    let mut cpu = Cpu::new();
    cpu.lda(0x50);
    cpu.adc(0x50);
    assert_eq!(cpu.accumulator, 0xA0);
    assert!(cpu.flags.overflow);
    assert!(cpu.flags.negative);
    assert!(!cpu.flags.carry);
}

#[test]
fn test_sbc_borrow_in() {
    let mut cpu = Cpu::new();
    cpu.lda(0x10);
    cpu.sec(); // carry set: no borrow-in
    cpu.sbc(0x01);
    assert_eq!(cpu.accumulator, 0x0F);
    assert!(cpu.flags.carry);
    cpu.clc(); // carry clear: borrow-in of one
    cpu.sbc(0x01);
    assert_eq!(cpu.accumulator, 0x0D);
    assert!(cpu.flags.carry);
}

#[test]
fn test_branch_displacement() {
    let mut cpu = Cpu::new();
    cpu.program_counter = 0x1000;
    cpu.flags.carry = false;
    cpu.bcc(0x10);
    assert_eq!(cpu.program_counter, 0x1010);

    cpu.program_counter = 0x1000;
    cpu.flags.carry = true;
    cpu.bcc(0x10);
    assert_eq!(cpu.program_counter, 0x1000);
}

#[test]
fn test_branch_backward_wraparound() {
    let mut cpu = Cpu::new();
    cpu.program_counter = 0x0005;
    cpu.flags.zero = false;
    cpu.bne(-0x10);
    assert_eq!(cpu.program_counter, 0xFFF5);
}

#[test]
fn test_status_pack_unpack() {
    let mut flags = Flags::default();
    flags.carry = true;
    flags.interrupt_disable = true;
    flags.break_command = true;
    flags.negative = true;
    let packed = flags.into_u8();
    assert_eq!(packed, 0xB5); // bit 5 always set
    assert!(packed & 0x20 != 0);

    let mut restored = Flags::default();
    restored.from_u8(packed);
    assert_eq!(restored, flags);

    // Bit 5 carries no flag: these two bytes unpack identically.
    let mut a = Flags::default();
    let mut b = Flags::default();
    a.from_u8(0x00);
    b.from_u8(0x20);
    assert_eq!(a, b);
    assert_eq!(a, Flags::default());
}

#[test]
fn test_jsr_rts_round_trip() {
    let mut cpu = Cpu::new();
    cpu.program_counter = 0x3000;
    cpu.jsr(0x4000);
    assert_eq!(cpu.program_counter, 0x4000);
    assert_eq!(cpu.stack_pointer, 0xFD);
    assert_eq!(cpu.read_memory(0x01FF), 0x30); // high byte pushed first
    assert_eq!(cpu.read_memory(0x01FE), 0x00); // then low byte
    cpu.rts();
    assert_eq!(cpu.program_counter, 0x3000);
    assert_eq!(cpu.stack_pointer, 0xFF);
}

#[test]
fn test_brk_rti_round_trip() {
    let mut cpu = Cpu::new();
    cpu.lda(0x34);
    cpu.sta(0xFFFE);
    cpu.lda(0x12);
    cpu.sta(0xFFFF);
    cpu.program_counter = 0x8000;
    cpu.sec();
    cpu.brk();
    assert_eq!(cpu.program_counter, 0x1234);
    assert!(cpu.flags.break_command);
    assert_eq!(cpu.stack_pointer, 0xFC);
    cpu.rti();
    assert_eq!(cpu.program_counter, 0x8002);
    assert_eq!(cpu.stack_pointer, 0xFF);
    assert!(cpu.flags.carry);
    assert!(cpu.flags.break_command);
}

#[test]
fn test_increment_decrement_wraparound() {
    let mut cpu = Cpu::new();
    cpu.ldx(0xFF);
    cpu.inx();
    assert_eq!(cpu.idx, 0x00);
    assert!(cpu.flags.carry);
    assert!(!cpu.flags.negative);
    cpu.inx();
    assert_eq!(cpu.idx, 0x01);
    assert!(!cpu.flags.carry);
    cpu.dex();
    assert_eq!(cpu.idx, 0x00);
    assert!(!cpu.flags.carry);
    cpu.dex();
    assert_eq!(cpu.idx, 0xFF);
    assert!(cpu.flags.carry);
    assert!(cpu.flags.negative);
}

#[test]
fn test_iny_dey_touch_only_index_y() {
    let mut cpu = Cpu::new();
    cpu.ldx(0x42);
    cpu.ldy(0x05);
    cpu.iny();
    assert_eq!(cpu.idy, 0x06);
    assert_eq!(cpu.idx, 0x42);
    cpu.dey();
    assert_eq!(cpu.idy, 0x05);
    assert_eq!(cpu.idx, 0x42);
}

#[test]
fn test_inc_dec_memory() {
    let mut cpu = Cpu::new();
    cpu.lda(0xFF);
    cpu.sta(0x0010);
    cpu.inc(0x0010);
    assert_eq!(cpu.read_memory(0x0010), 0x00);
    assert!(cpu.flags.carry);
    cpu.dec(0x0010);
    assert_eq!(cpu.read_memory(0x0010), 0xFF);
    assert!(cpu.flags.carry);
    assert!(cpu.flags.negative);
}

#[test]
fn test_bit_instruction() {
    let mut cpu = Cpu::new();
    cpu.lda(0xFF);
    cpu.bit(0xC0);
    assert!(!cpu.flags.zero);
    assert!(cpu.flags.overflow);
    assert!(cpu.flags.negative);
    cpu.bit(0x00);
    assert!(cpu.flags.zero);
    assert!(!cpu.flags.overflow);
    assert!(!cpu.flags.negative);
}

#[test]
fn test_logical_instructions_update_flags() {
    let mut cpu = Cpu::new();
    cpu.lda(0x0F);
    cpu.and(0xF0);
    assert_eq!(cpu.accumulator, 0x00);
    assert!(cpu.flags.zero);
    cpu.ora(0x80);
    assert_eq!(cpu.accumulator, 0x80);
    assert!(!cpu.flags.zero);
    assert!(cpu.flags.negative);
    cpu.eor(0x80);
    assert_eq!(cpu.accumulator, 0x00);
    assert!(cpu.flags.zero);
    assert!(!cpu.flags.negative);
}

#[test]
fn test_shift_flag_updates() {
    let mut cpu = Cpu::new();
    let mut value = 0x80;
    cpu.asl(&mut value);
    assert_eq!(value, 0x00);
    assert!(cpu.flags.carry);
    assert!(cpu.flags.zero);
    assert!(!cpu.flags.negative);

    let mut value = 0xFF;
    cpu.lsr(&mut value);
    assert_eq!(value, 0x7F);
    assert!(cpu.flags.carry);
    assert!(!cpu.flags.zero);
    assert!(!cpu.flags.negative); // lsr forces negative off
}

#[test]
fn test_pha_pla() {
    let mut cpu = Cpu::new();
    cpu.lda(0x42);
    cpu.pha();
    assert_eq!(cpu.accumulator, 0x42); // pushing leaves the accumulator alone
    cpu.lda(0x00);
    assert!(cpu.flags.zero);
    cpu.pla();
    assert_eq!(cpu.accumulator, 0x42);
    assert!(!cpu.flags.zero);
    assert_eq!(cpu.stack_pointer, 0xFF);
}

#[test]
fn test_php_plp() {
    let mut cpu = Cpu::new();
    cpu.sec();
    cpu.sed();
    cpu.sei();
    cpu.php();
    assert_eq!(cpu.stack_pointer, 0xFE);
    cpu.clc();
    cpu.cld();
    cpu.cli();
    cpu.plp();
    assert_eq!(cpu.stack_pointer, 0xFF);
    assert!(cpu.flags.carry);
    assert!(cpu.flags.decimal_mode);
    assert!(cpu.flags.interrupt_disable);
    cpu.clv();
    assert!(!cpu.flags.overflow);
}

#[test]
fn test_tsx_txs() {
    let mut cpu = Cpu::new();
    cpu.ldx(0xAB);
    cpu.lda(0x00);
    assert!(cpu.flags.zero);
    cpu.txs();
    assert_eq!(cpu.stack_pointer, 0xAB);
    assert!(cpu.flags.zero); // txs changes no flags
    cpu.ldx(0x00);
    cpu.tsx();
    assert_eq!(cpu.idx, 0xAB);
    assert!(!cpu.flags.zero);
    assert!(cpu.flags.negative);
}

#[test]
fn test_reset_restores_stack_pointer_only() {
    let mut cpu = Cpu::new();
    cpu.lda(0x11);
    cpu.push_to_stack(0x11);
    assert_eq!(cpu.stack_pointer, 0xFE);
    cpu.reset();
    assert_eq!(cpu.stack_pointer, 0xFF);
    assert_eq!(cpu.read_memory(0x01FF), 0x11); // memory untouched
    assert_eq!(cpu.accumulator, 0x11); // registers untouched
}

#[test]
fn test_stack_location_tracks_pointer() {
    let mut cpu = Cpu::new();
    assert_eq!(cpu.stack_location(), 0x01FF);
    cpu.push_to_stack(0x01);
    assert_eq!(cpu.stack_location(), 0x01FE);
}

#[test]
fn test_controller_strobe() {
    let mut cpu = Cpu::new();
    cpu.update_button_state(Mapping::A, true);
    cpu.update_button_state(Mapping::Right, true);
    assert_eq!(cpu.controller_state, 0x81);
    cpu.write_strobe(0x01);
    assert_eq!(cpu.read_strobe(), 1); // A comes out first
    for _ in 0..6 {
        assert_eq!(cpu.read_strobe(), 0);
    }
    assert_eq!(cpu.read_strobe(), 1); // Right comes out last
    assert_eq!(cpu.read_strobe(), 0);

    cpu.update_button_state(Mapping::A, false);
    assert_eq!(cpu.controller_state, 0x80);
    cpu.write_strobe(0x00); // bit 0 clear: nothing latched
    assert_eq!(cpu.read_strobe(), 0);
}
