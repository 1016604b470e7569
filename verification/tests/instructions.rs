use plastic::cpu6502::CPU6502;
use plastic::instruction::{AddressingMode, Instruction, Opcode};
use plastic::memory::FlatMemory;

#[test]
fn adding() {
    assert_eq!(2, 1 + 1);
}

#[test]
fn subtracting() {
    assert_eq!(0, 1 - 1);
}

fn cpu_with_program(program: &[u8]) -> CPU6502<FlatMemory> {
    let mut memory = FlatMemory::new();
    for (i, byte) in program.iter().enumerate() {
        memory.data[0x400 + i] = *byte;
    }
    let mut cpu = CPU6502::new(memory);
    cpu.reg_pc = 0x400;
    cpu
}

#[test]
fn cpu_starts_at_power_up_state() {
    let cpu = CPU6502::new(FlatMemory::new());
    assert_eq!(cpu.reg_pc, 0);
    assert_eq!(cpu.reg_sp(), 0xFD);
    assert_eq!(cpu.reg_a(), 0);
    assert_eq!(cpu.reg_status(), 0);
}

#[test]
fn cpu_adds_with_carry() {
    // LDA #$01; CLC; ADC #$01; STA $10; JMP $0407
    let mut cpu = cpu_with_program(&[0xA9, 0x01, 0x18, 0x69, 0x01, 0x85, 0x10, 0x4C, 0x07, 0x04]);
    assert_eq!(cpu.run(), Err(0x0407));
    assert_eq!(cpu.reg_a(), 2);
    assert_eq!(cpu.bus().data[0x10], 2);
    // no carry, no overflow, not zero, not negative
    assert_eq!(cpu.reg_status() & 0b1100_0011, 0);
}

#[test]
fn cpu_adc_sets_carry_and_zero() {
    // LDA #$FF; CLC; ADC #$01; JMP $0405
    let mut cpu = cpu_with_program(&[0xA9, 0xFF, 0x18, 0x69, 0x01, 0x4C, 0x05, 0x04]);
    assert_eq!(cpu.run(), Err(0x0405));
    assert_eq!(cpu.reg_a(), 0);
    assert_eq!(cpu.reg_status() & 0b0000_0011, 0b0000_0011);
}

#[test]
fn cpu_adc_sets_overflow() {
    // LDA #$7F; CLC; ADC #$01; JMP $0405
    let mut cpu = cpu_with_program(&[0xA9, 0x7F, 0x18, 0x69, 0x01, 0x4C, 0x05, 0x04]);
    assert_eq!(cpu.run(), Err(0x0405));
    assert_eq!(cpu.reg_a(), 0x80);
    // overflow and negative
    assert_eq!(cpu.reg_status() & 0b1100_0000, 0b1100_0000);
}

#[test]
fn cpu_subtracts_with_borrow() {
    // SEC; LDA #$05; SBC #$03; STA $10; JMP $0407
    let mut cpu = cpu_with_program(&[0x38, 0xA9, 0x05, 0xE9, 0x03, 0x85, 0x10, 0x4C, 0x07, 0x04]);
    assert_eq!(cpu.run(), Err(0x0407));
    assert_eq!(cpu.reg_a(), 2);
    assert_eq!(cpu.bus().data[0x10], 2);
    // no borrow: carry stays set
    assert_eq!(cpu.reg_status() & 1, 1);
}

#[test]
fn cpu_stack_round_trip() {
    // LDA #$42; PHA; LDA #$00; PLA; STA $10; JMP $0408
    let mut cpu = cpu_with_program(&[0xA9, 0x42, 0x48, 0xA9, 0x00, 0x68, 0x85, 0x10, 0x4C, 0x08, 0x04]);
    assert_eq!(cpu.run(), Err(0x0408));
    assert_eq!(cpu.reg_a(), 0x42);
    assert_eq!(cpu.reg_sp(), 0xFD);
    assert_eq!(cpu.bus().data[0x01FD], 0x42);
}

#[test]
fn cpu_jsr_and_rts() {
    // JSR $0408; STA $10; JMP $0405; (at $0408) LDA #$07; RTS
    let mut cpu = cpu_with_program(&[0x20, 0x08, 0x04, 0x85, 0x10, 0x4C, 0x05, 0x04, 0xA9, 0x07, 0x60]);
    assert_eq!(cpu.run(), Err(0x0405));
    assert_eq!(cpu.bus().data[0x10], 7);
    assert_eq!(cpu.reg_sp(), 0xFD);
}

#[test]
fn cpu_counts_down_with_branch() {
    // LDX #$03; (loop) DEX; BNE loop; STX $10; JMP $0408
    let mut cpu = cpu_with_program(&[0xA2, 0x03, 0xCA, 0xD0, 0xFD, 0x86, 0x10, 0x4C, 0x07, 0x04]);
    assert_eq!(cpu.run(), Err(0x0407));
    assert_eq!(cpu.reg_x(), 0);
    assert_eq!(cpu.bus().data[0x10], 0);
    // zero flag set by the last DEX
    assert_eq!(cpu.reg_status() & 0b10, 0b10);
}

#[test]
fn cpu_shifts_memory() {
    // LDA #$81; STA $20; ASL $20; JMP $0406
    let mut cpu = cpu_with_program(&[0xA9, 0x81, 0x85, 0x20, 0x06, 0x20, 0x4C, 0x06, 0x04]);
    assert_eq!(cpu.run(), Err(0x0406));
    assert_eq!(cpu.bus().data[0x20], 0x02);
    // the high bit went to carry
    assert_eq!(cpu.reg_status() & 1, 1);
}

#[test]
fn cpu_stops_at_undocumented_opcode() {
    // KIL
    let mut cpu = cpu_with_program(&[0x02]);
    assert_eq!(cpu.run(), Err(0x0400));
}

#[test]
fn cpu_compare_sets_flags() {
    // LDA #$10; CMP #$10; JMP $0404
    let mut cpu = cpu_with_program(&[0xA9, 0x10, 0xC9, 0x10, 0x4C, 0x04, 0x04]);
    assert_eq!(cpu.run(), Err(0x0404));
    // equal: zero and carry
    assert_eq!(cpu.reg_status() & 0b11, 0b11);
}

#[test]
fn instruction_decoding_of_lda_immediate() {
    let instruction = Instruction::from_byte(0xA9);
    assert_eq!(instruction.opcode, Opcode::Lda);
    assert_eq!(instruction.addressing_mode, AddressingMode::Immediate);
    assert_eq!(instruction.get_instruction_len(), 2);
    assert_eq!(instruction.get_base_cycle_time(), 2);
    assert!(!instruction.is_operand_address());
}

#[test]
fn instruction_decoding_of_jumps() {
    let absolute = Instruction::from_byte(0x4C);
    assert_eq!(absolute.opcode, Opcode::Jmp);
    assert_eq!(absolute.addressing_mode, AddressingMode::Absolute);
    assert_eq!(absolute.get_instruction_len(), 3);
    // the base time of the addressing mode
    assert_eq!(absolute.get_base_cycle_time(), 4);
    let indirect = Instruction::from_byte(0x6C);
    assert_eq!(indirect.addressing_mode, AddressingMode::Indirect);
    assert_eq!(indirect.get_base_cycle_time(), 5);
}

#[test]
fn instruction_decoding_of_indexed_store() {
    let instruction = Instruction::from_byte(0x9D);
    assert_eq!(instruction.opcode, Opcode::Sta);
    assert_eq!(instruction.addressing_mode, AddressingMode::AbsoluteX);
    assert!(instruction.is_operand_address());
    assert!(instruction.addressing_mode.can_cross_page());
}

#[test]
fn opcode_names() {
    assert_eq!(Opcode::Lda.mnemonic(), "LDA");
    assert_eq!(Opcode::Lax.mnemonic(), "LAX");
    assert_eq!(Opcode::Brk.mnemonic(), "BRK");
    assert!(Opcode::Adc.is_official());
    assert!(!Opcode::Kil.is_official());
}

#[test]
fn cpu_undocumented_lax_and_sax() {
    // LAX $10; LDX #$3C; LDA #$F0; SAX $20; JMP $0408
    let mut memory = FlatMemory::new();
    memory.data[0x400..0x40B].copy_from_slice(&[0xA7, 0x10, 0xA2, 0x3C, 0xA9, 0xF0, 0x87, 0x20, 0x4C, 0x08, 0x04]);
    memory.data[0x10] = 0x85;
    let mut cpu = CPU6502::new(memory);
    cpu.reg_pc = 0x400;
    assert_eq!(cpu.run(), Err(0x0408));
    assert_eq!(cpu.bus().data[0x20], 0x30);
    assert_eq!(cpu.reg_x(), 0x3C);
}

#[test]
fn cpu_undocumented_lax_loads_both() {
    let mut memory = FlatMemory::new();
    memory.data[0x400..0x404].copy_from_slice(&[0xA7, 0x10, 0x4C, 0x02]);
    memory.data[0x404] = 0x04;
    memory.data[0x10] = 0x85;
    let mut cpu = CPU6502::new(memory);
    cpu.reg_pc = 0x400;
    assert_eq!(cpu.run(), Err(0x0402));
    assert_eq!(cpu.reg_a(), 0x85);
    assert_eq!(cpu.reg_x(), 0x85);
    // negative
    assert_eq!(cpu.reg_status() & 0x80, 0x80);
}

#[test]
fn cpu_undocumented_dcp_and_isc() {
    // LDA #$05; DCP $30; SEC; LDA #$0A; ISC $31; JMP $040A
    let mut memory = FlatMemory::new();
    memory.data[0x400..0x40D]
        .copy_from_slice(&[0xA9, 0x05, 0xC7, 0x30, 0x38, 0xA9, 0x0A, 0xE7, 0x31, 0x4C, 0x09, 0x04, 0]);
    memory.data[0x30] = 0x06;
    memory.data[0x31] = 0x02;
    let mut cpu = CPU6502::new(memory);
    cpu.reg_pc = 0x400;
    assert_eq!(cpu.run(), Err(0x0409));
    assert_eq!(cpu.bus().data[0x30], 0x05);
    assert_eq!(cpu.bus().data[0x31], 0x03);
    assert_eq!(cpu.reg_a(), 7);
    // no borrow
    assert_eq!(cpu.reg_status() & 1, 1);
}

#[test]
fn cpu_undocumented_slo() {
    // LDA #$02; SLO $32; JMP $0404
    let mut memory = FlatMemory::new();
    memory.data[0x400..0x407].copy_from_slice(&[0xA9, 0x02, 0x07, 0x32, 0x4C, 0x04, 0x04]);
    memory.data[0x32] = 0x81;
    let mut cpu = CPU6502::new(memory);
    cpu.reg_pc = 0x400;
    assert_eq!(cpu.run(), Err(0x0404));
    assert_eq!(cpu.bus().data[0x32], 0x02);
    assert_eq!(cpu.reg_a(), 0x02);
    assert_eq!(cpu.reg_status() & 1, 1);
}

#[test]
fn cpu_undocumented_immediates() {
    // LDA #$FF; LDX #$0F; AXS #$05 (X = (A & X) - 5); LDA #$81; ANC #$80; JMP $040A
    let mut memory = FlatMemory::new();
    memory.data[0x400..0x40D]
        .copy_from_slice(&[0xA9, 0xFF, 0xA2, 0x0F, 0xCB, 0x05, 0xA9, 0x81, 0x0B, 0x80, 0x4C, 0x0A, 0x04]);
    let mut cpu = CPU6502::new(memory);
    cpu.reg_pc = 0x400;
    assert_eq!(cpu.run(), Err(0x040A));
    assert_eq!(cpu.reg_x(), 0x0A);
    assert_eq!(cpu.reg_a(), 0x80);
    // ANC copies the negative bit into carry
    assert_eq!(cpu.reg_status() & 0x81, 0x81);
}

/// Runs a program that ends in KIL; the cycles are those of the last
/// instruction before it.
fn last_cycles(program: &[u8]) -> (CPU6502<FlatMemory>, u8) {
    let mut cpu = cpu_with_program(program);
    let _ = cpu.run();
    let cycles = cpu.cycles_to_wait();
    (cpu, cycles)
}

#[test]
fn cpu_read_modify_write_cycles() {
    // INC $10 and LSR $10 on zero page: 5 cycles
    assert_eq!(last_cycles(&[0xE6, 0x10, 0x02]).1, 5);
    assert_eq!(last_cycles(&[0x46, 0x10, 0x02]).1, 5);
    // ROL $1234 and DEC $10,X: 6 cycles
    assert_eq!(last_cycles(&[0x2E, 0x34, 0x12, 0x02]).1, 6);
    assert_eq!(last_cycles(&[0xD6, 0x10, 0x02]).1, 6);
    // LDX #$FF; INC $12FF,X crosses a page and still takes 7
    let (cpu, cycles) = last_cycles(&[0xA2, 0xFF, 0xFE, 0xFF, 0x12, 0x02]);
    assert_eq!(cycles, 7);
    assert_eq!(cpu.bus().data[0x13FE], 1);
    // ASL A: 2 cycles
    assert_eq!(last_cycles(&[0x0A, 0x02]).1, 2);
    // SLO $1234,Y: 7 cycles
    assert_eq!(last_cycles(&[0x1B, 0x34, 0x12, 0x02]).1, 7);
}

#[test]
fn cpu_store_cycles() {
    // LDX #$01; STA $1200,X: 5 cycles without a page cross
    assert_eq!(last_cycles(&[0xA2, 0x01, 0x9D, 0x00, 0x12, 0x02]).1, 5);
    // STA $10: 3 cycles
    assert_eq!(last_cycles(&[0x85, 0x10, 0x02]).1, 3);
    // STA ($10),Y: 6 cycles
    assert_eq!(last_cycles(&[0x91, 0x10, 0x02]).1, 6);
    // LDA $1200,X reads: 4 cycles, 5 across a page
    assert_eq!(last_cycles(&[0xA2, 0x01, 0xBD, 0x00, 0x12, 0x02]).1, 4);
    assert_eq!(last_cycles(&[0xA2, 0x01, 0xBD, 0xFF, 0x12, 0x02]).1, 5);
}

#[test]
fn cpu_stack_and_jump_cycles() {
    // PHA: 3, PLA: 4
    assert_eq!(last_cycles(&[0x48, 0x02]).1, 3);
    assert_eq!(last_cycles(&[0x48, 0x68, 0x02]).1, 4);
    // JSR $0410: 6
    let mut program = vec![0x20, 0x10, 0x04];
    program.resize(0x10, 0xEA);
    program.push(0x02);
    assert_eq!(last_cycles(&program).1, 6);
    // JSR $0410 to an RTS, then KIL after the JSR: the RTS takes 6
    let mut program = vec![0x20, 0x10, 0x04, 0x02];
    program.resize(0x10, 0xEA);
    program.push(0x60);
    let (cpu, cycles) = last_cycles(&program);
    assert_eq!(cycles, 6);
    assert_eq!(cpu.reg_pc, 0x403);
    // JMP ($0408) to $0410: 5; JMP $0410: 3
    let mut program = vec![0x6C, 0x08, 0x04];
    program.resize(8, 0xEA);
    program.extend_from_slice(&[0x10, 0x04]);
    program.resize(0x10, 0xEA);
    program.push(0x02);
    assert_eq!(last_cycles(&program).1, 5);
    let mut program = vec![0x4C, 0x10, 0x04];
    program.resize(0x10, 0xEA);
    program.push(0x02);
    assert_eq!(last_cycles(&program).1, 3);
}

#[test]
fn cpu_arr_flags() {
    // LDA #$80; CLC; ARR #$FF: A = $40, carry from bit 6, overflow = bit 6 xor bit 5
    let (cpu, _) = last_cycles(&[0xA9, 0x80, 0x18, 0x6B, 0xFF, 0x02]);
    assert_eq!(cpu.reg_a(), 0x40);
    assert_eq!(cpu.reg_status() & 0xC3, 0x41);
    // LDA #$FF; SEC; ARR #$FF: A = $FF, carry set, no overflow, negative
    let (cpu, _) = last_cycles(&[0xA9, 0xFF, 0x38, 0x6B, 0xFF, 0x02]);
    assert_eq!(cpu.reg_a(), 0xFF);
    assert_eq!(cpu.reg_status() & 0xC3, 0x81);
    // LDA #$02; CLC; ARR #$FF: A = $01, no carry, no overflow
    let (cpu, _) = last_cycles(&[0xA9, 0x02, 0x18, 0x6B, 0xFF, 0x02]);
    assert_eq!(cpu.reg_a(), 0x01);
    assert_eq!(cpu.reg_status() & 0xC3, 0x00);
}

#[test]
fn cpu_masked_stores_use_high_byte_plus_one() {
    // LDX #$FF; LDY #$00; SHX $1200,Y stores X & $13
    let (cpu, cycles) = last_cycles(&[0xA2, 0xFF, 0xA0, 0x00, 0x9E, 0x00, 0x12, 0x02]);
    assert_eq!(cpu.bus().data[0x1200], 0x13);
    assert_eq!(cycles, 5);
    // LDY #$FF; LDX #$00; SHY $3400,X stores Y & $35
    let (cpu, _) = last_cycles(&[0xA0, 0xFF, 0xA2, 0x00, 0x9C, 0x00, 0x34, 0x02]);
    assert_eq!(cpu.bus().data[0x3400], 0x35);
    // LDA #$FF; LDX #$F0; LDY #$00; AHX $1200,Y stores A & X & $13
    let (cpu, _) = last_cycles(&[0xA9, 0xFF, 0xA2, 0xF0, 0xA0, 0x00, 0x9F, 0x00, 0x12, 0x02]);
    assert_eq!(cpu.bus().data[0x1200], 0x10);
    // LDA #$0F; LDX #$FF; LDY #$00; TAS $1200,Y: SP = A & X, stores SP & $13
    let (cpu, _) = last_cycles(&[0xA9, 0x0F, 0xA2, 0xFF, 0xA0, 0x00, 0x9B, 0x00, 0x12, 0x02]);
    assert_eq!(cpu.reg_sp(), 0x0F);
    assert_eq!(cpu.bus().data[0x1200], 0x03);
}

#[test]
fn cpu_indexing_wraps_around_memory() {
    // LDX #$10; LDA $FFF8,X reads $0008, crossing a page: 5 cycles
    let mut memory = FlatMemory::new();
    memory.data[0x400..0x406].copy_from_slice(&[0xA2, 0x10, 0xBD, 0xF8, 0xFF, 0x02]);
    memory.data[0x0008] = 0x42;
    let mut cpu = CPU6502::new(memory);
    cpu.reg_pc = 0x400;
    let _ = cpu.run();
    assert_eq!(cpu.reg_a(), 0x42);
    assert_eq!(cpu.cycles_to_wait(), 5);
    // LDX #$10; LDA $F8,X stays on page 0: reads $0008
    let mut memory = FlatMemory::new();
    memory.data[0x400..0x405].copy_from_slice(&[0xA2, 0x10, 0xB5, 0xF8, 0x02]);
    memory.data[0x0008] = 0x24;
    let mut cpu = CPU6502::new(memory);
    cpu.reg_pc = 0x400;
    let _ = cpu.run();
    assert_eq!(cpu.reg_a(), 0x24);
    // a JSR at the top of memory returns to $0000 after wrapping
    let mut memory = FlatMemory::new();
    memory.data[0xFFFD..0x10000].copy_from_slice(&[0x20, 0x00, 0x04]);
    memory.data[0x400] = 0x60;
    memory.data[0x0000] = 0x02;
    let mut cpu = CPU6502::new(memory);
    cpu.reg_pc = 0xFFFD;
    assert_eq!(cpu.run(), Err(0x0000));
}

#[test]
fn cpu_brk_enters_the_interrupt_vector() {
    let mut memory = FlatMemory::new();
    memory.data[0x400] = 0x00; // BRK
    memory.data[0x410] = 0x02;
    memory.data[0xFFFE] = 0x10;
    memory.data[0xFFFF] = 0x04;
    let mut cpu = CPU6502::new(memory);
    cpu.reg_pc = 0x400;
    assert_eq!(cpu.run(), Err(0x410));
    assert_eq!(cpu.cycles_to_wait(), 7);
    assert_eq!(cpu.reg_sp(), 0xFA);
    // the address past the padding byte, then the status with the break bit
    assert_eq!(cpu.bus().data[0x1FD], 0x04);
    assert_eq!(cpu.bus().data[0x1FC], 0x02);
    assert_eq!(cpu.bus().data[0x1FB], 0x30);
    // interrupts are disabled
    assert_eq!(cpu.reg_status() & 0x04, 0x04);
}

#[test]
fn cpu_zero_page_pointers_wrap_in_page_zero() {
    // LDY #$00; LDA ($FF),Y: the pointer's high byte comes from $0000
    let mut memory = FlatMemory::new();
    memory.data[0x400..0x405].copy_from_slice(&[0xA0, 0x00, 0xB1, 0xFF, 0x02]);
    memory.data[0x00FF] = 0x34;
    memory.data[0x0000] = 0x12;
    memory.data[0x0100] = 0x56;
    memory.data[0x1234] = 0x77;
    let mut cpu = CPU6502::new(memory);
    cpu.reg_pc = 0x400;
    let _ = cpu.run();
    assert_eq!(cpu.reg_a(), 0x77);
    // LDX #$00; LDA ($FF,X): the same pointer
    let mut memory = FlatMemory::new();
    memory.data[0x400..0x405].copy_from_slice(&[0xA2, 0x00, 0xA1, 0xFF, 0x02]);
    memory.data[0x00FF] = 0x34;
    memory.data[0x0000] = 0x12;
    memory.data[0x0100] = 0x56;
    memory.data[0x1234] = 0x66;
    let mut cpu = CPU6502::new(memory);
    cpu.reg_pc = 0x400;
    let _ = cpu.run();
    assert_eq!(cpu.reg_a(), 0x66);
}
