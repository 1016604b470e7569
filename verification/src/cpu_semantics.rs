//! What the 6502 does, as mathematical functions of its state: how an
//! instruction is fetched, how its operand is decoded, and what executing it
//! leaves in the registers, the status flags and memory.

use vstd::prelude::*;
use crate::instruction::{AddressingMode, Instruction, Opcode, opcode_of, addressing_mode_of};
use crate::memory::Bus;

verus! {

pub const FLAG_CARRY: u8 = 0x01;
pub const FLAG_ZERO: u8 = 0x02;
pub const FLAG_INTERRUPT_DISABLE: u8 = 0x04;
pub const FLAG_DECIMAL_MODE: u8 = 0x08;
pub const FLAG_BREAK_COMMAND: u8 = 0x10;
pub const FLAG_OVERFLOW: u8 = 0x40;
pub const FLAG_NEGATIVE: u8 = 0x80;

/// The bits of the status register that are set after every instruction
/// (the unused bit and the break bit).
pub const STATUS_ALWAYS_SET: u8 = 0x30;

/// The complete state of the CPU: registers, the cycle count of the last
/// instruction, and the memory bus.
pub struct CpuState<B> {
    pub pc: u16,
    pub sp: u8,
    pub a: u8,
    pub x: u8,
    pub y: u8,
    pub status: u8,
    pub cycles_to_wait: u8,
    pub bus: B,
}

/// `status` with the bits of `mask` set when `on`, cleared otherwise.
pub open spec fn set_flag_to(status: u8, mask: u8, on: bool) -> u8 {
    if on {
        status | mask
    } else {
        status & !mask
    }
}

/// Whether a byte is negative in two's complement.
pub open spec fn is_negative(v: u8) -> bool {
    v >= 0x80
}

/// `status` with the zero and negative flags describing `v`.
pub open spec fn with_zn(status: u8, v: u8) -> u8 {
    set_flag_to(set_flag_to(status, FLAG_ZERO, v == 0), FLAG_NEGATIVE, is_negative(v))
}

/// The carry flag as a number.
pub open spec fn carry_of(status: u8) -> int {
    if status & FLAG_CARRY == 0 {
        0
    } else {
        1
    }
}

/// Whether two addresses lie in the same 256-byte page.
pub open spec fn same_page(a: int, b: int) -> bool {
    a / 256 == b / 256
}

/// The 16-bit little-endian word whose bytes are at `low_addr` and `high_addr`.
pub open spec fn read_word<B: Bus>(bus: B, low_addr: int, high_addr: int) -> int {
    bus.spec_read(high_addr as u16) * 256 + bus.spec_read(low_addr as u16)
}

/// The extra cycle that indexing costs when it crosses a page.
pub open spec fn page_cross_cost(from: int, to: int) -> int {
    if same_page(from, to) {
        0
    } else {
        1
    }
}

/// The operand of a relative branch, sign-extended from its low byte.
pub open spec fn sign_extended(operand: u16) -> int {
    if operand % 256 >= 128 {
        0xFF00 + operand % 256
    } else {
        operand as int
    }
}

/// The effective operand (an address, or the value itself for modes that
/// carry no address) and the cycle count of the instruction so far.
/// Indexing wraps around the 16-bit address space, as on the 6502.
pub open spec fn decode<B: Bus>(s: CpuState<B>, i: Instruction) -> (int, int) {
    let op = i.operand as int;
    let base = i.addressing_mode.spec_base_cycle_time() as int;
    match i.addressing_mode {
        AddressingMode::ZeroPage => (op % 256, base),
        AddressingMode::ZeroPageIndexX => ((op + s.x) % 256, base),
        AddressingMode::ZeroPageIndexY => ((op + s.y) % 256, base),
        AddressingMode::Indirect => {
            // a pointer at the end of a page wraps around within that page
            let high_addr = if op % 256 == 255 {
                op - 255
            } else {
                op + 1
            };
            (read_word(s.bus, op, high_addr), base)
        },
        AddressingMode::XIndirect => {
            let pointer = (op + s.x) % 256;
            (read_word(s.bus, pointer, (pointer + 1) % 256), base)
        },
        AddressingMode::IndirectY => {
            let pointer = op % 256;
            let target = read_word(s.bus, pointer, (pointer + 1) % 256);
            let addr = (target + s.y) % 0x10000;
            (addr, base + page_cross_cost(target, addr))
        },
        AddressingMode::Absolute => (op, base),
        AddressingMode::AbsoluteX => {
            let addr = (op + s.x) % 0x10000;
            (addr, base + page_cross_cost(op, addr))
        },
        AddressingMode::AbsoluteY => {
            let addr = (op + s.y) % 0x10000;
            (addr, base + page_cross_cost(op, addr))
        },
        AddressingMode::Relative => ((s.pc + sign_extended(i.operand)) % 0x10000, base),
        _ => (op, base),
    }
}

/// The value an operand stands for: the byte at `addr` when the operand is
/// an address, otherwise the low byte of the operand itself.
pub open spec fn fetch_operand<B: Bus>(s: CpuState<B>, is_address: bool, addr: int) -> u8 {
    if is_address {
        s.bus.spec_read(addr as u16)
    } else {
        (addr % 256) as u8
    }
}

/// The value an instruction operates on.
pub open spec fn operand_value<B: Bus>(s: CpuState<B>, i: Instruction, addr: int) -> u8 {
    fetch_operand(s, i.addressing_mode.spec_is_operand_address(), addr)
}

/// The value a shift or rotate works on: memory, or the accumulator.
pub open spec fn shift_source<B: Bus>(s: CpuState<B>, i: Instruction, addr: int) -> u8 {
    if i.addressing_mode.spec_is_operand_address() {
        s.bus.spec_read(addr as u16)
    } else {
        s.a
    }
}

/// Puts the result of a shift or rotate back where it came from.
pub open spec fn store_shift_result<B: Bus>(s: CpuState<B>, i: Instruction, addr: int, v: u8) -> CpuState<B> {
    if i.addressing_mode.spec_is_operand_address() {
        CpuState { bus: s.bus.spec_write(addr as u16, v), ..s }
    } else {
        CpuState { a: v, ..s }
    }
}

/// Cycles of a read-modify-write instruction (the shifts and rotates, INC,
/// DEC and the undocumented ones that combine them), as the 6502 takes
/// them: 2 on the accumulator, 5 on zero page, 6 on zero page indexed and
/// absolute, 7 on absolute indexed and 8 on the indirect modes, page
/// crossing or not.
pub open spec fn modify_cycles(i: Instruction) -> int {
    match i.addressing_mode {
        AddressingMode::ZeroPage => 5,
        AddressingMode::ZeroPageIndexX | AddressingMode::ZeroPageIndexY
        | AddressingMode::Absolute => 6,
        AddressingMode::AbsoluteX | AddressingMode::AbsoluteY => 7,
        AddressingMode::XIndirect | AddressingMode::IndirectY | AddressingMode::Indirect => 8,
        _ => 2,
    }
}

/// Cycles of a store: absolute indexed stores take 5 and indirect indexed
/// ones 6, page crossing or not; the other modes take their base time.
pub open spec fn store_cycles(i: Instruction, cycles: int) -> int {
    match i.addressing_mode {
        AddressingMode::AbsoluteX | AddressingMode::AbsoluteY => 5,
        AddressingMode::IndirectY => 6,
        _ => cycles,
    }
}

/// Pushes a byte on the stack at page 1.
pub open spec fn push<B: Bus>(s: CpuState<B>, data: u8) -> CpuState<B> {
    CpuState {
        bus: s.bus.spec_write((0x100 + s.sp) as u16, data),
        sp: ((s.sp + 255) % 256) as u8,
        ..s
    }
}

/// Moves the stack pointer up by one, to the byte that a pull returns.
pub open spec fn pull<B: Bus>(s: CpuState<B>) -> CpuState<B> {
    CpuState { sp: ((s.sp + 1) % 256) as u8, ..s }
}

/// The byte the stack pointer points at.
pub open spec fn stack_top<B: Bus>(s: CpuState<B>) -> u8 {
    s.bus.spec_read((0x100 + s.sp) as u16)
}

/// Binary addition with carry: the sum's low byte and the new status.
pub open spec fn adc<B: Bus>(s: CpuState<B>, m: u8) -> CpuState<B> {
    let sum = s.a + m + carry_of(s.status);
    let r = (sum % 256) as u8;
    let overflow = is_negative(r) != is_negative(s.a) && is_negative(m) == is_negative(s.a);
    let st1 = set_flag_to(s.status, FLAG_OVERFLOW, overflow);
    let st2 = set_flag_to(st1, FLAG_CARRY, sum >= 256);
    CpuState { a: r, status: with_zn(st2, r), ..s }
}

/// Binary subtraction with borrow (the inverted carry).
pub open spec fn sbc<B: Bus>(s: CpuState<B>, m: u8) -> CpuState<B> {
    let diff = s.a - m - (1 - carry_of(s.status));
    let r = ((diff + 256) % 256) as u8;
    let overflow = is_negative(r) != is_negative(s.a) && is_negative(m) != is_negative(s.a);
    let st1 = set_flag_to(s.status, FLAG_OVERFLOW, overflow);
    let st2 = set_flag_to(st1, FLAG_CARRY, diff >= 0);
    CpuState { a: r, status: with_zn(st2, r), ..s }
}

/// Flags of comparing a register with a value.
pub open spec fn compare_flags(status: u8, register: u8, m: u8) -> u8 {
    let st1 = set_flag_to(status, FLAG_ZERO, register == m);
    let st2 = set_flag_to(st1, FLAG_NEGATIVE, (register - m + 256) % 256 >= 128);
    set_flag_to(st2, FLAG_CARRY, register >= m)
}

/// A conditional branch to `target`: one extra cycle when taken, two when
/// the target is on another page.
pub open spec fn branch<B: Bus>(s: CpuState<B>, condition: bool, target: int, cycles: int) -> (CpuState<B>, int) {
    if condition {
        (
            CpuState { pc: target as u16, ..s },
            cycles + if same_page(s.pc as int, target) {
                1int
            } else {
                2int
            },
        )
    } else {
        (s, cycles)
    }
}

/// BRK: pushes the address past its padding byte and the status with the
/// break bit set, disables interrupts and jumps through the vector at
/// 0xFFFE.
pub open spec fn brk<B: Bus>(s: CpuState<B>) -> CpuState<B> {
    let ret = (s.pc + 1) % 0x10000;
    let s1 = push(s, (ret / 256) as u8);
    let s2 = push(s1, (ret % 256) as u8);
    let s3 = push(s2, s.status | STATUS_ALWAYS_SET);
    CpuState {
        status: s.status | FLAG_INTERRUPT_DISABLE,
        pc: read_word(s3.bus, 0xFFFE, 0xFFFF) as u16,
        ..s3
    }
}

/// Opcodes whose operand must be a memory address.
pub open spec fn needs_address(op: Opcode) -> bool {
    match op {
        Opcode::Bit | Opcode::Dec | Opcode::Inc | Opcode::Jmp | Opcode::Jsr | Opcode::Sta
        | Opcode::Stx | Opcode::Sty | Opcode::Slo | Opcode::Sre | Opcode::Rla | Opcode::Rra
        | Opcode::Isc | Opcode::Dcp | Opcode::Sax | Opcode::Ahx | Opcode::Shy | Opcode::Shx
        | Opcode::Tas | Opcode::Las => true,
        _ => false,
    }
}

/// The return address that `RTS` pulls from the stack (before adding one).
pub open spec fn pulled_return_address<B: Bus>(s: CpuState<B>) -> int {
    let s1 = pull(s);
    let s2 = pull(s1);
    stack_top(s2) * 256 + stack_top(s1)
}

/// The instruction is one this CPU executes (all but KIL), with an address
/// operand where it needs one.
pub open spec fn can_execute<B: Bus>(s: CpuState<B>, i: Instruction) -> bool {
    &&& i.opcode != Opcode::Kil
    &&& needs_address(i.opcode) ==> i.addressing_mode.spec_is_operand_address()
}

/// A byte written to memory with its flags, as INC and DEC (and the
/// read-modify-write halves of the undocumented instructions) leave it.
pub open spec fn modify_memory<B: Bus>(s: CpuState<B>, addr: int, r: u8, status: u8) -> CpuState<B> {
    CpuState { status: with_zn(status, r), bus: s.bus.spec_write(addr as u16, r), ..s }
}

/// SLO: ASL on memory, then ORA with the result.
pub open spec fn slo<B: Bus>(s: CpuState<B>, addr: int) -> CpuState<B> {
    let v = s.bus.spec_read(addr as u16);
    let r = ((2 * v) % 256) as u8;
    let s1 = modify_memory(s, addr, r, set_flag_to(s.status, FLAG_CARRY, v >= 128));
    CpuState { a: r | s1.a, status: with_zn(s1.status, r | s1.a), ..s1 }
}

/// SRE: LSR on memory, then EOR with the result.
pub open spec fn sre<B: Bus>(s: CpuState<B>, addr: int) -> CpuState<B> {
    let v = s.bus.spec_read(addr as u16);
    let r = (v / 2) as u8;
    let s1 = modify_memory(s, addr, r, set_flag_to(s.status, FLAG_CARRY, v % 2 == 1));
    CpuState { a: r ^ s1.a, status: with_zn(s1.status, r ^ s1.a), ..s1 }
}

/// RLA: ROL on memory, then AND with the result.
pub open spec fn rla<B: Bus>(s: CpuState<B>, addr: int) -> CpuState<B> {
    let v = s.bus.spec_read(addr as u16);
    let r = ((2 * v + carry_of(s.status)) % 256) as u8;
    let s1 = modify_memory(s, addr, r, set_flag_to(s.status, FLAG_CARRY, v >= 128));
    CpuState { a: r & s1.a, status: with_zn(s1.status, r & s1.a), ..s1 }
}

/// RRA: ROR on memory, then ADC with the result.
pub open spec fn rra<B: Bus>(s: CpuState<B>, addr: int) -> CpuState<B> {
    let v = s.bus.spec_read(addr as u16);
    let r = (v / 2 + 128 * carry_of(s.status)) as u8;
    adc(modify_memory(s, addr, r, set_flag_to(s.status, FLAG_CARRY, v % 2 == 1)), r)
}

/// ISC: INC on memory, then SBC with the result.
pub open spec fn isc<B: Bus>(s: CpuState<B>, addr: int) -> CpuState<B> {
    let r = ((s.bus.spec_read(addr as u16) + 1) % 256) as u8;
    sbc(modify_memory(s, addr, r, s.status), r)
}

/// DCP: DEC on memory, then CMP with the result.
pub open spec fn dcp<B: Bus>(s: CpuState<B>, addr: int) -> CpuState<B> {
    let r = ((s.bus.spec_read(addr as u16) + 255) % 256) as u8;
    let s1 = modify_memory(s, addr, r, s.status);
    CpuState { status: compare_flags(s1.status, s1.a, r), ..s1 }
}

/// The other undocumented instructions: SAX stores A and X; LAX loads A and
/// X; ANC, ALR, ARR, AXS and XAA work on A (and X) with the operand (ARR
/// takes the carry from bit 6 of its result and the overflow from bit 6 xor
/// bit 5); AHX, SHY, SHX and TAS store a register masked with the high byte
/// of the address plus one; LAS loads A, X and the stack pointer.
pub open spec fn undocumented_register<B: Bus>(s: CpuState<B>, op: Opcode, m: u8, addr: int) -> CpuState<B> {
    let st = s.status;
    let high = ((addr / 256 + 1) % 256) as u8;
    match op {
        Opcode::Sax => CpuState { bus: s.bus.spec_write(addr as u16, s.a & s.x), ..s },
        Opcode::Lax => CpuState { a: m, x: m, status: with_zn(st, m), ..s },
        Opcode::Anc => {
            let r = s.a & m;
            CpuState { a: r, status: set_flag_to(with_zn(st, r), FLAG_CARRY, is_negative(r)), ..s }
        },
        Opcode::Alr => {
            let t = s.a & m;
            let r = (t / 2) as u8;
            CpuState { a: r, status: with_zn(set_flag_to(st, FLAG_CARRY, t % 2 == 1), r), ..s }
        },
        Opcode::Arr => {
            let t = s.a & m;
            let r = (t / 2 + 128 * carry_of(st)) as u8;
            let st1 = set_flag_to(st, FLAG_CARRY, r & 0x40 != 0);
            let st2 = set_flag_to(st1, FLAG_OVERFLOW, (r & 0x40 != 0) != (r & 0x20 != 0));
            CpuState { a: r, status: with_zn(st2, r), ..s }
        },
        Opcode::Axs => {
            let t = s.a & s.x;
            CpuState { x: ((t - m + 256) % 256) as u8, status: compare_flags(st, t, m), ..s }
        },
        Opcode::Xaa => CpuState { a: s.x & m, status: with_zn(st, s.x & m), ..s },
        Opcode::Ahx => CpuState { bus: s.bus.spec_write(addr as u16, s.a & s.x & high), ..s },
        Opcode::Shy => CpuState { bus: s.bus.spec_write(addr as u16, s.y & high), ..s },
        Opcode::Shx => CpuState { bus: s.bus.spec_write(addr as u16, s.x & high), ..s },
        Opcode::Tas => {
            let sp = s.x & s.a;
            CpuState { sp, bus: s.bus.spec_write(addr as u16, sp & high), ..s }
        },
        _ => {
            let r = s.bus.spec_read(addr as u16) & s.sp;
            CpuState { a: r, x: r, sp: r, status: with_zn(st, r), ..s }
        },
    }
}

/// The undocumented instructions, as the opcode list describes them: the
/// read-modify-write ones do the memory operation, then the register one.
pub open spec fn execute_undocumented<B: Bus>(s: CpuState<B>, i: Instruction, addr: int, cycles: int) -> (CpuState<B>, int) {
    match i.opcode {
        Opcode::Slo => (slo(s, addr), modify_cycles(i)),
        Opcode::Sre => (sre(s, addr), modify_cycles(i)),
        Opcode::Rla => (rla(s, addr), modify_cycles(i)),
        Opcode::Rra => (rra(s, addr), modify_cycles(i)),
        Opcode::Isc => (isc(s, addr), modify_cycles(i)),
        Opcode::Dcp => (dcp(s, addr), modify_cycles(i)),
        Opcode::Sax | Opcode::Ahx | Opcode::Shy | Opcode::Shx | Opcode::Tas => (
            undocumented_register(s, i.opcode, operand_value(s, i, addr), addr),
            store_cycles(i, cycles),
        ),
        _ => (undocumented_register(s, i.opcode, operand_value(s, i, addr), addr), cycles),
    }
}

/// The state after executing an instruction whose decoded operand is `addr`,
/// and the cycles it took; the status bits that are always set are added
/// afterwards by `execute`.
pub open spec fn execute_core<B: Bus>(s: CpuState<B>, i: Instruction, addr: int, cycles: int) -> (CpuState<B>, int) {
    let m = operand_value(s, i, addr);
    let st = s.status;
    match i.opcode {
        Opcode::Adc => (adc(s, m), cycles),
        Opcode::Sbc => (sbc(s, m), cycles),
        Opcode::Asl => {
            let v = shift_source(s, i, addr);
            let r = ((2 * v) % 256) as u8;
            let status = with_zn(set_flag_to(st, FLAG_CARRY, v >= 128), r);
            (store_shift_result(CpuState { status, ..s }, i, addr, r), modify_cycles(i))
        },
        Opcode::Lsr => {
            let v = shift_source(s, i, addr);
            let r = (v / 2) as u8;
            let status = with_zn(set_flag_to(st, FLAG_CARRY, v % 2 == 1), r);
            (store_shift_result(CpuState { status, ..s }, i, addr, r), modify_cycles(i))
        },
        Opcode::Rol => {
            let v = shift_source(s, i, addr);
            let r = ((2 * v + carry_of(st)) % 256) as u8;
            let status = with_zn(set_flag_to(st, FLAG_CARRY, v >= 128), r);
            (store_shift_result(CpuState { status, ..s }, i, addr, r), modify_cycles(i))
        },
        Opcode::Ror => {
            let v = shift_source(s, i, addr);
            let r = (v / 2 + 128 * carry_of(st)) as u8;
            let status = with_zn(set_flag_to(st, FLAG_CARRY, v % 2 == 1), r);
            (store_shift_result(CpuState { status, ..s }, i, addr, r), modify_cycles(i))
        },
        Opcode::And => (CpuState { a: m & s.a, status: with_zn(st, m & s.a), ..s }, cycles),
        Opcode::Eor => (CpuState { a: m ^ s.a, status: with_zn(st, m ^ s.a), ..s }, cycles),
        Opcode::Ora => (CpuState { a: m | s.a, status: with_zn(st, m | s.a), ..s }, cycles),
        Opcode::Bit => {
            let v = s.bus.spec_read(addr as u16);
            let st1 = set_flag_to(st, FLAG_NEGATIVE, v & FLAG_NEGATIVE != 0);
            let st2 = set_flag_to(st1, FLAG_OVERFLOW, v & FLAG_OVERFLOW != 0);
            (CpuState { status: set_flag_to(st2, FLAG_ZERO, v & s.a == 0), ..s }, cycles)
        },
        Opcode::Cmp => (CpuState { status: compare_flags(st, s.a, m), ..s }, cycles),
        Opcode::Cpx => (CpuState { status: compare_flags(st, s.x, m), ..s }, cycles),
        Opcode::Cpy => (CpuState { status: compare_flags(st, s.y, m), ..s }, cycles),
        Opcode::Bcc => branch(s, st & FLAG_CARRY == 0, addr, cycles),
        Opcode::Bcs => branch(s, st & FLAG_CARRY != 0, addr, cycles),
        Opcode::Beq => branch(s, st & FLAG_ZERO != 0, addr, cycles),
        Opcode::Bmi => branch(s, st & FLAG_NEGATIVE != 0, addr, cycles),
        Opcode::Bne => branch(s, st & FLAG_ZERO == 0, addr, cycles),
        Opcode::Bpl => branch(s, st & FLAG_NEGATIVE == 0, addr, cycles),
        Opcode::Bvc => branch(s, st & FLAG_OVERFLOW == 0, addr, cycles),
        Opcode::Bvs => branch(s, st & FLAG_OVERFLOW != 0, addr, cycles),
        Opcode::Dec => {
            let r = ((s.bus.spec_read(addr as u16) + 255) % 256) as u8;
            (
                CpuState { status: with_zn(st, r), bus: s.bus.spec_write(addr as u16, r), ..s },
                modify_cycles(i),
            )
        },
        Opcode::Inc => {
            let r = ((s.bus.spec_read(addr as u16) + 1) % 256) as u8;
            (
                CpuState { status: with_zn(st, r), bus: s.bus.spec_write(addr as u16, r), ..s },
                modify_cycles(i),
            )
        },
        Opcode::Clc => (CpuState { status: st & !FLAG_CARRY, ..s }, cycles),
        Opcode::Cld => (CpuState { status: st & !FLAG_DECIMAL_MODE, ..s }, cycles),
        Opcode::Cli => (CpuState { status: st & !FLAG_INTERRUPT_DISABLE, ..s }, cycles),
        Opcode::Clv => (CpuState { status: st & !FLAG_OVERFLOW, ..s }, cycles),
        Opcode::Sec => (CpuState { status: st | FLAG_CARRY, ..s }, cycles),
        Opcode::Sed => (CpuState { status: st | FLAG_DECIMAL_MODE, ..s }, cycles),
        Opcode::Sei => (CpuState { status: st | FLAG_INTERRUPT_DISABLE, ..s }, cycles),
        Opcode::Jmp => (
            CpuState { pc: addr as u16, ..s },
            if i.addressing_mode == AddressingMode::Indirect {
                5int
            } else {
                3int
            },
        ),
        Opcode::Jsr => {
            let ret = (s.pc + 0xFFFF) % 0x10000;
            let s1 = push(s, (ret / 256) as u8);
            let s2 = push(s1, (ret % 256) as u8);
            (CpuState { pc: addr as u16, ..s2 }, 6)
        },
        Opcode::Rti => {
            let s1 = pull(s);
            let s2 = pull(s1);
            let s3 = pull(s2);
            (
                CpuState {
                    status: stack_top(s1),
                    pc: (stack_top(s3) * 256 + stack_top(s2)) as u16,
                    ..s3
                },
                6,
            )
        },
        Opcode::Rts => {
            let s2 = pull(pull(s));
            (CpuState { pc: ((pulled_return_address(s) + 1) % 0x10000) as u16, ..s2 }, 6)
        },
        Opcode::Lda => (CpuState { a: m, status: with_zn(st, m), ..s }, cycles),
        Opcode::Ldx => (CpuState { x: m, status: with_zn(st, m), ..s }, cycles),
        Opcode::Ldy => (CpuState { y: m, status: with_zn(st, m), ..s }, cycles),
        Opcode::Dex => {
            let r = ((s.x + 255) % 256) as u8;
            (CpuState { x: r, status: with_zn(st, r), ..s }, cycles)
        },
        Opcode::Dey => {
            let r = ((s.y + 255) % 256) as u8;
            (CpuState { y: r, status: with_zn(st, r), ..s }, cycles)
        },
        Opcode::Inx => {
            let r = ((s.x + 1) % 256) as u8;
            (CpuState { x: r, status: with_zn(st, r), ..s }, cycles)
        },
        Opcode::Iny => {
            let r = ((s.y + 1) % 256) as u8;
            (CpuState { y: r, status: with_zn(st, r), ..s }, cycles)
        },
        Opcode::Tax => (CpuState { x: s.a, status: with_zn(st, s.a), ..s }, cycles),
        Opcode::Tay => (CpuState { y: s.a, status: with_zn(st, s.a), ..s }, cycles),
        Opcode::Txa => (CpuState { a: s.x, status: with_zn(st, s.x), ..s }, cycles),
        Opcode::Tya => (CpuState { a: s.y, status: with_zn(st, s.y), ..s }, cycles),
        Opcode::Tsx => (CpuState { x: s.sp, status: with_zn(st, s.sp), ..s }, cycles),
        Opcode::Txs => (CpuState { sp: s.x, ..s }, cycles),
        Opcode::Pha => (push(s, s.a), 3),
        Opcode::Php => (push(s, st), 3),
        Opcode::Pla => {
            let s1 = pull(s);
            let v = stack_top(s1);
            (CpuState { a: v, status: with_zn(st, v), ..s1 }, 4)
        },
        Opcode::Plp => {
            let s1 = pull(s);
            (CpuState { status: stack_top(s1), ..s1 }, 4)
        },
        Opcode::Sta => (CpuState { bus: s.bus.spec_write(addr as u16, s.a), ..s }, store_cycles(i, cycles)),
        Opcode::Stx => (CpuState { bus: s.bus.spec_write(addr as u16, s.x), ..s }, store_cycles(i, cycles)),
        Opcode::Sty => (CpuState { bus: s.bus.spec_write(addr as u16, s.y), ..s }, store_cycles(i, cycles)),
        Opcode::Slo | Opcode::Sre | Opcode::Rla | Opcode::Rra | Opcode::Isc | Opcode::Dcp
        | Opcode::Sax | Opcode::Lax | Opcode::Anc | Opcode::Alr | Opcode::Arr | Opcode::Axs
        | Opcode::Xaa | Opcode::Ahx | Opcode::Shy | Opcode::Shx | Opcode::Tas | Opcode::Las => {
            execute_undocumented(s, i, addr, cycles)
        },
        Opcode::Brk => (brk(s), 7),
        // NOP, and KIL (which `can_execute` excludes)
        _ => (s, cycles),
    }
}

/// The state after executing a fetched instruction: decode, execute, then
/// set the always-set status bits and record the cycle count.
pub open spec fn execute<B: Bus>(s: CpuState<B>, i: Instruction) -> CpuState<B> {
    let (addr, cycles) = decode(s, i);
    let (t, c) = execute_core(s, i, addr, cycles);
    CpuState { status: t.status | STATUS_ALWAYS_SET, cycles_to_wait: c as u8, ..t }
}

/// The length of the instruction at the program counter.
pub open spec fn fetch_len<B: Bus>(s: CpuState<B>) -> nat {
    addressing_mode_of(s.bus.spec_read(s.pc)).spec_instruction_len()
}

/// The instruction at the program counter, with its little-endian operand.
pub open spec fn fetched_instruction<B: Bus>(s: CpuState<B>) -> Instruction {
    let byte = s.bus.spec_read(s.pc);
    let len = fetch_len(s);
    let low = if len > 1 {
        s.bus.spec_read(((s.pc + 1) % 0x10000) as u16) as int
    } else {
        0
    };
    let high = if len > 2 {
        s.bus.spec_read(((s.pc + 2) % 0x10000) as u16) as int
    } else {
        0
    };
    Instruction {
        opcode_byte: byte,
        operand: (high * 256 + low) as u16,
        opcode: opcode_of(byte),
        addressing_mode: addressing_mode_of(byte),
    }
}

/// The state after fetching: the program counter moved past the instruction.
pub open spec fn after_fetch<B: Bus>(s: CpuState<B>) -> CpuState<B> {
    CpuState { pc: ((s.pc + fetch_len(s)) % 0x10000) as u16, ..s }
}

/// The next instruction can be fetched and executed.
pub open spec fn can_step<B: Bus>(s: CpuState<B>) -> bool {
    can_execute(after_fetch(s), fetched_instruction(s))
}

/// Fetch and execute one instruction.
#[verifier::opaque]
pub open spec fn step<B: Bus>(s: CpuState<B>) -> CpuState<B> {
    execute(after_fetch(s), fetched_instruction(s))
}

/// `n` steps from `s`.
pub open spec fn run_steps<B: Bus>(s: CpuState<B>, n: nat) -> CpuState<B>
    decreases n,
{
    if n == 0 {
        s
    } else {
        step(run_steps(s, (n - 1) as nat))
    }
}

/// `end` is `n` steps after `start`; every one of them could be executed and
/// all but the last moved the program counter; and the run ended because the
/// step limit was reached, the next instruction cannot be executed, or the
/// last step left the program counter where it was.
pub open spec fn ran_until_stop<B: Bus>(start: CpuState<B>, end: CpuState<B>, n: nat, limit: nat) -> bool {
    &&& end == run_steps(start, n)
    &&& forall|k: nat| k < n ==> can_step(#[trigger] run_steps(start, k))
    &&& forall|k: nat| k + 1 < n ==> !stalls(#[trigger] run_steps(start, k))
    &&& (n == limit || !can_step(end) || (n > 0 && stalls(run_steps(start, (n - 1) as nat))))
}

/// The step from `s` leaves the program counter where it was: the program
/// is stuck in a loop on one instruction.
pub open spec fn stalls<B: Bus>(s: CpuState<B>) -> bool {
    step(s).pc == s.pc
}

} // verus!
