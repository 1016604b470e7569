//! What holds of every run of the CPU and of the flat memory: the status
//! bits that are always set, the stack giving back what was pushed, calls
//! returning where they were made, and how instructions relate to each
//! other.

use vstd::prelude::*;
use crate::cpu_semantics::{
    operand_value, is_negative, adc, carry_of, dcp, decode, read_word, execute, execute_core, isc, pull, pulled_return_address, push, rla,
    rra, same_page, sbc, set_flag_to, slo, sre, stack_top, with_zn, CpuState, STATUS_ALWAYS_SET,
};
use crate::instruction::{AddressingMode, Instruction, Opcode};
use crate::memory::{Bus, FlatMemory};

verus! {

/// After any instruction, bits 4 and 5 of the status register are set.
pub proof fn lemma_status_bits_always_set<B: Bus>(s: CpuState<B>, i: Instruction)
    ensures
        execute(s, i).status & STATUS_ALWAYS_SET == STATUS_ALWAYS_SET,
{
    assert forall|x: u8| #[trigger] ((x | 0x30u8) & 0x30u8) == 0x30u8 by {
        assert((x | 0x30u8) & 0x30u8 == 0x30u8) by (bit_vector);
    }
}

/// The flat memory reads back what was written at an address, and writing
/// one address leaves the others as they were.
pub proof fn lemma_flat_memory_read_after_write(m: FlatMemory, address: u16, data: u8, other: u16)
    ensures
        m.spec_write(address, data).spec_read(address) == data,
        other != address ==> m.spec_write(address, data).spec_read(other) == m.spec_read(other),
{
    broadcast use vstd::array::group_array_axioms;
}

/// On the flat memory, a pull after a push gives back the pushed byte and
/// the stack pointer where it was.
pub proof fn lemma_push_then_pull(s: CpuState<FlatMemory>, data: u8)
    ensures
        stack_top(pull(push(s, data))) == data,
        pull(push(s, data)).sp == s.sp,
{
    let pushed = push(s, data);
    lemma_flat_memory_read_after_write(s.bus, (0x100 + s.sp) as u16, data, (0x100 + s.sp) as u16);
    assert(pull(pushed).sp == s.sp);
}

/// An instruction with an absolute address operand.
pub open spec fn absolute(opcode: Opcode, address: u16) -> Instruction {
    Instruction { opcode_byte: 0, operand: address, opcode, addressing_mode: AddressingMode::Absolute }
}

/// The state after one instruction on an absolute address.
pub open spec fn run_absolute(s: CpuState<FlatMemory>, opcode: Opcode, address: u16) -> CpuState<FlatMemory> {
    execute_core(s, absolute(opcode, address), address as int, 0).0
}

/// The memory half of a read-modify-write instruction leaves its result
/// where the register half reads it back.
proof fn lemma_modified_read_back(s: CpuState<FlatMemory>, opcode: Opcode, address: u16)
    requires
        opcode == Opcode::Asl || opcode == Opcode::Lsr || opcode == Opcode::Rol || opcode == Opcode::Ror
            || opcode == Opcode::Inc || opcode == Opcode::Dec,
    ensures
        run_absolute(s, opcode, address).bus == s.bus.spec_write(
            address,
            run_absolute(s, opcode, address).bus.spec_read(address),
        ),
{
    broadcast use vstd::array::group_array_axioms;
    let t = run_absolute(s, opcode, address);
    assert(t.bus.data =~= s.bus.spec_write(address, t.bus.spec_read(address)).data);
}

/// On the flat memory, SLO is ASL then ORA on the same address.
pub proof fn lemma_slo_is_asl_then_ora(s: CpuState<FlatMemory>, address: u16)
    ensures
        slo(s, address as int) == run_absolute(run_absolute(s, Opcode::Asl, address), Opcode::Ora, address),
{
    let t = run_absolute(s, Opcode::Asl, address);
    lemma_modified_read_back(s, Opcode::Asl, address);
    lemma_flat_memory_read_after_write(s.bus, address, t.bus.spec_read(address), address);
}

/// On the flat memory, SRE is LSR then EOR on the same address.
pub proof fn lemma_sre_is_lsr_then_eor(s: CpuState<FlatMemory>, address: u16)
    ensures
        sre(s, address as int) == run_absolute(run_absolute(s, Opcode::Lsr, address), Opcode::Eor, address),
{
    let t = run_absolute(s, Opcode::Lsr, address);
    lemma_modified_read_back(s, Opcode::Lsr, address);
    lemma_flat_memory_read_after_write(s.bus, address, t.bus.spec_read(address), address);
}

/// On the flat memory, RLA is ROL then AND on the same address.
pub proof fn lemma_rla_is_rol_then_and(s: CpuState<FlatMemory>, address: u16)
    ensures
        rla(s, address as int) == run_absolute(run_absolute(s, Opcode::Rol, address), Opcode::And, address),
{
    let t = run_absolute(s, Opcode::Rol, address);
    lemma_modified_read_back(s, Opcode::Rol, address);
    lemma_flat_memory_read_after_write(s.bus, address, t.bus.spec_read(address), address);
}

/// On the flat memory, RRA is ROR then ADC on the same address.
pub proof fn lemma_rra_is_ror_then_adc(s: CpuState<FlatMemory>, address: u16)
    ensures
        rra(s, address as int) == run_absolute(run_absolute(s, Opcode::Ror, address), Opcode::Adc, address),
{
    let t = run_absolute(s, Opcode::Ror, address);
    lemma_modified_read_back(s, Opcode::Ror, address);
    lemma_flat_memory_read_after_write(s.bus, address, t.bus.spec_read(address), address);
}

/// On the flat memory, ISC is INC then SBC on the same address.
pub proof fn lemma_isc_is_inc_then_sbc(s: CpuState<FlatMemory>, address: u16)
    ensures
        isc(s, address as int) == run_absolute(run_absolute(s, Opcode::Inc, address), Opcode::Sbc, address),
{
    let t = run_absolute(s, Opcode::Inc, address);
    lemma_modified_read_back(s, Opcode::Inc, address);
    lemma_flat_memory_read_after_write(s.bus, address, t.bus.spec_read(address), address);
}

/// On the flat memory, DCP is DEC then CMP on the same address.
pub proof fn lemma_dcp_is_dec_then_compare(s: CpuState<FlatMemory>, address: u16)
    ensures
        dcp(s, address as int) == run_absolute(run_absolute(s, Opcode::Dec, address), Opcode::Cmp, address),
{
    let t = run_absolute(s, Opcode::Dec, address);
    lemma_modified_read_back(s, Opcode::Dec, address);
    lemma_flat_memory_read_after_write(s.bus, address, t.bus.spec_read(address), address);
}

/// Subtraction with borrow is addition with carry of the complemented
/// operand: `SBC #m` leaves the accumulator and every flag as `ADC #!m` does.
pub proof fn lemma_sbc_is_adc_of_complement<B: Bus>(s: CpuState<B>, m: u8)
    ensures
        sbc(s, m) == adc(s, !m),
{
    assert(!m == 255 - m) by (bit_vector);
}

/// Setting the zero and negative flags leaves the carry flag alone.
proof fn lemma_carry_after_shift(status: u8, on: bool, r: u8)
    by (bit_vector)
    ensures
        (with_zn(set_flag_to(status, 1u8, on), r) & 1u8 == 0u8) == !on,
{
}

/// An instruction on the accumulator.
pub open spec fn on_accumulator(opcode: Opcode) -> Instruction {
    Instruction { opcode_byte: 0, operand: 0, opcode, addressing_mode: AddressingMode::Accumulator }
}

/// An instruction without an operand.
pub open spec fn on_implied(opcode: Opcode) -> Instruction {
    Instruction { opcode_byte: 0, operand: 0, opcode, addressing_mode: AddressingMode::Implied }
}

/// The state after one instruction on the accumulator.
#[verifier::opaque]
pub open spec fn run_accumulator<B: Bus>(s: CpuState<B>, opcode: Opcode) -> CpuState<B> {
    execute_core(s, on_accumulator(opcode), 0, 2).0
}

/// ROL A and ROR A as their results.
proof fn lemma_rotate_steps<B: Bus>(s: CpuState<B>)
    ensures
        run_accumulator(s, Opcode::Rol) == (CpuState {
            a: ((2 * s.a + carry_of(s.status)) % 256) as u8,
            status: with_zn(
                set_flag_to(s.status, 1u8, s.a >= 128),
                ((2 * s.a + carry_of(s.status)) % 256) as u8,
            ),
            ..s
        }),
        run_accumulator(s, Opcode::Ror) == (CpuState {
            a: (s.a / 2 + 128 * carry_of(s.status)) as u8,
            status: with_zn(
                set_flag_to(s.status, 1u8, s.a % 2 == 1),
                (s.a / 2 + 128 * carry_of(s.status)) as u8,
            ),
            ..s
        }),
{
    reveal(run_accumulator);
}

/// ROL A and ROR A undo each other: either order gives back the
/// accumulator and the carry, and leaves memory alone.
#[verifier::rlimit(30)]
pub proof fn lemma_rotate_round_trip<B: Bus>(s: CpuState<B>)
    ensures
        run_accumulator(run_accumulator(s, Opcode::Rol), Opcode::Ror).a == s.a,
        carry_of(run_accumulator(run_accumulator(s, Opcode::Rol), Opcode::Ror).status) == carry_of(
            s.status,
        ),
        run_accumulator(run_accumulator(s, Opcode::Rol), Opcode::Ror).bus == s.bus,
        run_accumulator(run_accumulator(s, Opcode::Ror), Opcode::Rol).a == s.a,
        carry_of(run_accumulator(run_accumulator(s, Opcode::Ror), Opcode::Rol).status) == carry_of(
            s.status,
        ),
        run_accumulator(run_accumulator(s, Opcode::Ror), Opcode::Rol).bus == s.bus,
{
    let c = carry_of(s.status);
    let a = s.a;
    // ROL then ROR
    let t = run_accumulator(s, Opcode::Rol);
    lemma_rotate_steps(s);
    let r = ((2 * a + c) % 256) as u8;
    lemma_carry_after_shift(s.status, a >= 128, r);
    let u = run_accumulator(t, Opcode::Ror);
    lemma_rotate_steps(t);
    lemma_carry_after_shift(t.status, r % 2 == 1, (r / 2 + 128 * carry_of(t.status)) as u8);
    assert(u.a == a);
    // ROR then ROL
    let t2 = run_accumulator(s, Opcode::Ror);
    let r2 = (a / 2 + 128 * c) as u8;
    lemma_carry_after_shift(s.status, a % 2 == 1, r2);
    let u2 = run_accumulator(t2, Opcode::Rol);
    lemma_rotate_steps(t2);
    lemma_carry_after_shift(t2.status, r2 >= 128, ((2 * r2 + carry_of(t2.status)) % 256) as u8);
    assert(u2.a == a);
}

/// JSR and RTS as their results.
proof fn lemma_call_steps<B: Bus>(s: CpuState<B>, target: u16)
    ensures
        run_absolute_on(s, Opcode::Jsr, target) == (CpuState {
            pc: target,
            ..push(
                push(s, (((s.pc + 0xFFFF) % 0x10000) / 256) as u8),
                (((s.pc + 0xFFFF) % 0x10000) % 256) as u8,
            )
        }),
        run_implied(s, Opcode::Rts) == (CpuState {
            pc: ((pulled_return_address(s) + 1) % 0x10000) as u16,
            ..pull(pull(s))
        }),
{
    reveal(run_absolute_on);
    reveal(run_implied);
}

/// The state after one instruction without an operand.
#[verifier::opaque]
pub open spec fn run_implied<B: Bus>(s: CpuState<B>, opcode: Opcode) -> CpuState<B> {
    execute_core(s, on_implied(opcode), 0, 2).0
}

/// The state after one instruction on an absolute address, on any bus.
#[verifier::opaque]
pub open spec fn run_absolute_on<B: Bus>(s: CpuState<B>, opcode: Opcode, address: u16) -> CpuState<B> {
    execute_core(s, absolute(opcode, address), address as int, 0).0
}

/// On the flat memory, a call returns where it was made: JSR to any
/// target, then RTS, leaves the program counter (just past the JSR) and the
/// stack pointer as they were.
#[verifier::rlimit(30)]
pub proof fn lemma_call_then_return(s: CpuState<FlatMemory>, target: u16)
    ensures
        run_absolute_on(s, Opcode::Jsr, target).pc == target,
        run_implied(run_absolute_on(s, Opcode::Jsr, target), Opcode::Rts).pc == s.pc,
        run_implied(run_absolute_on(s, Opcode::Jsr, target), Opcode::Rts).sp == s.sp,
{
    let ret = (s.pc + 0xFFFF) % 0x10000;
    let s1 = push(s, (ret / 256) as u8);
    let s2 = push(s1, (ret % 256) as u8);
    let t = run_absolute_on(s, Opcode::Jsr, target);
    lemma_call_steps(s, target);
    lemma_call_steps(t, target);
    assert(t.bus == s2.bus && t.sp == s2.sp);
    let high_addr = (0x100 + s.sp) as u16;
    let low_addr = (0x100 + s1.sp) as u16;
    assert(s1.sp == (s.sp + 255) % 256);
    assert(s2.sp == (s1.sp + 255) % 256);
    assert(pull(t).sp == s1.sp);
    assert(pull(pull(t)).sp == s.sp);
    assert(high_addr != low_addr);
    lemma_flat_memory_read_after_write(s1.bus, low_addr, (ret % 256) as u8, low_addr);
    lemma_flat_memory_read_after_write(s.bus, high_addr, (ret / 256) as u8, high_addr);
    lemma_flat_memory_read_after_write(s1.bus, low_addr, (ret % 256) as u8, high_addr);
    assert(s2.bus == s1.bus.spec_write(low_addr, (ret % 256) as u8));
    assert(s1.bus == s.bus.spec_write(high_addr, (ret / 256) as u8));
    assert(stack_top(pull(t)) == t.bus.spec_read(low_addr));
    assert(stack_top(pull(t)) == (ret % 256) as u8);
    assert(stack_top(pull(pull(t))) == t.bus.spec_read(high_addr));
    assert(stack_top(pull(pull(t))) == (ret / 256) as u8);
    assert(pulled_return_address(t) == ret);
}

/// BRK and RTI as their results.
proof fn lemma_interrupt_steps<B: Bus>(s: CpuState<B>)
    ensures
        run_implied(s, Opcode::Brk) == crate::cpu_semantics::brk(s),
        run_implied(s, Opcode::Rti) == (CpuState {
            status: stack_top(pull(s)),
            pc: (stack_top(pull(pull(pull(s)))) * 256 + stack_top(pull(pull(s)))) as u16,
            ..pull(pull(pull(s)))
        }),
{
    reveal(run_implied);
}

/// On the flat memory, RTI returns from BRK: BRK disables interrupts, and
/// the RTI that follows
/// brings back the program counter past BRK's padding byte, the status
/// (with bits 4 and 5 set, as BRK pushed it) and the stack pointer.
#[verifier::rlimit(40)]
pub proof fn lemma_break_then_return(s: CpuState<FlatMemory>)
    ensures
        run_implied(s, Opcode::Brk).status & 4 != 0,
        run_implied(run_implied(s, Opcode::Brk), Opcode::Rti).pc == (s.pc + 1) % 0x10000,
        run_implied(run_implied(s, Opcode::Brk), Opcode::Rti).status == s.status | 0x30,
        run_implied(run_implied(s, Opcode::Brk), Opcode::Rti).sp == s.sp,
{
    let ret = (s.pc + 1) % 0x10000;
    let t = run_implied(s, Opcode::Brk);
    lemma_interrupt_steps(s);
    lemma_interrupt_steps(t);
    lemma_three_pushes_pulled(s, (ret / 256) as u8, (ret % 256) as u8, s.status | 0x30);
    assert(t.status == s.status | 4u8);
    crate::cpu_laws::lemma_flag_bits(s.status, 4, true);
    assert(s.status | 4u8 == set_flag_to(s.status, 4, true));
}

/// On the flat memory, three pushes pulled back in reverse order give the
/// bytes back, last first, and the stack pointer where it was.
#[verifier::rlimit(40)]
proof fn lemma_three_pushes_pulled(s: CpuState<FlatMemory>, b1: u8, b2: u8, b3: u8)
    ensures
        ({
            let t = push(push(push(s, b1), b2), b3);
            &&& stack_top(pull(t)) == b3
            &&& stack_top(pull(pull(t))) == b2
            &&& stack_top(pull(pull(pull(t)))) == b1
            &&& pull(pull(pull(t))).sp == s.sp
        }),
{
    let s1 = push(s, b1);
    let s2 = push(s1, b2);
    let t = push(s2, b3);
    let a1 = (0x100 + s.sp) as u16;
    let a2 = (0x100 + s1.sp) as u16;
    let a3 = (0x100 + s2.sp) as u16;
    assert(s1.sp == (s.sp + 255) % 256);
    assert(s2.sp == (s1.sp + 255) % 256);
    assert(t.sp == (s2.sp + 255) % 256);
    assert(a1 != a2 && a1 != a3 && a2 != a3);
    assert(pull(t).sp == s2.sp);
    assert(pull(pull(t)).sp == s1.sp);
    assert(pull(pull(pull(t))).sp == s.sp);
    lemma_flat_memory_read_after_write(s2.bus, a3, b3, a3);
    lemma_flat_memory_read_after_write(s2.bus, a3, b3, a2);
    lemma_flat_memory_read_after_write(s2.bus, a3, b3, a1);
    lemma_flat_memory_read_after_write(s1.bus, a2, b2, a2);
    lemma_flat_memory_read_after_write(s1.bus, a2, b2, a1);
    lemma_flat_memory_read_after_write(s.bus, a1, b1, a1);
}

/// Decoding adds at most one cycle to the base time, and only in the
/// indexed modes whose target can lie on another page (absolute X and Y,
/// indirect Y), exactly when the indexed address lies on another page than
/// the unindexed one; zero page indexing stays on page 0.
pub proof fn lemma_decode_page_cross<B: Bus>(s: CpuState<B>, i: Instruction)
    ensures
        ({
            let base = i.addressing_mode.spec_base_cycle_time() as int;
            let (addr, cycles) = decode(s, i);
            &&& cycles == base || cycles == base + 1
            &&& cycles == base + 1 <==> match i.addressing_mode {
                AddressingMode::AbsoluteX | AddressingMode::AbsoluteY => !same_page(i.operand as int, addr),
                AddressingMode::IndirectY => !same_page(
                    read_word(s.bus, i.operand as int % 256, (i.operand as int % 256 + 1) % 256),
                    addr,
                ),
                _ => false,
            }
            &&& (i.addressing_mode == AddressingMode::ZeroPageIndexX || i.addressing_mode
                == AddressingMode::ZeroPageIndexY) ==> 0 <= addr < 256
        }),
{
}

/// The stack instructions work on page 1 at the stack pointer: PHA and PHP
/// write A and the status at 0x100 + SP and move SP down by one (wrapping);
/// PLA and PLP move SP up by one (wrapping) and load A or the status from
/// 0x100 + SP, PLA with zero (0x02) and negative (0x80) describing the
/// byte. Nothing else changes.
#[verifier::rlimit(40)]
pub proof fn lemma_stack_instructions<B: Bus>(s: CpuState<B>)
    ensures
        run_implied(s, Opcode::Pha) == (CpuState {
            bus: s.bus.spec_write((0x100 + s.sp) as u16, s.a),
            sp: ((s.sp + 255) % 256) as u8,
            ..s
        }),
        run_implied(s, Opcode::Php) == (CpuState {
            bus: s.bus.spec_write((0x100 + s.sp) as u16, s.status),
            sp: ((s.sp + 255) % 256) as u8,
            ..s
        }),
        ({
            let sp = ((s.sp + 1) % 256) as u8;
            let v = s.bus.spec_read((0x100 + sp) as u16);
            let t = run_implied(s, Opcode::Pla);
            &&& t == (CpuState { a: v, sp, status: t.status, ..s })
            &&& (t.status & 2 != 0) == (v == 0)
            &&& (t.status & 0x80 != 0) == (v >= 128)
            &&& t.status & 0x4D == s.status & 0x4D
        }),
        run_implied(s, Opcode::Plp) == (CpuState {
            status: s.bus.spec_read((0x100 + ((s.sp + 1) % 256)) as u16),
            sp: ((s.sp + 1) % 256) as u8,
            ..s
        }),
{
    reveal(run_implied);
    let sp = ((s.sp + 1) % 256) as u8;
    let v = s.bus.spec_read((0x100 + sp) as u16);
    lemma_zn_bits(s.status, v);
    assert(with_zn(s.status, v) & 0x4D == s.status & 0x4D) by {
        let st = s.status;
        let r = with_zn(st, v);
        assert(r & 1 == st & 1 && r & 4 == st & 4 && r & 8 == st & 8 && r & 0x40 == st & 0x40);
        assert(r & 0x4D == st & 0x4D) by (bit_vector)
            requires
                r & 1 == st & 1,
                r & 4 == st & 4,
                r & 8 == st & 8,
                r & 0x40 == st & 0x40,
        ;
    }
}

/// The address each addressing mode decodes to, with o the operand and
/// read(a) the byte at a: zero page o mod 256; zero page X and Y (o + X)
/// and (o + Y) mod 256; absolute o; absolute X and Y (o + X) and (o + Y)
/// mod 0x10000; indirect the word whose low byte is at o and high byte at
/// o + 1, or at the start of the same page when o ends a page; X indirect
/// the word at p = (o + X) mod 256 and (p + 1) mod 256; indirect Y the word
/// at p = o mod 256 and (p + 1) mod 256, plus Y, mod 0x10000; relative (for
/// a one-byte operand) the program counter plus the operand read as a
/// signed byte, mod 0x10000.
pub proof fn lemma_decode_addresses<B: Bus>(s: CpuState<B>, i: Instruction)
    ensures
        ({
            let o = i.operand as int;
            let addr = decode(s, i).0;
            let word = |low: int, high: int|
                s.bus.spec_read(low as u16) as int + 256 * s.bus.spec_read(high as u16) as int;
            let mode = i.addressing_mode;
            &&& mode == AddressingMode::ZeroPage ==> addr == o % 256
            &&& mode == AddressingMode::ZeroPageIndexX ==> addr == (o + s.x) % 256
            &&& mode == AddressingMode::ZeroPageIndexY ==> addr == (o + s.y) % 256
            &&& mode == AddressingMode::Absolute ==> addr == o
            &&& mode == AddressingMode::AbsoluteX ==> addr == (o + s.x) % 0x10000
            &&& mode == AddressingMode::AbsoluteY ==> addr == (o + s.y) % 0x10000
            &&& mode == AddressingMode::Indirect ==> addr == word(
                o,
                if o % 256 == 255 { o - 255 } else { o + 1 },
            )
            &&& mode == AddressingMode::XIndirect ==> addr == word(
                (o + s.x) % 256,
                ((o + s.x) % 256 + 1) % 256,
            )
            &&& mode == AddressingMode::IndirectY ==> addr == (word(o % 256, (o % 256 + 1) % 256)
                + s.y) % 0x10000
            &&& (mode == AddressingMode::Relative && o < 256) ==> addr == (s.pc + (if o >= 128 {
                o - 256
            } else {
                o
            })) % 0x10000
        }),
{
}

/// The eight conditional branches test one bit of the status register each:
/// BCC/BCS the carry (0x01), BNE/BEQ the zero flag (0x02), BVC/BVS the
/// overflow flag (0x40), BPL/BMI the negative flag (0x80); the first of each
/// pair branches when the bit is clear, the second when it is set. A branch
/// taken moves the program counter to the decoded target and adds a cycle
/// (two across a page); one not taken leaves the program counter and the
/// cycles as they were. Nothing else changes.
#[verifier::rlimit(40)]
pub proof fn lemma_branch_conditions<B: Bus>(s: CpuState<B>, i: Instruction, target: int, cycles: int)
    requires
        i.opcode == Opcode::Bcc || i.opcode == Opcode::Bcs || i.opcode == Opcode::Bne || i.opcode
            == Opcode::Beq || i.opcode == Opcode::Bvc || i.opcode == Opcode::Bvs || i.opcode
            == Opcode::Bpl || i.opcode == Opcode::Bmi,
    ensures
        ({
            let bit: u8 = if i.opcode == Opcode::Bcc || i.opcode == Opcode::Bcs {
                0x01
            } else if i.opcode == Opcode::Bne || i.opcode == Opcode::Beq {
                0x02
            } else if i.opcode == Opcode::Bvc || i.opcode == Opcode::Bvs {
                0x40
            } else {
                0x80
            };
            let when_set = i.opcode == Opcode::Bcs || i.opcode == Opcode::Beq || i.opcode
                == Opcode::Bvs || i.opcode == Opcode::Bmi;
            let taken = (s.status & bit != 0) == when_set;
            let (t, c) = execute_core(s, i, target, cycles);
            &&& t == (CpuState { pc: t.pc, ..s })
            &&& taken ==> t.pc == target as u16 && (c == cycles + 1 || c == cycles + 2)
            &&& !taken ==> t.pc == s.pc && c == cycles
        }),
{
}

/// Setting or clearing one flag sets or clears exactly that bit of the
/// status register.
pub(crate) proof fn lemma_flag_bits(st: u8, mask: u8, on: bool)
    by (bit_vector)
    requires
        mask == 1 || mask == 2 || mask == 4 || mask == 8 || mask == 0x40 || mask == 0x80,
    ensures
        (set_flag_to(st, mask, on) & mask != 0) == on,
        mask != 1 ==> set_flag_to(st, mask, on) & 1 == st & 1,
        mask != 2 ==> set_flag_to(st, mask, on) & 2 == st & 2,
        mask != 4 ==> set_flag_to(st, mask, on) & 4 == st & 4,
        mask != 8 ==> set_flag_to(st, mask, on) & 8 == st & 8,
        mask != 0x40 ==> set_flag_to(st, mask, on) & 0x40 == st & 0x40,
        mask != 0x80 ==> set_flag_to(st, mask, on) & 0x80 == st & 0x80,
        set_flag_to(st, mask, on) & 0x30 == st & 0x30,
{
}

/// The zero and negative flags describe a result, and no other flag moves.
pub(crate) proof fn lemma_zn_bits(st: u8, v: u8)
    ensures
        (with_zn(st, v) & 2 != 0) == (v == 0),
        (with_zn(st, v) & 0x80 != 0) == (v >= 128),
        with_zn(st, v) & 1 == st & 1,
        with_zn(st, v) & 4 == st & 4,
        with_zn(st, v) & 8 == st & 8,
        with_zn(st, v) & 0x40 == st & 0x40,
        with_zn(st, v) & 0x30 == st & 0x30,
{
    lemma_flag_bits(st, 2, v == 0);
    lemma_flag_bits(set_flag_to(st, 2, v == 0), 0x80, is_negative(v));
}

/// The flag instructions: CLC, CLI, CLD and CLV clear the carry (0x01),
/// interrupt disable (0x04), decimal (0x08) and overflow (0x40) bits; SEC,
/// SEI and SED set the first three. No other bit and nothing else changes.
#[verifier::rlimit(40)]
pub proof fn lemma_flag_instructions<B: Bus>(s: CpuState<B>, i: Instruction, addr: int, cycles: int)
    requires
        i.opcode == Opcode::Clc || i.opcode == Opcode::Sec || i.opcode == Opcode::Cli || i.opcode
            == Opcode::Sei || i.opcode == Opcode::Cld || i.opcode == Opcode::Sed || i.opcode
            == Opcode::Clv,
    ensures
        ({
            let bit: u8 = if i.opcode == Opcode::Clc || i.opcode == Opcode::Sec {
                1
            } else if i.opcode == Opcode::Cli || i.opcode == Opcode::Sei {
                4
            } else if i.opcode == Opcode::Cld || i.opcode == Opcode::Sed {
                8
            } else {
                0x40
            };
            let set = i.opcode == Opcode::Sec || i.opcode == Opcode::Sei || i.opcode == Opcode::Sed;
            let t = execute_core(s, i, addr, cycles).0;
            &&& t == (CpuState { status: t.status, ..s })
            &&& (t.status & bit != 0) == set
            &&& forall|other: u8|
                (other == 1 || other == 2 || other == 4 || other == 8 || other == 0x40 || other
                    == 0x80) && other != bit ==> #[trigger] (t.status & other) == s.status & other
        }),
{
    let bit: u8 = if i.opcode == Opcode::Clc || i.opcode == Opcode::Sec {
        1
    } else if i.opcode == Opcode::Cli || i.opcode == Opcode::Sei {
        4
    } else if i.opcode == Opcode::Cld || i.opcode == Opcode::Sed {
        8
    } else {
        0x40
    };
    let set = i.opcode == Opcode::Sec || i.opcode == Opcode::Sei || i.opcode == Opcode::Sed;
    lemma_flag_bits(s.status, bit, set);
    assert(s.status & !1u8 == set_flag_to(s.status, 1, false)
        && s.status | 1u8 == set_flag_to(s.status, 1, true)
        && s.status & !4u8 == set_flag_to(s.status, 4, false)
        && s.status | 4u8 == set_flag_to(s.status, 4, true)
        && s.status & !8u8 == set_flag_to(s.status, 8, false)
        && s.status | 8u8 == set_flag_to(s.status, 8, true)
        && s.status & !0x40u8 == set_flag_to(s.status, 0x40, false));
}

/// Loads, transfers, increments and decrements of a register: the register
/// gets the value (the operand for a load, the source register for a
/// transfer, one more or one less, wrapping, for a step), the zero flag
/// (0x02) tells whether it is 0 and the negative flag (0x80) whether it is
/// 128 or more; the other registers, the other flags, memory, the program
/// counter and the stack pointer stay.
#[verifier::rlimit(60)]
pub proof fn lemma_register_results<B: Bus>(s: CpuState<B>, i: Instruction, addr: int, cycles: int)
    requires
        i.opcode == Opcode::Lda || i.opcode == Opcode::Ldx || i.opcode == Opcode::Ldy || i.opcode
            == Opcode::Tax || i.opcode == Opcode::Tay || i.opcode == Opcode::Txa || i.opcode
            == Opcode::Tya || i.opcode == Opcode::Tsx || i.opcode == Opcode::Inx || i.opcode
            == Opcode::Iny || i.opcode == Opcode::Dex || i.opcode == Opcode::Dey,
    ensures
        ({
            let m = operand_value(s, i, addr);
            let op = i.opcode;
            // 0: A, 1: X, 2: Y
            let target: int = if op == Opcode::Lda || op == Opcode::Txa || op == Opcode::Tya {
                0
            } else if op == Opcode::Ldx || op == Opcode::Tax || op == Opcode::Tsx || op == Opcode::Inx
                || op == Opcode::Dex {
                1
            } else {
                2
            };
            let value: int = if op == Opcode::Lda || op == Opcode::Ldx || op == Opcode::Ldy {
                m as int
            } else if op == Opcode::Tax || op == Opcode::Tay {
                s.a as int
            } else if op == Opcode::Txa {
                s.x as int
            } else if op == Opcode::Tya {
                s.y as int
            } else if op == Opcode::Tsx {
                s.sp as int
            } else if op == Opcode::Inx {
                (s.x + 1) % 256
            } else if op == Opcode::Iny {
                (s.y + 1) % 256
            } else if op == Opcode::Dex {
                (s.x + 255) % 256
            } else {
                (s.y + 255) % 256
            };
            let t = execute_core(s, i, addr, cycles).0;
            &&& t == (CpuState { a: t.a, x: t.x, y: t.y, status: t.status, ..s })
            &&& (if target == 0 { t.a as int } else if target == 1 { t.x as int } else { t.y as int })
                == value
            &&& target != 0 ==> t.a == s.a
            &&& target != 1 ==> t.x == s.x
            &&& target != 2 ==> t.y == s.y
            &&& (t.status & 2 != 0) == (value == 0)
            &&& (t.status & 0x80 != 0) == (value >= 128)
            &&& t.status & 1 == s.status & 1
            &&& t.status & 4 == s.status & 4
            &&& t.status & 8 == s.status & 8
            &&& t.status & 0x40 == s.status & 0x40
        }),
{
    let t = execute_core(s, i, addr, cycles).0;
    let m = operand_value(s, i, addr);
    lemma_zn_bits(s.status, m);
    lemma_zn_bits(s.status, s.a);
    lemma_zn_bits(s.status, s.x);
    lemma_zn_bits(s.status, s.y);
    lemma_zn_bits(s.status, s.sp);
    lemma_zn_bits(s.status, ((s.x + 1) % 256) as u8);
    lemma_zn_bits(s.status, ((s.y + 1) % 256) as u8);
    lemma_zn_bits(s.status, ((s.x + 255) % 256) as u8);
    lemma_zn_bits(s.status, ((s.y + 255) % 256) as u8);
}

} // verus!
