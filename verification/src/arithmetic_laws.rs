//! Addition with carry and subtraction with borrow in numbers: what ADC and
//! SBC leave in the accumulator and the flags, stated over integers, and
//! likewise for the comparisons, the bitwise instructions, the memory
//! steps and the shifts of the accumulator.

use vstd::prelude::*;
use crate::cpu_laws::{lemma_flag_bits, lemma_zn_bits, run_accumulator};
use crate::cpu_semantics::{
    adc, carry_of, compare_flags, execute_core, is_negative, operand_value, sbc, set_flag_to, CpuState,
};
use crate::instruction::{Instruction, Opcode};
use crate::memory::Bus;

verus! {

/// A byte read as a signed number.
pub open spec fn signed(v: u8) -> int {
    if v >= 128 {
        v - 256
    } else {
        v as int
    }
}

/// What ADC (`is_add`) or SBC leaves in `t` when run on `s` with operand
/// `m`, in numbers: with c the carry bit (0x01) before, ADC leaves
/// A = (A + m + c) mod 256 with the carry set exactly when the unsigned sum
/// passes 255; SBC leaves A = (A - m - (1 - c)) mod 256 with the carry set
/// exactly when the unsigned difference is not negative. The overflow bit
/// (0x40) is set exactly when the signed result leaves -128..127; zero and
/// negative describe the new A; the other flags, registers and memory stay.
#[verifier::opaque]
pub open spec fn add_subtract_outcome<B: Bus>(s: CpuState<B>, is_add: bool, m: u8, t: CpuState<B>) -> bool {
    let c: int = if s.status & 1 != 0 { 1 } else { 0 };
    let unsigned = if is_add { s.a + m + c } else { s.a - m - (1 - c) };
    let signed_result = if is_add {
        signed(s.a) + signed(m) + c
    } else {
        signed(s.a) - signed(m) - (1 - c)
    };
    &&& t == (CpuState { a: t.a, status: t.status, ..s })
    &&& t.a as int == (unsigned + 256) % 256
    &&& (t.status & 1 != 0) == (if is_add { unsigned >= 256 } else { unsigned >= 0 })
    &&& (t.status & 0x40 != 0) == (signed_result < -128 || signed_result > 127)
    &&& (t.status & 2 != 0) == (t.a == 0)
    &&& (t.status & 0x80 != 0) == (t.a >= 128)
    &&& t.status & 4 == s.status & 4
    &&& t.status & 8 == s.status & 8
}

/// The ADC result in numbers.
proof fn lemma_adc_numbers<B: Bus>(s: CpuState<B>, m: u8)
    ensures
        add_subtract_outcome(s, true, m, adc(s, m)),
{
    reveal(add_subtract_outcome);
    let sum = s.a + m + carry_of(s.status);
    let r = (sum % 256) as u8;
    let overflow = is_negative(r) != is_negative(s.a) && is_negative(m) == is_negative(s.a);
    let st1 = set_flag_to(s.status, 0x40, overflow);
    let st2 = set_flag_to(st1, 1, sum >= 256);
    lemma_flag_bits(s.status, 0x40, overflow);
    lemma_flag_bits(st1, 1, sum >= 256);
    lemma_zn_bits(st2, r);
}

/// The SBC result in numbers.
proof fn lemma_sbc_numbers<B: Bus>(s: CpuState<B>, m: u8)
    ensures
        add_subtract_outcome(s, false, m, sbc(s, m)),
{
    reveal(add_subtract_outcome);
    let diff = s.a - m - (1 - carry_of(s.status));
    let r = ((diff + 256) % 256) as u8;
    let overflow = is_negative(r) != is_negative(s.a) && is_negative(m) != is_negative(s.a);
    let st1 = set_flag_to(s.status, 0x40, overflow);
    let st2 = set_flag_to(st1, 1, diff >= 0);
    lemma_flag_bits(s.status, 0x40, overflow);
    lemma_flag_bits(st1, 1, diff >= 0);
    lemma_zn_bits(st2, r);
}

/// ADC and SBC execute as `adc` and `sbc` on their operand.
proof fn lemma_add_subtract_steps<B: Bus>(s: CpuState<B>, i: Instruction, addr: int, cycles: int)
    requires
        i.opcode == Opcode::Adc || i.opcode == Opcode::Sbc,
    ensures
        execute_core(s, i, addr, cycles).0 == (if i.opcode == Opcode::Adc {
            adc(s, operand_value(s, i, addr))
        } else {
            sbc(s, operand_value(s, i, addr))
        }),
{
}

/// Addition with carry and subtraction with borrow in numbers: ADC and SBC
/// leave the state that `add_subtract_outcome` describes for their operand.
pub proof fn lemma_add_subtract_arithmetic<B: Bus>(s: CpuState<B>, i: Instruction, addr: int, cycles: int)
    requires
        i.opcode == Opcode::Adc || i.opcode == Opcode::Sbc,
    ensures
        add_subtract_outcome(
            s,
            i.opcode == Opcode::Adc,
            operand_value(s, i, addr),
            execute_core(s, i, addr, cycles).0,
        ),
{
    let m = operand_value(s, i, addr);
    lemma_add_subtract_steps(s, i, addr, cycles);
    if i.opcode == Opcode::Adc {
        lemma_adc_numbers(s, m);
    } else {
        lemma_sbc_numbers(s, m);
    }
}

/// What CMP, CPX or CPY leave in `t` comparing `register` with `m`: the
/// carry (0x01) set exactly when the register is at least `m`, zero (0x02)
/// exactly when they are equal, negative (0x80) exactly when bit 7 of the
/// difference, taken mod 256, is set; the other flags, all registers and
/// memory stay.
#[verifier::opaque]
pub open spec fn compare_outcome<B: Bus>(s: CpuState<B>, register: u8, m: u8, t: CpuState<B>) -> bool {
    &&& t == (CpuState { status: t.status, ..s })
    &&& (t.status & 1 != 0) == (register >= m)
    &&& (t.status & 2 != 0) == (register == m)
    &&& (t.status & 0x80 != 0) == ((register - m + 256) % 256 >= 128)
    &&& t.status & 4 == s.status & 4
    &&& t.status & 8 == s.status & 8
    &&& t.status & 0x40 == s.status & 0x40
}

proof fn lemma_compare_flags_bits<B: Bus>(s: CpuState<B>, register: u8, m: u8)
    ensures
        compare_outcome(s, register, m, CpuState { status: compare_flags(s.status, register, m), ..s }),
{
    reveal(compare_outcome);
    let st1 = set_flag_to(s.status, 2, register == m);
    let st2 = set_flag_to(st1, 0x80, (register - m + 256) % 256 >= 128);
    lemma_flag_bits(s.status, 2, register == m);
    lemma_flag_bits(st1, 0x80, (register - m + 256) % 256 >= 128);
    lemma_flag_bits(st2, 1, register >= m);
}

/// Comparisons: CMP compares A, CPX compares X and CPY compares Y with the
/// operand, and leave the flags that `compare_outcome` describes.
pub proof fn lemma_compare_results<B: Bus>(s: CpuState<B>, i: Instruction, addr: int, cycles: int)
    requires
        i.opcode == Opcode::Cmp || i.opcode == Opcode::Cpx || i.opcode == Opcode::Cpy,
    ensures
        compare_outcome(
            s,
            if i.opcode == Opcode::Cmp { s.a } else if i.opcode == Opcode::Cpx { s.x } else { s.y },
            operand_value(s, i, addr),
            execute_core(s, i, addr, cycles).0,
        ),
{
    let m = operand_value(s, i, addr);
    if i.opcode == Opcode::Cmp {
        lemma_compare_flags_bits(s, s.a, m);
    } else if i.opcode == Opcode::Cpx {
        lemma_compare_flags_bits(s, s.x, m);
    } else {
        lemma_compare_flags_bits(s, s.y, m);
    }
}

/// The bitwise instructions: AND, ORA and EOR leave in A the bitwise and,
/// or and exclusive or of A and the operand, with zero (0x02) and negative
/// (0x80) describing it; BIT leaves A alone and sets negative to bit 7 and
/// overflow (0x40) to bit 6 of the byte in memory, and zero when that byte
/// and A have no bit in common. No other flag, register or memory changes.
#[verifier::rlimit(40)]
pub proof fn lemma_bitwise_results<B: Bus>(s: CpuState<B>, i: Instruction, addr: int, cycles: int)
    requires
        i.opcode == Opcode::And || i.opcode == Opcode::Ora || i.opcode == Opcode::Eor
            || i.opcode == Opcode::Bit,
    ensures
        ({
            let m = operand_value(s, i, addr);
            let v = s.bus.spec_read(addr as u16);
            let t = execute_core(s, i, addr, cycles).0;
            &&& t == (CpuState { a: t.a, status: t.status, ..s })
            &&& i.opcode == Opcode::And ==> t.a == m & s.a
            &&& i.opcode == Opcode::Ora ==> t.a == m | s.a
            &&& i.opcode == Opcode::Eor ==> t.a == m ^ s.a
            &&& i.opcode != Opcode::Bit ==> (t.status & 2 != 0) == (t.a == 0)
            &&& i.opcode != Opcode::Bit ==> (t.status & 0x80 != 0) == (t.a >= 128)
            &&& i.opcode != Opcode::Bit ==> t.status & 0x40 == s.status & 0x40
            &&& i.opcode == Opcode::Bit ==> t.a == s.a
            &&& i.opcode == Opcode::Bit ==> (t.status & 0x80 != 0) == (v & 0x80 != 0)
            &&& i.opcode == Opcode::Bit ==> (t.status & 0x40 != 0) == (v & 0x40 != 0)
            &&& i.opcode == Opcode::Bit ==> (t.status & 2 != 0) == (v & s.a == 0)
            &&& t.status & 1 == s.status & 1
            &&& t.status & 4 == s.status & 4
            &&& t.status & 8 == s.status & 8
        }),
{
    let m = operand_value(s, i, addr);
    let v = s.bus.spec_read(addr as u16);
    let st = s.status;
    if i.opcode == Opcode::And {
        lemma_zn_bits(st, m & s.a);
    } else if i.opcode == Opcode::Ora {
        lemma_zn_bits(st, m | s.a);
    } else if i.opcode == Opcode::Eor {
        lemma_zn_bits(st, m ^ s.a);
    } else {
        let st1 = set_flag_to(st, 0x80, v & 0x80 != 0);
        let st2 = set_flag_to(st1, 0x40, v & 0x40 != 0);
        lemma_flag_bits(st, 0x80, v & 0x80 != 0);
        lemma_flag_bits(st1, 0x40, v & 0x40 != 0);
        lemma_flag_bits(st2, 2, v & s.a == 0);
    }
}

/// Stores and memory steps: STA, STX and STY write A, X and Y at the
/// operand address and change nothing else; INC and DEC write back the byte
/// there plus or minus one, wrapping, with zero (0x02) and negative (0x80)
/// describing it, and leave the registers and the other flags alone.
#[verifier::rlimit(40)]
pub proof fn lemma_memory_results<B: Bus>(s: CpuState<B>, i: Instruction, addr: int, cycles: int)
    requires
        i.opcode == Opcode::Sta || i.opcode == Opcode::Stx || i.opcode == Opcode::Sty
            || i.opcode == Opcode::Inc || i.opcode == Opcode::Dec,
    ensures
        ({
            let v = s.bus.spec_read(addr as u16);
            let r: u8 = if i.opcode == Opcode::Sta {
                s.a
            } else if i.opcode == Opcode::Stx {
                s.x
            } else if i.opcode == Opcode::Sty {
                s.y
            } else if i.opcode == Opcode::Inc {
                ((v + 1) % 256) as u8
            } else {
                ((v + 255) % 256) as u8
            };
            let t = execute_core(s, i, addr, cycles).0;
            &&& t == (CpuState { status: t.status, bus: s.bus.spec_write(addr as u16, r), ..s })
            &&& (i.opcode == Opcode::Sta || i.opcode == Opcode::Stx || i.opcode == Opcode::Sty)
                ==> t.status == s.status
            &&& (i.opcode == Opcode::Inc || i.opcode == Opcode::Dec) ==> (t.status & 2 != 0) == (r == 0)
            &&& (i.opcode == Opcode::Inc || i.opcode == Opcode::Dec) ==> (t.status & 0x80 != 0) == (r >= 128)
            &&& t.status & 1 == s.status & 1
            &&& t.status & 4 == s.status & 4
            &&& t.status & 8 == s.status & 8
            &&& t.status & 0x40 == s.status & 0x40
        }),
{
    let v = s.bus.spec_read(addr as u16);
    lemma_zn_bits(s.status, ((v + 1) % 256) as u8);
    lemma_zn_bits(s.status, ((v + 255) % 256) as u8);
}

/// Shifts and rotates of the accumulator, with c the carry bit (0x01)
/// before: ASL A leaves 2A mod 256 and carries out bit 7; LSR A leaves A / 2
/// and carries out bit 0; ROL A leaves (2A + c) mod 256 and carries out bit
/// 7; ROR A leaves A / 2 + 128c and carries out bit 0. Zero (0x02) and
/// negative (0x80) describe the new A; no other flag, register or memory
/// changes.
#[verifier::rlimit(40)]
pub proof fn lemma_accumulator_shifts<B: Bus>(s: CpuState<B>, opcode: Opcode)
    requires
        opcode == Opcode::Asl || opcode == Opcode::Lsr || opcode == Opcode::Rol || opcode == Opcode::Ror,
    ensures
        ({
            let c: int = if s.status & 1 != 0 { 1 } else { 0 };
            let r: int = if opcode == Opcode::Asl {
                (2 * s.a) % 256
            } else if opcode == Opcode::Lsr {
                s.a as int / 2
            } else if opcode == Opcode::Rol {
                (2 * s.a + c) % 256
            } else {
                s.a as int / 2 + 128 * c
            };
            let carry_out = if opcode == Opcode::Asl || opcode == Opcode::Rol {
                s.a >= 128
            } else {
                s.a % 2 == 1
            };
            let t = run_accumulator(s, opcode);
            &&& t == (CpuState { a: t.a, status: t.status, ..s })
            &&& t.a as int == r
            &&& (t.status & 1 != 0) == carry_out
            &&& (t.status & 2 != 0) == (r == 0)
            &&& (t.status & 0x80 != 0) == (r >= 128)
            &&& t.status & 4 == s.status & 4
            &&& t.status & 8 == s.status & 8
            &&& t.status & 0x40 == s.status & 0x40
        }),
{
    reveal(run_accumulator);
    let c = carry_of(s.status);
    let carry_out = if opcode == Opcode::Asl || opcode == Opcode::Rol {
        s.a >= 128
    } else {
        s.a % 2 == 1
    };
    let st1 = set_flag_to(s.status, 1, carry_out);
    lemma_flag_bits(s.status, 1, carry_out);
    lemma_zn_bits(st1, ((2 * s.a) % 256) as u8);
    lemma_zn_bits(st1, (s.a / 2) as u8);
    lemma_zn_bits(st1, ((2 * s.a + c) % 256) as u8);
    lemma_zn_bits(st1, (s.a / 2 + 128 * c) as u8);
}

} // verus!
