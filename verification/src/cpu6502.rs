//! The 6502 CPU: fetching, decoding and executing its instruction set, the
//! documented and the undocumented instructions, against a memory bus.

use vstd::prelude::*;
use crate::bits::{
    lemma_byte_rotate_left, lemma_byte_rotate_right, lemma_byte_shift_left,
    lemma_byte_shift_right, lemma_byte_sign, lemma_byte_sign_xor, lemma_or_word, lemma_or_zero,
    lemma_same_page, lemma_stack_address, lemma_word_bits, lemma_word_from_bytes,
};
use crate::cpu_semantics::{
    adc, branch, can_execute, can_step, carry_of, compare_flags, CpuState,
    decode, execute, execute_core, fetch_operand, fetched_instruction, after_fetch, pull, push,
    page_cross_cost, pulled_return_address, ran_until_stop, read_word, run_steps, step, same_page, sbc, set_flag_to, stack_top, stalls,
    with_zn, brk, execute_undocumented, modify_cycles, store_cycles, slo, sre, rla, rra, isc, dcp, undocumented_register,
    FLAG_BREAK_COMMAND, FLAG_CARRY, FLAG_DECIMAL_MODE, FLAG_INTERRUPT_DISABLE,
    FLAG_NEGATIVE, FLAG_OVERFLOW, FLAG_ZERO, STATUS_ALWAYS_SET,
};
use crate::instruction::{AddressingMode, Instruction, Opcode};
use crate::memory::Bus;

verus! {

/// Whether two addresses are in the same 256-byte page.
pub fn is_on_same_page(address1: u16, address2: u16) -> (r: bool)
    ensures
        r == same_page(address1 as int, address2 as int),
{
    proof {
        lemma_same_page(address1, address2);
    }
    address1 & 0xff00 == address2 & 0xff00
}

/// A zero page address indexed by a register, wrapping around page 0.
fn index_zero_page(address: u16, index: u8) -> (r: u16)
    ensures
        r as int == (address + index) % 256,
{
    let sum = address.wrapping_add(index as u16);
    proof {
        lemma_word_bits(sum);
    }
    assert(sum as int == (address + index) % 0x10000);
    sum & 0xff
}

/// An address indexed by a register, wrapping around the 16-bit address
/// space, and the cycle that crossing a page adds to `cycles`.
fn index_address(address: u16, index: u8, cycles: u8) -> (r: (u16, u8))
    requires
        cycles < 255,
    ensures
        r.0 as int == (address + index) % 0x10000,
        r.1 as int == cycles + page_cross_cost(address as int, r.0 as int),
{
    let result = address.wrapping_add(index as u16);
    let page_cross: u8 = if is_on_same_page(address, result) {
        0
    } else {
        1
    };
    (result, cycles + page_cross)
}

/// A byte incremented or decremented by one, wrapping around.
fn step_byte(value: u8, increment: bool) -> (r: u8)
    ensures
        r as int == (if increment {
            (value + 1) % 256
        } else {
            (value + 255) % 256
        }),
{
    if increment {
        value.wrapping_add(1)
    } else {
        value.wrapping_sub(1)
    }
}

fn bitwise_and(a: u8, b: u8) -> (r: u8)
    ensures
        r == a & b,
{
    a & b
}

fn bitwise_xor(a: u8, b: u8) -> (r: u8)
    ensures
        r == a ^ b,
{
    a ^ b
}

fn bitwise_or(a: u8, b: u8) -> (r: u8)
    ensures
        r == a | b,
{
    a | b
}

/// The cycles of a read-modify-write instruction in its addressing mode.
fn read_modify_write_cycles(instruction: &Instruction) -> (cycles: u8)
    ensures
        cycles == modify_cycles(*instruction),
{
    match instruction.addressing_mode {
        AddressingMode::ZeroPage => 5,
        AddressingMode::ZeroPageIndexX | AddressingMode::ZeroPageIndexY
        | AddressingMode::Absolute => 6,
        AddressingMode::AbsoluteX | AddressingMode::AbsoluteY => 7,
        AddressingMode::XIndirect | AddressingMode::IndirectY | AddressingMode::Indirect => 8,
        _ => 2,
    }
}

/// The cycles of a store in its addressing mode; `cycle_time` is the
/// decoded time.
fn store_cycle_time(instruction: &Instruction, cycle_time: u8) -> (cycles: u8)
    ensures
        cycles == store_cycles(*instruction, cycle_time as int),
{
    match instruction.addressing_mode {
        AddressingMode::AbsoluteX | AddressingMode::AbsoluteY => 5,
        AddressingMode::IndirectY => 6,
        _ => cycle_time,
    }
}

/// The flags of the status register: `[N, V, _, B, D, I, Z, C]`.
pub enum StatusFlag {
    Carry,
    Zero,
    InterruptDisable,
    DecimalMode,
    BreakCommand,
    Overflow,
    Negative,
}

impl StatusFlag {
    /// The bit of the status register that holds the flag.
    pub open spec fn spec_mask(self) -> u8 {
        match self {
            StatusFlag::Carry => FLAG_CARRY,
            StatusFlag::Zero => FLAG_ZERO,
            StatusFlag::InterruptDisable => FLAG_INTERRUPT_DISABLE,
            StatusFlag::DecimalMode => FLAG_DECIMAL_MODE,
            StatusFlag::BreakCommand => FLAG_BREAK_COMMAND,
            StatusFlag::Overflow => FLAG_OVERFLOW,
            StatusFlag::Negative => FLAG_NEGATIVE,
        }
    }

    pub fn mask(&self) -> (m: u8)
        ensures
            m == self.spec_mask(),
    {
        match self {
            StatusFlag::Carry => FLAG_CARRY,
            StatusFlag::Zero => FLAG_ZERO,
            StatusFlag::InterruptDisable => FLAG_INTERRUPT_DISABLE,
            StatusFlag::DecimalMode => FLAG_DECIMAL_MODE,
            StatusFlag::BreakCommand => FLAG_BREAK_COMMAND,
            StatusFlag::Overflow => FLAG_OVERFLOW,
            StatusFlag::Negative => FLAG_NEGATIVE,
        }
    }
}

/// How many instructions `run` executes at most before it gives up.
pub const RUN_STEP_LIMIT: u64 = 0xFFFF_FFFF_FFFF_FFFF;

/// The CPU with its registers and the bus it is connected to.
pub struct CPU6502<B: Bus> {
    pub reg_pc: u16,
    /// the stack is at 0x0100 - 0x01FF only
    reg_sp: u8,
    reg_a: u8,
    reg_x: u8,
    reg_y: u8,
    reg_status: u8,
    cycles_to_wait: u8,
    bus: B,
}

impl<B: Bus> View for CPU6502<B> {
    type V = CpuState<B>;

    closed spec fn view(&self) -> CpuState<B> {
        CpuState {
            pc: self.reg_pc,
            sp: self.reg_sp,
            a: self.reg_a,
            x: self.reg_x,
            y: self.reg_y,
            status: self.reg_status,
            cycles_to_wait: self.cycles_to_wait,
            bus: self.bus,
        }
    }
}

impl<B: Bus> CPU6502<B> {
    /// A CPU at power-up, connected to `bus`.
    pub fn new(bus: B) -> (cpu: Self)
        ensures
            cpu@ == (CpuState { pc: 0, sp: 0xFD, a: 0, x: 0, y: 0, status: 0, cycles_to_wait: 0, bus }),
    {
        CPU6502 {
            reg_pc: 0,
            reg_sp: 0xFD,
            reg_a: 0,
            reg_x: 0,
            reg_y: 0,
            reg_status: 0,
            cycles_to_wait: 0,
            bus: bus,
        }
    }

    /// The bus the CPU is connected to.
    pub fn bus(&self) -> (bus: &B)
        ensures
            *bus == self@.bus,
    {
        &self.bus
    }

    /// The accumulator.
    pub fn reg_a(&self) -> (a: u8)
        ensures
            a == self@.a,
    {
        self.reg_a
    }

    /// The X index register.
    pub fn reg_x(&self) -> (x: u8)
        ensures
            x == self@.x,
    {
        self.reg_x
    }

    /// The Y index register.
    pub fn reg_y(&self) -> (y: u8)
        ensures
            y == self@.y,
    {
        self.reg_y
    }

    /// The stack pointer.
    pub fn reg_sp(&self) -> (sp: u8)
        ensures
            sp == self@.sp,
    {
        self.reg_sp
    }

    /// The status register.
    pub fn reg_status(&self) -> (status: u8)
        ensures
            status == self@.status,
    {
        self.reg_status
    }

    /// The cycles that the last instruction took.
    pub fn cycles_to_wait(&self) -> (cycles: u8)
        ensures
            cycles == self@.cycles_to_wait,
    {
        self.cycles_to_wait
    }

    fn set_flag(&mut self, flag: StatusFlag)
        ensures
            final(self)@ == (CpuState { status: old(self)@.status | flag.spec_mask(), ..old(self)@ }),
    {
        self.reg_status = self.reg_status | flag.mask();
    }

    fn unset_flag(&mut self, flag: StatusFlag)
        ensures
            final(self)@ == (CpuState { status: old(self)@.status & !flag.spec_mask(), ..old(self)@ }),
    {
        self.reg_status = self.reg_status & !flag.mask();
    }

    fn set_flag_status(&mut self, flag: StatusFlag, status: bool)
        ensures
            final(self)@ == (CpuState {
                status: set_flag_to(old(self)@.status, flag.spec_mask(), status),
                ..old(self)@
            }),
    {
        if status {
            self.set_flag(flag)
        } else {
            self.unset_flag(flag)
        }
    }

    /// Sets the zero and negative flags to describe `result`.
    fn set_zn_flags(&mut self, result: u8)
        ensures
            final(self)@ == (CpuState { status: with_zn(old(self)@.status, result), ..old(self)@ }),
    {
        proof {
            lemma_byte_sign(result);
        }
        self.set_flag_status(StatusFlag::Zero, result == 0);
        self.set_flag_status(StatusFlag::Negative, result & 0x80 != 0);
    }

    /// The little-endian word at a zero page pointer; its high byte wraps
    /// around within page 0.
    fn read_zero_page_word(&self, pointer: u16) -> (word: u16)
        requires
            pointer < 256,
        ensures
            word as int == read_word(self@.bus, pointer as int, (pointer + 1) % 256),
    {
        let low = self.bus.read(pointer) as u16;
        proof {
            lemma_word_bits((pointer + 1) as u16);
        }
        let high = self.bus.read((pointer + 1) & 0xff) as u16;
        proof {
            lemma_word_from_bytes(low, high);
        }
        high << 8 | low
    }

    fn decode_operand(&self, instruction: &Instruction) -> (r: (u16, u8))
        ensures
            r.0 as int == decode(self@, *instruction).0,
            r.1 as int == decode(self@, *instruction).1,
    {
        let op = instruction.operand;
        proof {
            lemma_word_bits(op);
        }
        if instruction.is_operand_address() {
            match instruction.addressing_mode {
                AddressingMode::ZeroPage => (op & 0xff, instruction.get_base_cycle_time()),
                AddressingMode::ZeroPageIndexX => {
                    (index_zero_page(op, self.reg_x), instruction.get_base_cycle_time())
                },
                AddressingMode::ZeroPageIndexY => {
                    (index_zero_page(op, self.reg_y), instruction.get_base_cycle_time())
                },
                AddressingMode::Indirect => {
                    let low = self.bus.read(op) as u16;
                    // if the indirect vector is at the last of the page (0xff) then
                    // wrap around on the same page
                    let high = self.bus.read(
                        if op & 0xff == 0xff {
                            op & 0xff00
                        } else {
                            op + 1
                        },
                    ) as u16;
                    proof {
                        lemma_word_from_bytes(low, high);
                    }
                    (high << 8 | low, instruction.get_base_cycle_time())
                },
                AddressingMode::XIndirect => {
                    let sum = op.wrapping_add(self.reg_x as u16);
                    proof {
                        lemma_word_bits(sum);
                    }
                    let location_indirect = sum & 0xff;
                    assert(location_indirect as int == (op + self@.x) % 256);
                    (self.read_zero_page_word(location_indirect), instruction.get_base_cycle_time())
                },
                AddressingMode::IndirectY => {
                    let location_indirect = op & 0xff;
                    proof {
                        lemma_word_bits(op);
                    }
                    let unindexed_address = self.read_zero_page_word(location_indirect);
                    assert(unindexed_address as int == read_word(
                        self@.bus,
                        op as int % 256,
                        (op as int % 256 + 1) % 256,
                    ));
                    index_address(unindexed_address, self.reg_y, instruction.get_base_cycle_time())
                },
                AddressingMode::Absolute => (op, instruction.get_base_cycle_time()),
                AddressingMode::AbsoluteX => {
                    index_address(op, self.reg_x, instruction.get_base_cycle_time())
                },
                AddressingMode::AbsoluteY => {
                    index_address(op, self.reg_y, instruction.get_base_cycle_time())
                },
                AddressingMode::Relative => {
                    proof {
                        lemma_or_zero(op);
                    }
                    let sign_extended_operand = op | if op & 0x80 != 0 {
                        0xFF00
                    } else {
                        0x0000
                    };
                    (
                        self.reg_pc.wrapping_add(sign_extended_operand),
                        instruction.get_base_cycle_time(),
                    )
                },
                AddressingMode::Immediate | AddressingMode::Accumulator
                | AddressingMode::Implied => {
                    // these modes carry no address
                    (op, instruction.get_base_cycle_time())
                },
            }
        } else {
            (op, instruction.get_base_cycle_time())
        }
    }

    /// The value an operand stands for: read from the bus when it is an
    /// address, its low byte otherwise.
    fn read_operand(&self, decoded_operand: u16, is_operand_address: bool) -> (m: u8)
        ensures
            m == fetch_operand(self@, is_operand_address, decoded_operand as int),
    {
        proof {
            lemma_word_bits(decoded_operand);
        }
        if is_operand_address {
            self.bus.read(decoded_operand)
        } else {
            decoded_operand as u8
        }
    }

    fn run_bitwise_operation<F>(&mut self, decoded_operand: u16, is_operand_address: bool, f: F)
        where
            F: Fn(u8, u8) -> u8,
        requires
            forall|a: u8, b: u8| f.requires((a, b)),
        ensures
            call_ensures(
                f,
                (fetch_operand(old(self)@, is_operand_address, decoded_operand as int), old(self)@.a),
                final(self)@.a,
            ),
            final(self)@ == (CpuState {
                a: final(self)@.a,
                status: with_zn(old(self)@.status, final(self)@.a),
                ..old(self)@
            }),
    {
        let operand = self.read_operand(decoded_operand, is_operand_address);
        let result = f(operand, self.reg_a);
        self.set_zn_flags(result);
        self.reg_a = result;
    }

    fn run_compare_operation(&mut self, decoded_operand: u16, is_operand_address: bool, register: u8)
        ensures
            final(self)@ == (CpuState {
                status: compare_flags(
                    old(self)@.status,
                    register,
                    fetch_operand(old(self)@, is_operand_address, decoded_operand as int),
                ),
                ..old(self)@
            }),
    {
        let operand = self.read_operand(decoded_operand, is_operand_address);
        self.compare_with(register, operand);
    }

    /// The flags of `register - operand`.
    fn compare_with(&mut self, register: u8, operand: u8)
        ensures
            final(self)@ == (CpuState { status: compare_flags(old(self)@.status, register, operand), ..old(self)@ }),
    {
        let result = (register as u16).wrapping_sub(operand as u16);
        proof {
            lemma_word_bits(result);
            assert(result as int == (register - operand + 0x10000) % 0x10000);
            assert((result as int) % 256 == (register - operand + 256) % 256);
        }
        self.set_flag_status(StatusFlag::Zero, result == 0);
        self.set_flag_status(StatusFlag::Negative, result & 0x80 != 0);
        self.set_flag_status(StatusFlag::Carry, result & 0xff00 == 0);
    }

    fn run_branch_condition(&mut self, decoded_operand: u16, condition: bool) -> (cycles: u8)
        ensures
            (final(self)@, cycles as int) == branch(old(self)@, condition, decoded_operand as int, 0),
    {
        let mut cycle_time: u8 = 0;
        if condition {
            cycle_time = if is_on_same_page(self.reg_pc, decoded_operand) {
                1
            } else {
                2
            };
            self.reg_pc = decoded_operand;
        }
        cycle_time
    }

    fn load(&mut self, decoded_operand: u16, is_operand_address: bool) -> (value: u8)
        ensures
            value == fetch_operand(old(self)@, is_operand_address, decoded_operand as int),
            final(self)@ == (CpuState { status: with_zn(old(self)@.status, value), ..old(self)@ }),
    {
        let operand = self.read_operand(decoded_operand, is_operand_address);
        self.set_zn_flags(operand);
        operand
    }

    fn push_stack(&mut self, data: u8)
        ensures
            final(self)@ == push(old(self)@, data),
    {
        proof {
            lemma_stack_address(self.reg_sp);
        }
        self.bus.write(0x0100 | self.reg_sp as u16, data);
        self.reg_sp = self.reg_sp.wrapping_sub(1);
    }

    fn pull_stack(&mut self) -> (data: u8)
        ensures
            final(self)@ == pull(old(self)@),
            data == stack_top(final(self)@),
    {
        self.reg_sp = self.reg_sp.wrapping_add(1);
        proof {
            lemma_stack_address(self.reg_sp);
        }
        self.bus.read(0x0100 | self.reg_sp as u16)
    }

    fn run_adc(&mut self, decoded_operand: u16, is_operand_address: bool)
        ensures
            final(self)@ == adc(
                old(self)@,
                fetch_operand(old(self)@, is_operand_address, decoded_operand as int),
            ),
    {
        let operand = self.read_operand(decoded_operand, is_operand_address);
        self.add_with_carry(operand);
    }

    /// A = A + operand + carry, with the carry, overflow, zero and negative flags.
    fn add_with_carry(&mut self, operand: u8)
        ensures
            final(self)@ == adc(old(self)@, operand),
    {
        let carry: u16 = if self.reg_status & FLAG_CARRY == 0 {
            0
        } else {
            1
        };
        let result = (self.reg_a as u16).wrapping_add(operand as u16).wrapping_add(carry);
        let a = self.reg_a;
        proof {
            lemma_word_bits(result);
            lemma_byte_sign_xor(result as u8, a);
            lemma_byte_sign_xor(operand, a);
            lemma_byte_sign(result as u8);
        }
        // overflow: both operands have the same sign and the result another
        self.set_flag_status(
            StatusFlag::Overflow,
            (((result as u8 ^ self.reg_a) & 0x80) != 0) && !(((operand ^ self.reg_a) & 0x80) != 0),
        );
        self.set_flag_status(StatusFlag::Carry, result & 0xff00 != 0);
        self.set_flag_status(StatusFlag::Zero, result as u8 == 0);
        self.set_flag_status(StatusFlag::Negative, result & 0x80 != 0);
        self.reg_a = result as u8;
    }

    fn run_sbc(&mut self, decoded_operand: u16, is_operand_address: bool)
        ensures
            final(self)@ == sbc(
                old(self)@,
                fetch_operand(old(self)@, is_operand_address, decoded_operand as int),
            ),
    {
        let operand = self.read_operand(decoded_operand, is_operand_address);
        self.subtract_with_borrow(operand);
    }

    /// A = A - operand - borrow, with the carry, overflow, zero and negative flags.
    fn subtract_with_borrow(&mut self, operand: u8)
        ensures
            final(self)@ == sbc(old(self)@, operand),
    {
        // the borrow is the inverted carry
        let carry: u16 = if !(self.reg_status & FLAG_CARRY == 0) {
            0
        } else {
            1
        };
        let result = (self.reg_a as u16).wrapping_sub(operand as u16).wrapping_sub(carry);
        let a = self.reg_a;
        proof {
            let diff = a - operand - carry;
            assert(diff >= -256);
            if diff >= 0 {
                assert(result as int == diff);
            } else {
                assert(result as int == diff + 0x10000);
                assert(result as int == 255 * 256 + (diff + 256));
                assert((result as int) % 256 == diff + 256);
            }
            assert((result as int) % 256 == (diff + 256) % 256);
            lemma_word_bits(result);
            lemma_byte_sign_xor(result as u8, a);
            lemma_byte_sign_xor(operand, a);
            lemma_byte_sign(result as u8);
        }
        // overflow: the operands have different signs and the result has the
        // sign of the subtrahend
        self.set_flag_status(
            StatusFlag::Overflow,
            ((result as u8 ^ self.reg_a) & 0x80 != 0) && ((operand ^ self.reg_a) & 0x80 != 0),
        );
        self.set_flag_status(StatusFlag::Carry, !(result & 0xff00 != 0));
        self.set_flag_status(StatusFlag::Zero, result as u8 == 0);
        self.set_flag_status(StatusFlag::Negative, result & 0x80 != 0);
        self.reg_a = result as u8;
    }

    /// The source of a shift or rotate: memory, or the accumulator.
    fn shift_operand(&self, decoded_operand: u16, is_operand_address: bool) -> (v: u8)
        ensures
            v == (if is_operand_address {
                self@.bus.spec_read(decoded_operand)
            } else {
                self@.a
            }),
    {
        if is_operand_address {
            self.bus.read(decoded_operand)
        } else {
            // if its not address, then its Accumulator for this instruction
            self.reg_a
        }
    }

    /// Writes the result of a shift or rotate back where it came from.
    fn store_shifted(&mut self, instruction: &Instruction, decoded_operand: u16, value: u8) -> (cycles: u8)
        ensures
            final(self)@ == crate::cpu_semantics::store_shift_result(
                old(self)@,
                *instruction,
                decoded_operand as int,
                value,
            ),
            cycles == modify_cycles(*instruction),
    {
        if instruction.is_operand_address() {
            // save back
            self.bus.write(decoded_operand, value);
        } else {
            self.reg_a = value;
        }
        read_modify_write_cycles(instruction)
    }

    fn run_shift(&mut self, instruction: &Instruction, decoded_operand: u16, cycle_time: u8) -> (cycles: u8)
        requires
            instruction.opcode == Opcode::Asl || instruction.opcode == Opcode::Lsr
                || instruction.opcode == Opcode::Rol || instruction.opcode == Opcode::Ror,
            cycle_time <= 7,
        ensures
            (final(self)@, cycles as int) == execute_core(
                old(self)@,
                *instruction,
                decoded_operand as int,
                cycle_time as int,
            ),
    {
        let is_operand_address = instruction.is_operand_address();
        let operand = self.shift_operand(decoded_operand, is_operand_address);
        let old_carry: u8 = if self.reg_status & FLAG_CARRY == 0 {
            0
        } else {
            1
        };
        proof {
            lemma_byte_sign(operand);
            lemma_byte_shift_left(operand);
            lemma_byte_shift_right(operand);
            lemma_byte_rotate_left(operand, old_carry);
            lemma_byte_rotate_right(operand, old_carry);
        }
        match instruction.opcode {
            Opcode::Asl => {
                // the leftmost bit moves to the carry
                self.set_flag_status(StatusFlag::Carry, operand & 0x80 != 0);
                let result = operand << 1;
                self.set_zn_flags(result);
                self.store_shifted(instruction, decoded_operand, result)
            },
            Opcode::Lsr => {
                // the rightmost bit moves to the carry
                self.set_flag_status(StatusFlag::Carry, operand & 0x01 != 0);
                let result = operand >> 1;
                self.set_zn_flags(result);
                self.store_shifted(instruction, decoded_operand, result)
            },
            Opcode::Rol => {
                self.set_flag_status(StatusFlag::Carry, operand & 0x80 != 0);
                let result = (operand << 1) | old_carry;
                self.set_zn_flags(result);
                self.store_shifted(instruction, decoded_operand, result)
            },
            _ => {
                self.set_flag_status(StatusFlag::Carry, operand & 0x01 != 0);
                let result = (operand >> 1) | (old_carry << 7);
                self.set_zn_flags(result);
                self.store_shifted(instruction, decoded_operand, result)
            },
        }
    }

    fn run_bit(&mut self, decoded_operand: u16)
        ensures
            ({
                let v = old(self)@.bus.spec_read(decoded_operand);
                let st1 = set_flag_to(old(self)@.status, FLAG_NEGATIVE, v & FLAG_NEGATIVE != 0);
                let st2 = set_flag_to(st1, FLAG_OVERFLOW, v & FLAG_OVERFLOW != 0);
                final(self)@ == (CpuState {
                    status: set_flag_to(st2, FLAG_ZERO, v & old(self)@.a == 0),
                    ..old(self)@
                })
            }),
    {
        let operand = self.bus.read(decoded_operand);
        // move the negative and overflow flags to the status register
        self.set_flag_status(StatusFlag::Negative, operand & FLAG_NEGATIVE != 0);
        self.set_flag_status(StatusFlag::Overflow, operand & FLAG_OVERFLOW != 0);
        self.set_flag_status(StatusFlag::Zero, operand & self.reg_a == 0);
    }

    fn run_step_memory(&mut self, decoded_operand: u16, increment: bool) -> (result: u8)
        ensures
            result as int == (if increment {
                (old(self)@.bus.spec_read(decoded_operand) + 1) % 256
            } else {
                (old(self)@.bus.spec_read(decoded_operand) + 255) % 256
            }),
            final(self)@ == (CpuState {
                status: with_zn(old(self)@.status, result),
                bus: old(self)@.bus.spec_write(decoded_operand, result),
                ..old(self)@
            }),
    {
        let value = self.bus.read(decoded_operand);
        let result = if increment {
            value.wrapping_add(1)
        } else {
            value.wrapping_sub(1)
        };
        self.set_zn_flags(result);
        // put back
        self.bus.write(decoded_operand, result);
        result
    }

    fn run_jsr(&mut self, decoded_operand: u16)
        requires
        ensures
            final(self)@ == (CpuState {
                pc: decoded_operand,
                ..push(
                    push(old(self)@, (((old(self)@.pc + 0xFFFF) % 0x10000) / 256) as u8),
                    (((old(self)@.pc + 0xFFFF) % 0x10000) % 256) as u8,
                )
            }),
    {
        let pc = self.reg_pc.wrapping_sub(1);
        proof {
            lemma_word_bits(pc);
        }
        let low = pc as u8;
        let high = (pc >> 8) as u8;
        self.push_stack(high);
        self.push_stack(low);
        self.reg_pc = decoded_operand;
    }

    /// The software interrupt.
    fn run_brk(&mut self)
        ensures
            final(self)@ == brk(old(self)@),
    {
        let pc = self.reg_pc.wrapping_add(1);
        proof {
            lemma_word_bits(pc);
        }
        let low = pc as u8;
        let high = (pc >> 8) as u8;
        self.push_stack(high);
        self.push_stack(low);
        let status = self.reg_status | STATUS_ALWAYS_SET;
        self.push_stack(status);
        self.reg_status = self.reg_status | FLAG_INTERRUPT_DISABLE;
        let vector_low = self.bus.read(0xFFFE) as u16;
        let vector_high = self.bus.read(0xFFFF) as u16;
        proof {
            lemma_word_from_bytes(vector_low, vector_high);
        }
        self.reg_pc = vector_high << 8 | vector_low;
    }

    fn run_rti(&mut self)
        ensures
            ({
                let s1 = pull(old(self)@);
                let s2 = pull(s1);
                let s3 = pull(s2);
                final(self)@ == (CpuState {
                    status: stack_top(s1),
                    pc: (stack_top(s3) * 256 + stack_top(s2)) as u16,
                    ..s3
                })
            }),
    {
        self.reg_status = self.pull_stack();
        let low = self.pull_stack() as u16;
        let high = self.pull_stack() as u16;
        proof {
            lemma_word_from_bytes(low, high);
        }
        // unlike RTS, this is the actual address
        self.reg_pc = high << 8 | low;
    }

    fn run_rts(&mut self)
        requires
        ensures
            final(self)@ == (CpuState {
                pc: ((pulled_return_address(old(self)@) + 1) % 0x10000) as u16,
                ..pull(pull(old(self)@))
            }),
    {
        let low = self.pull_stack() as u16;
        let high = self.pull_stack() as u16;
        proof {
            lemma_word_from_bytes(low, high);
        }
        let address = high << 8 | low;
        // go to address + 1
        self.reg_pc = address.wrapping_add(1);
    }

    /// Arithmetic, logic, comparisons, loads and stores.
    fn run_data_instruction(&mut self, instruction: &Instruction, decoded_operand: u16, cycle_time: u8) -> (cycles: u8)
        requires
            can_execute(old(self)@, *instruction),
            decoded_operand as int == decode(old(self)@, *instruction).0,
            cycle_time as int == decode(old(self)@, *instruction).1,
            instruction.opcode == Opcode::Adc || instruction.opcode == Opcode::Sbc || instruction.opcode == Opcode::And || instruction.opcode == Opcode::Eor || instruction.opcode == Opcode::Ora || instruction.opcode == Opcode::Bit || instruction.opcode == Opcode::Cmp || instruction.opcode == Opcode::Cpx || instruction.opcode == Opcode::Cpy || instruction.opcode == Opcode::Lda || instruction.opcode == Opcode::Ldx || instruction.opcode == Opcode::Ldy || instruction.opcode == Opcode::Sta || instruction.opcode == Opcode::Stx || instruction.opcode == Opcode::Sty,
        ensures
            (final(self)@, cycles as int) == execute_core(
                old(self)@,
                *instruction,
                decoded_operand as int,
                cycle_time as int,
            ),
    {
        let mut cycle_time = cycle_time;
        let is_operand_address = instruction.is_operand_address();
        match instruction.opcode {
            Opcode::Adc => {
                self.run_adc(decoded_operand, is_operand_address);
            },
            Opcode::Sbc => {
                self.run_sbc(decoded_operand, is_operand_address);
            },
            Opcode::And => {
                self.run_bitwise_operation(
                    decoded_operand,
                    is_operand_address,
                    bitwise_and,
                );
            },
            Opcode::Eor => {
                self.run_bitwise_operation(
                    decoded_operand,
                    is_operand_address,
                    bitwise_xor,
                );
            },
            Opcode::Ora => {
                self.run_bitwise_operation(
                    decoded_operand,
                    is_operand_address,
                    bitwise_or,
                );
            },
            Opcode::Bit => {
                self.run_bit(decoded_operand);
            },
            Opcode::Cmp => {
                let register = self.reg_a;
                self.run_compare_operation(decoded_operand, is_operand_address, register);
            },
            Opcode::Cpx => {
                let register = self.reg_x;
                self.run_compare_operation(decoded_operand, is_operand_address, register);
            },
            Opcode::Cpy => {
                let register = self.reg_y;
                self.run_compare_operation(decoded_operand, is_operand_address, register);
            },
            Opcode::Lda => {
                self.reg_a = self.load(decoded_operand, is_operand_address);
            },
            Opcode::Ldx => {
                self.reg_x = self.load(decoded_operand, is_operand_address);
            },
            Opcode::Ldy => {
                self.reg_y = self.load(decoded_operand, is_operand_address);
            },
            Opcode::Sta => {
                let a = self.reg_a;
                self.bus.write(decoded_operand, a);
                cycle_time = store_cycle_time(instruction, cycle_time);
            },
            Opcode::Stx => {
                let x = self.reg_x;
                self.bus.write(decoded_operand, x);
                cycle_time = store_cycle_time(instruction, cycle_time);
            },
            Opcode::Sty => {
                let y = self.reg_y;
                self.bus.write(decoded_operand, y);
                cycle_time = store_cycle_time(instruction, cycle_time);
            },
            _ => {},
        }
        cycle_time
    }

    /// Conditional branches.
    fn run_branch_instruction(&mut self, instruction: &Instruction, decoded_operand: u16, cycle_time: u8) -> (cycles: u8)
        requires
            can_execute(old(self)@, *instruction),
            decoded_operand as int == decode(old(self)@, *instruction).0,
            cycle_time as int == decode(old(self)@, *instruction).1,
            instruction.opcode == Opcode::Bcc || instruction.opcode == Opcode::Bcs || instruction.opcode == Opcode::Beq || instruction.opcode == Opcode::Bmi || instruction.opcode == Opcode::Bne || instruction.opcode == Opcode::Bpl || instruction.opcode == Opcode::Bvc || instruction.opcode == Opcode::Bvs,
        ensures
            (final(self)@, cycles as int) == execute_core(
                old(self)@,
                *instruction,
                decoded_operand as int,
                cycle_time as int,
            ),
    {
        let mut cycle_time = cycle_time;
        let is_operand_address = instruction.is_operand_address();
        match instruction.opcode {
            Opcode::Bcc => {
                let condition = self.reg_status & FLAG_CARRY == 0;
                cycle_time = cycle_time + self.run_branch_condition(decoded_operand, condition);
            },
            Opcode::Bcs => {
                let condition = self.reg_status & FLAG_CARRY != 0;
                cycle_time = cycle_time + self.run_branch_condition(decoded_operand, condition);
            },
            Opcode::Beq => {
                let condition = self.reg_status & FLAG_ZERO != 0;
                cycle_time = cycle_time + self.run_branch_condition(decoded_operand, condition);
            },
            Opcode::Bmi => {
                let condition = self.reg_status & FLAG_NEGATIVE != 0;
                cycle_time = cycle_time + self.run_branch_condition(decoded_operand, condition);
            },
            Opcode::Bne => {
                let condition = self.reg_status & FLAG_ZERO == 0;
                cycle_time = cycle_time + self.run_branch_condition(decoded_operand, condition);
            },
            Opcode::Bpl => {
                let condition = self.reg_status & FLAG_NEGATIVE == 0;
                cycle_time = cycle_time + self.run_branch_condition(decoded_operand, condition);
            },
            Opcode::Bvc => {
                let condition = self.reg_status & FLAG_OVERFLOW == 0;
                cycle_time = cycle_time + self.run_branch_condition(decoded_operand, condition);
            },
            Opcode::Bvs => {
                let condition = self.reg_status & FLAG_OVERFLOW != 0;
                cycle_time = cycle_time + self.run_branch_condition(decoded_operand, condition);
            },
            _ => {},
        }
        cycle_time
    }

    /// Memory increments and decrements, jumps, calls, returns and the stack.
    fn run_control_instruction(&mut self, instruction: &Instruction, decoded_operand: u16, cycle_time: u8) -> (cycles: u8)
        requires
            can_execute(old(self)@, *instruction),
            decoded_operand as int == decode(old(self)@, *instruction).0,
            cycle_time as int == decode(old(self)@, *instruction).1,
            instruction.opcode == Opcode::Dec || instruction.opcode == Opcode::Inc || instruction.opcode == Opcode::Jmp || instruction.opcode == Opcode::Jsr || instruction.opcode == Opcode::Rti || instruction.opcode == Opcode::Rts || instruction.opcode == Opcode::Pha || instruction.opcode == Opcode::Php || instruction.opcode == Opcode::Pla || instruction.opcode == Opcode::Plp,
        ensures
            (final(self)@, cycles as int) == execute_core(
                old(self)@,
                *instruction,
                decoded_operand as int,
                cycle_time as int,
            ),
    {
        let mut cycle_time = cycle_time;
        let is_operand_address = instruction.is_operand_address();
        match instruction.opcode {
            Opcode::Dec | Opcode::Inc => {
                self.run_step_memory(decoded_operand, instruction.opcode == Opcode::Inc);
                cycle_time = read_modify_write_cycles(instruction);
            },
            Opcode::Jmp => {
                self.reg_pc = decoded_operand;
                cycle_time = if instruction.addressing_mode == AddressingMode::Indirect {
                    5
                } else {
                    3
                };
            },
            Opcode::Jsr => {
                self.run_jsr(decoded_operand);
                cycle_time = 6;
            },
            Opcode::Rti => {
                self.run_rti();
                cycle_time = 6;
            },
            Opcode::Rts => {
                self.run_rts();
                cycle_time = 6;
            },
            Opcode::Pha => {
                let a = self.reg_a;
                self.push_stack(a);
                cycle_time = 3;
            },
            Opcode::Php => {
                let status = self.reg_status;
                self.push_stack(status);
                cycle_time = 3;
            },
            Opcode::Pla => {
                let result = self.pull_stack();
                self.set_zn_flags(result);
                self.reg_a = result;
                cycle_time = 4;
            },
            Opcode::Plp => {
                self.reg_status = self.pull_stack();
                cycle_time = 4;
            },
            _ => {},
        }
        cycle_time
    }

    /// Flag changes, the software interrupt and no-ops.
    fn run_flag_instruction(&mut self, instruction: &Instruction, decoded_operand: u16, cycle_time: u8) -> (cycles: u8)
        requires
            instruction.opcode == Opcode::Brk || instruction.opcode == Opcode::Clc || instruction.opcode == Opcode::Cld || instruction.opcode == Opcode::Cli || instruction.opcode == Opcode::Clv || instruction.opcode == Opcode::Sec || instruction.opcode == Opcode::Sed || instruction.opcode == Opcode::Sei || instruction.opcode == Opcode::Nop,
        ensures
            (final(self)@, cycles as int) == execute_core(
                old(self)@,
                *instruction,
                decoded_operand as int,
                cycle_time as int,
            ),
    {
        let mut cycle_time = cycle_time;
        let is_operand_address = instruction.is_operand_address();
        match instruction.opcode {
            Opcode::Brk => {
                self.run_brk();
                cycle_time = 7;
            },
            Opcode::Clc => {
                self.unset_flag(StatusFlag::Carry);
            },
            Opcode::Cld => {
                self.unset_flag(StatusFlag::DecimalMode);
            },
            Opcode::Cli => {
                self.unset_flag(StatusFlag::InterruptDisable);
            },
            Opcode::Clv => {
                self.unset_flag(StatusFlag::Overflow);
            },
            Opcode::Sec => {
                self.set_flag(StatusFlag::Carry);
            },
            Opcode::Sed => {
                self.set_flag(StatusFlag::DecimalMode);
            },
            Opcode::Sei => {
                self.set_flag(StatusFlag::InterruptDisable);
            },
            Opcode::Nop => {
                // nothing
            },
            _ => {},
        }
        cycle_time
    }

    /// Register increments and decrements.
    #[verifier::rlimit(40)]
    fn run_count_instruction(&mut self, instruction: &Instruction, decoded_operand: u16, cycle_time: u8) -> (cycles: u8)
        requires
            instruction.opcode == Opcode::Dex || instruction.opcode == Opcode::Dey || instruction.opcode == Opcode::Inx || instruction.opcode == Opcode::Iny,
        ensures
            (final(self)@, cycles as int) == execute_core(
                old(self)@,
                *instruction,
                decoded_operand as int,
                cycle_time as int,
            ),
    {
        let mut cycle_time = cycle_time;
        let is_operand_address = instruction.is_operand_address();
        match instruction.opcode {
            Opcode::Dex => {
                let result = step_byte(self.reg_x, false);
                self.set_zn_flags(result);
                self.reg_x = result;
            },
            Opcode::Dey => {
                let result = step_byte(self.reg_y, false);
                self.set_zn_flags(result);
                self.reg_y = result;
            },
            Opcode::Inx => {
                let result = step_byte(self.reg_x, true);
                self.set_zn_flags(result);
                self.reg_x = result;
            },
            Opcode::Iny => {
                let result = step_byte(self.reg_y, true);
                self.set_zn_flags(result);
                self.reg_y = result;
            },
            _ => {},
        }
        cycle_time
    }

    /// Register transfers.
    #[verifier::rlimit(40)]
    fn run_transfer_instruction(&mut self, instruction: &Instruction, decoded_operand: u16, cycle_time: u8) -> (cycles: u8)
        requires
            instruction.opcode == Opcode::Tax || instruction.opcode == Opcode::Tay || instruction.opcode == Opcode::Txa || instruction.opcode == Opcode::Tya || instruction.opcode == Opcode::Tsx || instruction.opcode == Opcode::Txs,
        ensures
            (final(self)@, cycles as int) == execute_core(
                old(self)@,
                *instruction,
                decoded_operand as int,
                cycle_time as int,
            ),
    {
        let mut cycle_time = cycle_time;
        let is_operand_address = instruction.is_operand_address();
        match instruction.opcode {
            Opcode::Tax => {
                let result = self.reg_a;
                self.set_zn_flags(result);
                self.reg_x = result;
            },
            Opcode::Tay => {
                let result = self.reg_a;
                self.set_zn_flags(result);
                self.reg_y = result;
            },
            Opcode::Txa => {
                let result = self.reg_x;
                self.set_zn_flags(result);
                self.reg_a = result;
            },
            Opcode::Tya => {
                let result = self.reg_y;
                self.set_zn_flags(result);
                self.reg_a = result;
            },
            Opcode::Tsx => {
                let result = self.reg_sp;
                self.set_zn_flags(result);
                self.reg_x = result;
            },
            Opcode::Txs => {
                // no need to set flags
                self.reg_sp = self.reg_x;
            },
            _ => {},
        }
        cycle_time
    }

    /// SLO and SRE: a shift of memory, then OR or EOR into A.
    fn run_shift_combined(&mut self, address: u16, left: bool)
        ensures
            final(self)@ == (if left {
                slo(old(self)@, address as int)
            } else {
                sre(old(self)@, address as int)
            }),
    {
        let value = self.bus.read(address);
        proof {
            lemma_byte_sign(value);
            lemma_byte_shift_left(value);
            lemma_byte_shift_right(value);
        }
        if left {
            self.set_flag_status(StatusFlag::Carry, value & 0x80 != 0);
            let result = value << 1;
            self.set_zn_flags(result);
            self.bus.write(address, result);
            let a = result | self.reg_a;
            self.set_zn_flags(a);
            self.reg_a = a;
        } else {
            self.set_flag_status(StatusFlag::Carry, value & 0x01 != 0);
            let result = value >> 1;
            self.set_zn_flags(result);
            self.bus.write(address, result);
            let a = result ^ self.reg_a;
            self.set_zn_flags(a);
            self.reg_a = a;
        }
    }

    /// RLA and RRA: a rotation of memory, then AND or ADC into A.
    fn run_rotate_combined(&mut self, address: u16, left: bool)
        ensures
            final(self)@ == (if left {
                rla(old(self)@, address as int)
            } else {
                rra(old(self)@, address as int)
            }),
    {
        let value = self.bus.read(address);
        let old_carry: u8 = if self.reg_status & FLAG_CARRY == 0 {
            0
        } else {
            1
        };
        proof {
            lemma_byte_sign(value);
            lemma_byte_rotate_left(value, old_carry);
            lemma_byte_rotate_right(value, old_carry);
        }
        if left {
            self.set_flag_status(StatusFlag::Carry, value & 0x80 != 0);
            let result = (value << 1) | old_carry;
            self.set_zn_flags(result);
            self.bus.write(address, result);
            let a = result & self.reg_a;
            self.set_zn_flags(a);
            self.reg_a = a;
        } else {
            self.set_flag_status(StatusFlag::Carry, value & 0x01 != 0);
            let result = (value >> 1) | (old_carry << 7);
            self.set_zn_flags(result);
            self.bus.write(address, result);
            self.add_with_carry(result);
        }
    }

    /// ISC and DCP: an increment or decrement of memory, then SBC or CMP.
    fn run_step_combined(&mut self, address: u16, increment: bool)
        ensures
            final(self)@ == (if increment {
                isc(old(self)@, address as int)
            } else {
                dcp(old(self)@, address as int)
            }),
    {
        let result = self.run_step_memory(address, increment);
        if increment {
            self.subtract_with_borrow(result);
        } else {
            let a = self.reg_a;
            self.compare_with(a, result);
        }
    }

    /// The undocumented read-modify-write instructions: the memory operation
    /// on the byte at the operand's address, then the register operation
    /// with the result.
    fn run_undocumented_modify(&mut self, instruction: &Instruction, decoded_operand: u16, cycle_time: u8) -> (cycles: u8)
        requires
            cycle_time <= 7,
            instruction.opcode == Opcode::Slo || instruction.opcode == Opcode::Sre || instruction.opcode
                == Opcode::Rla || instruction.opcode == Opcode::Rra || instruction.opcode == Opcode::Isc
                || instruction.opcode == Opcode::Dcp,
        ensures
            (final(self)@, cycles as int) == execute_undocumented(
                old(self)@,
                *instruction,
                decoded_operand as int,
                cycle_time as int,
            ),
    {
        match instruction.opcode {
            Opcode::Slo => self.run_shift_combined(decoded_operand, true),
            Opcode::Sre => self.run_shift_combined(decoded_operand, false),
            Opcode::Rla => self.run_rotate_combined(decoded_operand, true),
            Opcode::Rra => self.run_rotate_combined(decoded_operand, false),
            Opcode::Isc => self.run_step_combined(decoded_operand, true),
            _ => self.run_step_combined(decoded_operand, false),
        }
        read_modify_write_cycles(instruction)
    }

    /// ANC, ALR, ARR, AXS and XAA: A (and X) with the operand.
    fn run_immediate_combined(&mut self, op: Opcode, operand: u8)
        requires
            op == Opcode::Anc || op == Opcode::Alr || op == Opcode::Arr || op == Opcode::Axs || op
                == Opcode::Xaa,
        ensures
            final(self)@ == undocumented_register(old(self)@, op, operand, 0),
    {
        match op {
            Opcode::Anc => {
                let result = self.reg_a & operand;
                proof {
                    lemma_byte_sign(result);
                }
                self.set_zn_flags(result);
                self.set_flag_status(StatusFlag::Carry, result & 0x80 != 0);
                self.reg_a = result;
            },
            Opcode::Alr | Opcode::Arr => {
                let old_carry: u8 = if self.reg_status & FLAG_CARRY == 0 {
                    0
                } else {
                    1
                };
                let anded = self.reg_a & operand;
                proof {
                    lemma_byte_sign(anded);
                    lemma_byte_shift_right(anded);
                    lemma_byte_rotate_right(anded, old_carry);
                }
                if op == Opcode::Alr {
                    self.set_flag_status(StatusFlag::Carry, anded & 0x01 != 0);
                    let result = anded >> 1;
                    self.set_zn_flags(result);
                    self.reg_a = result;
                } else {
                    let result = (anded >> 1) | (old_carry << 7);
                    // the carry comes from bit 6, the overflow from bit 6 xor bit 5
                    self.set_flag_status(StatusFlag::Carry, result & 0x40 != 0);
                    self.set_flag_status(
                        StatusFlag::Overflow,
                        (result & 0x40 != 0) != (result & 0x20 != 0),
                    );
                    self.set_zn_flags(result);
                    self.reg_a = result;
                }
            },
            Opcode::Axs => {
                let anded = self.reg_a & self.reg_x;
                self.compare_with(anded, operand);
                self.reg_x = anded.wrapping_sub(operand);
            },
            _ => {
                let result = self.reg_x & operand;
                self.set_zn_flags(result);
                self.reg_a = result;
            },
        }
    }

    /// SAX, AHX, SHY, SHX, TAS and LAS: stores of masked registers and the
    /// masked load of LAS.
    fn run_masked_store(&mut self, op: Opcode, address: u16)
        requires
            op == Opcode::Sax || op == Opcode::Ahx || op == Opcode::Shy || op == Opcode::Shx || op
                == Opcode::Tas || op == Opcode::Las,
        ensures
            final(self)@ == undocumented_register(old(self)@, op, 0, address as int),
    {
        proof {
            lemma_word_bits(address);
        }
        // the high byte of the address plus one
        let high = ((address >> 8) as u8).wrapping_add(1);
        match op {
            Opcode::Sax => {
                let value = self.reg_a & self.reg_x;
                self.bus.write(address, value);
            },
            Opcode::Ahx => {
                let value = self.reg_a & self.reg_x & high;
                self.bus.write(address, value);
            },
            Opcode::Shy => {
                let value = self.reg_y & high;
                self.bus.write(address, value);
            },
            Opcode::Shx => {
                let value = self.reg_x & high;
                self.bus.write(address, value);
            },
            Opcode::Tas => {
                let sp = self.reg_x & self.reg_a;
                self.reg_sp = sp;
                self.bus.write(address, sp & high);
            },
            _ => {
                let value = self.bus.read(address) & self.reg_sp;
                self.set_zn_flags(value);
                self.reg_a = value;
                self.reg_x = value;
                self.reg_sp = value;
            },
        }
    }

    /// The other undocumented instructions.
    fn run_undocumented_register(&mut self, instruction: &Instruction, decoded_operand: u16, cycle_time: u8) -> (cycles: u8)
        requires
            instruction.opcode == Opcode::Sax || instruction.opcode == Opcode::Lax || instruction.opcode
                == Opcode::Anc || instruction.opcode == Opcode::Alr || instruction.opcode == Opcode::Arr
                || instruction.opcode == Opcode::Axs || instruction.opcode == Opcode::Xaa
                || instruction.opcode == Opcode::Ahx || instruction.opcode == Opcode::Shy
                || instruction.opcode == Opcode::Shx || instruction.opcode == Opcode::Tas
                || instruction.opcode == Opcode::Las,
        ensures
            (final(self)@, cycles as int) == execute_undocumented(
                old(self)@,
                *instruction,
                decoded_operand as int,
                cycle_time as int,
            ),
    {
        let is_operand_address = instruction.is_operand_address();
        match instruction.opcode {
            Opcode::Lax => {
                let value = self.load(decoded_operand, is_operand_address);
                self.reg_a = value;
                self.reg_x = value;
            },
            Opcode::Anc | Opcode::Alr | Opcode::Arr | Opcode::Axs | Opcode::Xaa => {
                let operand = self.read_operand(decoded_operand, is_operand_address);
                self.run_immediate_combined(instruction.opcode, operand);
            },
            _ => {
                self.run_masked_store(instruction.opcode, decoded_operand);
                if instruction.opcode != Opcode::Las {
                    return store_cycle_time(instruction, cycle_time);
                }
            },
        }
        cycle_time
    }

    /// Executes one decoded instruction.
    fn run_instruction(&mut self, instruction: &Instruction)
        requires
            can_execute(old(self)@, *instruction),
        ensures
            final(self)@ == execute(old(self)@, *instruction),
    {
        let (decoded_operand, cycle_time) = self.decode_operand(instruction);
        let cycle_time = match instruction.opcode {
            Opcode::Adc | Opcode::Sbc | Opcode::And | Opcode::Eor | Opcode::Ora | Opcode::Bit
            | Opcode::Cmp | Opcode::Cpx | Opcode::Cpy | Opcode::Lda | Opcode::Ldx | Opcode::Ldy
            | Opcode::Sta | Opcode::Stx | Opcode::Sty => {
                self.run_data_instruction(instruction, decoded_operand, cycle_time)
            },
            Opcode::Bcc | Opcode::Bcs | Opcode::Beq | Opcode::Bmi | Opcode::Bne | Opcode::Bpl
            | Opcode::Bvc | Opcode::Bvs => {
                self.run_branch_instruction(instruction, decoded_operand, cycle_time)
            },
            Opcode::Asl | Opcode::Lsr | Opcode::Rol | Opcode::Ror => {
                self.run_shift(instruction, decoded_operand, cycle_time)
            },
            Opcode::Dec | Opcode::Inc | Opcode::Jmp | Opcode::Jsr | Opcode::Rti | Opcode::Rts
            | Opcode::Pha | Opcode::Php | Opcode::Pla | Opcode::Plp => {
                self.run_control_instruction(instruction, decoded_operand, cycle_time)
            },
            Opcode::Brk | Opcode::Clc | Opcode::Cld | Opcode::Cli | Opcode::Clv | Opcode::Sec
            | Opcode::Sed | Opcode::Sei | Opcode::Nop => {
                self.run_flag_instruction(instruction, decoded_operand, cycle_time)
            },
            Opcode::Dex | Opcode::Dey | Opcode::Inx | Opcode::Iny => {
                self.run_count_instruction(instruction, decoded_operand, cycle_time)
            },
            Opcode::Tax | Opcode::Tay | Opcode::Txa | Opcode::Tya | Opcode::Tsx | Opcode::Txs => {
                self.run_transfer_instruction(instruction, decoded_operand, cycle_time)
            },
            Opcode::Slo | Opcode::Sre | Opcode::Rla | Opcode::Rra | Opcode::Isc | Opcode::Dcp => {
                self.run_undocumented_modify(instruction, decoded_operand, cycle_time)
            },
            Opcode::Sax | Opcode::Lax | Opcode::Anc | Opcode::Alr | Opcode::Arr | Opcode::Axs
            | Opcode::Xaa | Opcode::Ahx | Opcode::Shy | Opcode::Shx | Opcode::Tas | Opcode::Las => {
                self.run_undocumented_register(instruction, decoded_operand, cycle_time)
            },
            _ => {
                // KIL is excluded by the precondition
                cycle_time
            },
        };
        // after finishing running the instruction
        // make sure the unused flag and B flag are always set
        self.reg_status = self.reg_status | STATUS_ALWAYS_SET;
        self.cycles_to_wait = cycle_time;
    }

    /// Reads the instruction at the program counter and moves past it.
    fn fetch_next_instruction(&mut self) -> (instruction: Instruction)
        ensures
            instruction == fetched_instruction(old(self)@),
            final(self)@ == after_fetch(old(self)@),
    {
        let opcode = self.bus.read(self.reg_pc);
        self.reg_pc = self.reg_pc.wrapping_add(1);
        let mut instruction = Instruction::from_byte(opcode);
        let mut operand: u16 = 0;
        let ghost low: u16 = 0;
        let ghost high: u16 = 0;
        // low
        if instruction.get_instruction_len() > 1 {
            let byte = self.bus.read(self.reg_pc) as u16;
            proof {
                low = byte;
                lemma_or_word(byte, 0);
            }
            operand = operand | byte;
            self.reg_pc = self.reg_pc.wrapping_add(1);
        }
        // high
        if instruction.get_instruction_len() > 2 {
            let byte = self.bus.read(self.reg_pc) as u16;
            proof {
                high = byte;
                lemma_or_word(low, byte);
            }
            operand = operand | (byte << 8);
            self.reg_pc = self.reg_pc.wrapping_add(1);
        }
        assert(operand as int == high * 256 + low);
        instruction.operand = operand;
        instruction
    }

    /// Whether `instruction` can be executed when the program counter is `pc`.
    fn can_execute_at(&self, instruction: &Instruction, pc: u16) -> (r: bool)
        ensures
            r == can_execute(CpuState { pc, ..self@ }, *instruction),
    {
        if instruction.opcode == Opcode::Kil {
            return false;
        }
        let needs_address = match instruction.opcode {
            Opcode::Bit | Opcode::Dec | Opcode::Inc | Opcode::Jmp | Opcode::Jsr | Opcode::Sta
            | Opcode::Stx | Opcode::Sty | Opcode::Slo | Opcode::Sre | Opcode::Rla | Opcode::Rra
            | Opcode::Isc | Opcode::Dcp | Opcode::Sax | Opcode::Ahx | Opcode::Shy | Opcode::Shx
            | Opcode::Tas | Opcode::Las => true,
            _ => false,
        };
        !(needs_address && !instruction.is_operand_address())
    }

    /// Whether the next instruction can be fetched and executed.
    fn can_run_next(&self) -> (r: bool)
        ensures
            r == can_step(self@),
    {
        let opcode = self.bus.read(self.reg_pc);
        let decoded = Instruction::from_byte(opcode);
        let len = decoded.get_instruction_len();
        let low: u16 = if len > 1 {
            self.bus.read(self.reg_pc.wrapping_add(1)) as u16
        } else {
            0
        };
        let high: u16 = if len > 2 {
            self.bus.read(self.reg_pc.wrapping_add(2)) as u16
        } else {
            0
        };
        let instruction = Instruction {
            opcode_byte: opcode,
            operand: high * 256 + low,
            opcode: decoded.opcode,
            addressing_mode: decoded.addressing_mode,
        };
        self.can_execute_at(&instruction, self.reg_pc.wrapping_add(len as u16))
    }

    /// Fetches and executes the next instruction.
    fn step_once(&mut self)
        requires
            can_step(old(self)@),
        ensures
            final(self)@ == step(old(self)@),
    {
        proof {
            reveal(step);
        }
        let instruction = self.fetch_next_instruction();
        // decode and execute
        self.run_instruction(&instruction);
    }

    /// Runs instructions until one leaves the program counter where it was
    /// (the program waits in a loop on itself), or until the next one cannot
    /// be executed; returns that program counter as the error.
    pub fn run(&mut self) -> (r: Result<(), u16>)
        ensures
            r == Err::<(), u16>(final(self)@.pc),
            exists|n: nat| ran_until_stop(old(self)@, final(self)@, n, RUN_STEP_LIMIT as nat),
    {
        let ghost s0 = self@;
        // used to find infinite loops
        let mut last_pc = self.reg_pc;
        let mut count: u64 = 0;
        while count < RUN_STEP_LIMIT
            invariant
                s0 == old(self)@,
                self@ == run_steps(s0, count as nat),
                last_pc == self@.pc,
                forall|k: nat| k < count ==> can_step(#[trigger] run_steps(s0, k)),
                forall|k: nat| k < count ==> !stalls(#[trigger] run_steps(s0, k)),
            decreases RUN_STEP_LIMIT - count,
        {
            if !self.can_run_next() {
                assert(ran_until_stop(s0, self@, count as nat, RUN_STEP_LIMIT as nat));
                return Err(self.reg_pc);
            }
            let ghost before = self@;
            self.step_once();
            assert(self@ == run_steps(s0, (count + 1) as nat));
            count = count + 1;
            // if we stuck in a loop, return error
            if self.reg_pc == last_pc {
                assert(stalls(run_steps(s0, (count - 1) as nat)));
                assert(ran_until_stop(s0, self@, count as nat, RUN_STEP_LIMIT as nat));
                return Err(self.reg_pc);
            } else {
                last_pc = self.reg_pc;
            }
        }
        assert(ran_until_stop(s0, self@, count as nat, RUN_STEP_LIMIT as nat));
        Err(self.reg_pc)
    }
}

} // verus!
