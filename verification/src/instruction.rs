//! Decoding of 6502 instruction bytes: opcodes, addressing modes and the
//! fixed properties (length, base cycle time) that follow from them.

use vstd::prelude::*;

verus! {

/// The operation of an instruction.
#[derive(PartialEq, Eq, Copy, Clone, Debug, Structural)]
pub enum Opcode {

    /// Add with carry
    Adc,
    /// And
    And,
    /// Arithmetic shift left
    Asl,
    /// XOR
    Eor,
    /// Logical shift right
    Lsr,
    /// OR
    Ora,
    /// Rotate left
    Rol,
    /// Rotate right
    Ror,
    /// Subtract with carry
    Sbc,

    /// Test bits
    Bit,
    /// Compare A
    Cmp,
    /// Compare X
    Cpx,
    /// Compare Y
    Cpy,

    /// Break
    Brk,

    /// Branch on carry clear
    Bcc,
    /// Branch on carry Set
    Bcs,
    /// Branch on equal
    Beq,
    /// Branch on minus
    Bmi,
    /// Branch on not equal
    Bne,
    /// Branch on plus
    Bpl,
    /// Branch on overflow clear
    Bvc,
    /// Branch on overflow set
    Bvs,

    /// Decrement memory
    Dec,
    /// Increment memory
    Inc,

    /// Clear carry
    Clc,
    /// Clear decimal
    Cld,
    /// Clear interrupt
    Cli,
    /// Clear overflow
    Clv,
    /// Set carry
    Sec,
    /// Set decimal
    Sed,
    /// Set interrupt
    Sei,

    /// Jump
    Jmp,
    /// Jump to subroutine (call)
    Jsr,
    /// Return from interrupt
    Rti,
    /// Return from subroutine
    Rts,

    /// Load A
    Lda,
    /// Load X
    Ldx,
    /// Load Y
    Ldy,
    /// No operation
    Nop,

    /// Decrement X
    Dex,
    /// Decrement Y
    Dey,
    /// Increment X
    Inx,
    /// Increment Y
    Iny,
    /// Transfer A to X
    Tax,
    /// Transfer A to Y
    Tay,
    /// Transfer X to A
    Txa,
    /// Transfer Y to A
    Tya,

    /// Push A
    Pha,
    /// Push status register
    Php,
    /// Pull A
    Pla,
    /// Pull status register
    Plp,
    /// Store A
    Sta,
    /// Store X
    Stx,
    /// Store Y
    Sty,
    /// Transfer stack_ptr to X
    Tsx,
    /// Transfer X to stack_ptr
    Txs,

    // Unofficial instructions
    /// Arithmetic shift left, then OR [Asl + Ora]
    Slo,
    /// Logical shift right, then XOR [Lsr + Eor]
    Sre,
    /// Rotate left, then And [Rol + And]
    Rla,
    /// Rotate right, then Add with carry [Ror + Adc]
    Rra,
    /// Increment memory, then Subtract with carry [Inc + Sbc]
    Isc,
    /// Decrement memory, then Compare A [Dec + Cmp]
    Dcp,
    /// Store the value of (A and X)
    Sax,
    /// Load A and X [Lda + Tax]
    Lax,

    /// And #imm, then set Carry = Negative
    Anc,
    /// And #imm, then Lsr A
    Alr,
    /// And #imm, then Ror A
    Arr,
    /// ((A and X) - #imm) -> X
    Axs,
    /// Transfere X to A, then And #imm [Txa + And #imm]
    Xaa,

    /// Store the value of (A and X and {High byte of $addr}) into $addr
    Ahx,
    /// Store the value of (Y and {High byte of $addr}) into $addr
    Shy,
    /// Store the value of (X and {High byte of $addr}) into $addr
    Shx,

    /// Store the value of (X and A) into (the stack pointer), and store ((the stack pointer) and {High byte of $addr}) into $addr
    Tas,
    /// Store the value of ({value in $addr} & (the stack pointer)) into A, X, and (the stack pointer)
    Las,

    /// Halt the CPU (CRASH)
    Kil,
}

/// How an instruction finds its operand.
#[derive(PartialEq, Eq, Copy, Clone, Debug, Structural)]
pub enum AddressingMode {
    /// `#$aa`
    Immediate,
    /// `$aa`
    ZeroPage,
    /// `$aa, X`
    ZeroPageIndexX,
    /// `$aa, Y`
    ZeroPageIndexY,
    /// `($aabb)`
    Indirect,
    /// `($aa, X)`
    XIndirect,
    /// `($aa), Y`
    IndirectY,
    /// `$aabb`
    Absolute,
    /// `$aabb, X`
    AbsoluteX,
    /// `$aabb, Y`
    AbsoluteY,
    /// `A`
    Accumulator,
    /// `$aa` (relative to the current PC)
    Relative,
    /// Single byte instruction
    Implied,
}

/// A decoded instruction: the opcode byte, its operand (0 until fetched),
/// and the opcode and addressing mode that the byte encodes.
pub struct Instruction {
    pub opcode_byte: u8,
    pub operand: u16,
    pub opcode: Opcode,
    pub addressing_mode: AddressingMode,
}

/// The opcode encoded by each of the 256 instruction bytes.
pub const OPCODES: [Opcode; 256] = [
    Opcode::Brk, Opcode::Ora, Opcode::Kil, Opcode::Slo, Opcode::Nop, Opcode::Ora, Opcode::Asl, Opcode::Slo, // 00
    Opcode::Php, Opcode::Ora, Opcode::Asl, Opcode::Anc, Opcode::Nop, Opcode::Ora, Opcode::Asl, Opcode::Slo, // 08
    Opcode::Bpl, Opcode::Ora, Opcode::Kil, Opcode::Slo, Opcode::Nop, Opcode::Ora, Opcode::Asl, Opcode::Slo, // 10
    Opcode::Clc, Opcode::Ora, Opcode::Nop, Opcode::Slo, Opcode::Nop, Opcode::Ora, Opcode::Asl, Opcode::Slo, // 18
    Opcode::Jsr, Opcode::And, Opcode::Kil, Opcode::Rla, Opcode::Bit, Opcode::And, Opcode::Rol, Opcode::Rla, // 20
    Opcode::Plp, Opcode::And, Opcode::Rol, Opcode::Anc, Opcode::Bit, Opcode::And, Opcode::Rol, Opcode::Rla, // 28
    Opcode::Bmi, Opcode::And, Opcode::Kil, Opcode::Rla, Opcode::Nop, Opcode::And, Opcode::Rol, Opcode::Rla, // 30
    Opcode::Sec, Opcode::And, Opcode::Nop, Opcode::Rla, Opcode::Nop, Opcode::And, Opcode::Rol, Opcode::Rla, // 38
    Opcode::Rti, Opcode::Eor, Opcode::Kil, Opcode::Sre, Opcode::Nop, Opcode::Eor, Opcode::Lsr, Opcode::Sre, // 40
    Opcode::Pha, Opcode::Eor, Opcode::Lsr, Opcode::Alr, Opcode::Jmp, Opcode::Eor, Opcode::Lsr, Opcode::Sre, // 48
    Opcode::Bvc, Opcode::Eor, Opcode::Kil, Opcode::Sre, Opcode::Nop, Opcode::Eor, Opcode::Lsr, Opcode::Sre, // 50
    Opcode::Cli, Opcode::Eor, Opcode::Nop, Opcode::Sre, Opcode::Nop, Opcode::Eor, Opcode::Lsr, Opcode::Sre, // 58
    Opcode::Rts, Opcode::Adc, Opcode::Kil, Opcode::Rra, Opcode::Nop, Opcode::Adc, Opcode::Ror, Opcode::Rra, // 60
    Opcode::Pla, Opcode::Adc, Opcode::Ror, Opcode::Arr, Opcode::Jmp, Opcode::Adc, Opcode::Ror, Opcode::Rra, // 68
    Opcode::Bvs, Opcode::Adc, Opcode::Kil, Opcode::Rra, Opcode::Nop, Opcode::Adc, Opcode::Ror, Opcode::Rra, // 70
    Opcode::Sei, Opcode::Adc, Opcode::Nop, Opcode::Rra, Opcode::Nop, Opcode::Adc, Opcode::Ror, Opcode::Rra, // 78
    Opcode::Nop, Opcode::Sta, Opcode::Nop, Opcode::Sax, Opcode::Sty, Opcode::Sta, Opcode::Stx, Opcode::Sax, // 80
    Opcode::Dey, Opcode::Nop, Opcode::Txa, Opcode::Xaa, Opcode::Sty, Opcode::Sta, Opcode::Stx, Opcode::Sax, // 88
    Opcode::Bcc, Opcode::Sta, Opcode::Kil, Opcode::Ahx, Opcode::Sty, Opcode::Sta, Opcode::Stx, Opcode::Sax, // 90
    Opcode::Tya, Opcode::Sta, Opcode::Txs, Opcode::Tas, Opcode::Shy, Opcode::Sta, Opcode::Shx, Opcode::Ahx, // 98
    Opcode::Ldy, Opcode::Lda, Opcode::Ldx, Opcode::Lax, Opcode::Ldy, Opcode::Lda, Opcode::Ldx, Opcode::Lax, // A0
    Opcode::Tay, Opcode::Lda, Opcode::Tax, Opcode::Lax, Opcode::Ldy, Opcode::Lda, Opcode::Ldx, Opcode::Lax, // A8
    Opcode::Bcs, Opcode::Lda, Opcode::Kil, Opcode::Lax, Opcode::Ldy, Opcode::Lda, Opcode::Ldx, Opcode::Lax, // B0
    Opcode::Clv, Opcode::Lda, Opcode::Tsx, Opcode::Las, Opcode::Ldy, Opcode::Lda, Opcode::Ldx, Opcode::Lax, // B8
    Opcode::Cpy, Opcode::Cmp, Opcode::Nop, Opcode::Dcp, Opcode::Cpy, Opcode::Cmp, Opcode::Dec, Opcode::Dcp, // C0
    Opcode::Iny, Opcode::Cmp, Opcode::Dex, Opcode::Axs, Opcode::Cpy, Opcode::Cmp, Opcode::Dec, Opcode::Dcp, // C8
    Opcode::Bne, Opcode::Cmp, Opcode::Kil, Opcode::Dcp, Opcode::Nop, Opcode::Cmp, Opcode::Dec, Opcode::Dcp, // D0
    Opcode::Cld, Opcode::Cmp, Opcode::Nop, Opcode::Dcp, Opcode::Nop, Opcode::Cmp, Opcode::Dec, Opcode::Dcp, // D8
    Opcode::Cpx, Opcode::Sbc, Opcode::Nop, Opcode::Isc, Opcode::Cpx, Opcode::Sbc, Opcode::Inc, Opcode::Isc, // E0
    Opcode::Inx, Opcode::Sbc, Opcode::Nop, Opcode::Sbc, Opcode::Cpx, Opcode::Sbc, Opcode::Inc, Opcode::Isc, // E8
    Opcode::Beq, Opcode::Sbc, Opcode::Kil, Opcode::Isc, Opcode::Nop, Opcode::Sbc, Opcode::Inc, Opcode::Isc, // F0
    Opcode::Sed, Opcode::Sbc, Opcode::Nop, Opcode::Isc, Opcode::Nop, Opcode::Sbc, Opcode::Inc, Opcode::Isc, // F8
];

/// The addressing mode encoded by each of the 256 instruction bytes.
pub const ADDRESSING_MODES: [AddressingMode; 256] = [
    AddressingMode::Implied, AddressingMode::XIndirect, AddressingMode::Implied, AddressingMode::XIndirect, // 00
    AddressingMode::ZeroPage, AddressingMode::ZeroPage, AddressingMode::ZeroPage, AddressingMode::ZeroPage, // 04
    AddressingMode::Implied, AddressingMode::Immediate, AddressingMode::Accumulator, AddressingMode::Immediate, // 08
    AddressingMode::Absolute, AddressingMode::Absolute, AddressingMode::Absolute, AddressingMode::Absolute, // 0C
    AddressingMode::Relative, AddressingMode::IndirectY, AddressingMode::Implied, AddressingMode::IndirectY, // 10
    AddressingMode::ZeroPageIndexX, AddressingMode::ZeroPageIndexX, AddressingMode::ZeroPageIndexX, AddressingMode::ZeroPageIndexX, // 14
    AddressingMode::Implied, AddressingMode::AbsoluteY, AddressingMode::Implied, AddressingMode::AbsoluteY, // 18
    AddressingMode::AbsoluteX, AddressingMode::AbsoluteX, AddressingMode::AbsoluteX, AddressingMode::AbsoluteX, // 1C
    AddressingMode::Absolute, AddressingMode::XIndirect, AddressingMode::Implied, AddressingMode::XIndirect, // 20
    AddressingMode::ZeroPage, AddressingMode::ZeroPage, AddressingMode::ZeroPage, AddressingMode::ZeroPage, // 24
    AddressingMode::Implied, AddressingMode::Immediate, AddressingMode::Accumulator, AddressingMode::Immediate, // 28
    AddressingMode::Absolute, AddressingMode::Absolute, AddressingMode::Absolute, AddressingMode::Absolute, // 2C
    AddressingMode::Relative, AddressingMode::IndirectY, AddressingMode::Implied, AddressingMode::IndirectY, // 30
    AddressingMode::ZeroPageIndexX, AddressingMode::ZeroPageIndexX, AddressingMode::ZeroPageIndexX, AddressingMode::ZeroPageIndexX, // 34
    AddressingMode::Implied, AddressingMode::AbsoluteY, AddressingMode::Implied, AddressingMode::AbsoluteY, // 38
    AddressingMode::AbsoluteX, AddressingMode::AbsoluteX, AddressingMode::AbsoluteX, AddressingMode::AbsoluteX, // 3C
    AddressingMode::Implied, AddressingMode::XIndirect, AddressingMode::Implied, AddressingMode::XIndirect, // 40
    AddressingMode::ZeroPage, AddressingMode::ZeroPage, AddressingMode::ZeroPage, AddressingMode::ZeroPage, // 44
    AddressingMode::Implied, AddressingMode::Immediate, AddressingMode::Accumulator, AddressingMode::Immediate, // 48
    AddressingMode::Absolute, AddressingMode::Absolute, AddressingMode::Absolute, AddressingMode::Absolute, // 4C
    AddressingMode::Relative, AddressingMode::IndirectY, AddressingMode::Implied, AddressingMode::IndirectY, // 50
    AddressingMode::ZeroPageIndexX, AddressingMode::ZeroPageIndexX, AddressingMode::ZeroPageIndexX, AddressingMode::ZeroPageIndexX, // 54
    AddressingMode::Implied, AddressingMode::AbsoluteY, AddressingMode::Implied, AddressingMode::AbsoluteY, // 58
    AddressingMode::AbsoluteX, AddressingMode::AbsoluteX, AddressingMode::AbsoluteX, AddressingMode::AbsoluteX, // 5C
    AddressingMode::Implied, AddressingMode::XIndirect, AddressingMode::Implied, AddressingMode::XIndirect, // 60
    AddressingMode::ZeroPage, AddressingMode::ZeroPage, AddressingMode::ZeroPage, AddressingMode::ZeroPage, // 64
    AddressingMode::Implied, AddressingMode::Immediate, AddressingMode::Accumulator, AddressingMode::Immediate, // 68
    AddressingMode::Indirect, AddressingMode::Absolute, AddressingMode::Absolute, AddressingMode::Absolute, // 6C
    AddressingMode::Relative, AddressingMode::IndirectY, AddressingMode::Implied, AddressingMode::IndirectY, // 70
    AddressingMode::ZeroPageIndexX, AddressingMode::ZeroPageIndexX, AddressingMode::ZeroPageIndexX, AddressingMode::ZeroPageIndexX, // 74
    AddressingMode::Implied, AddressingMode::AbsoluteY, AddressingMode::Implied, AddressingMode::AbsoluteY, // 78
    AddressingMode::AbsoluteX, AddressingMode::AbsoluteX, AddressingMode::AbsoluteX, AddressingMode::AbsoluteX, // 7C
    AddressingMode::Immediate, AddressingMode::XIndirect, AddressingMode::Immediate, AddressingMode::XIndirect, // 80
    AddressingMode::ZeroPage, AddressingMode::ZeroPage, AddressingMode::ZeroPage, AddressingMode::ZeroPage, // 84
    AddressingMode::Implied, AddressingMode::Immediate, AddressingMode::Implied, AddressingMode::Immediate, // 88
    AddressingMode::Absolute, AddressingMode::Absolute, AddressingMode::Absolute, AddressingMode::Absolute, // 8C
    AddressingMode::Relative, AddressingMode::IndirectY, AddressingMode::Implied, AddressingMode::IndirectY, // 90
    AddressingMode::ZeroPageIndexX, AddressingMode::ZeroPageIndexX, AddressingMode::ZeroPageIndexY, AddressingMode::ZeroPageIndexY, // 94
    AddressingMode::Implied, AddressingMode::AbsoluteY, AddressingMode::Implied, AddressingMode::AbsoluteY, // 98
    AddressingMode::AbsoluteX, AddressingMode::AbsoluteX, AddressingMode::AbsoluteY, AddressingMode::AbsoluteY, // 9C
    AddressingMode::Immediate, AddressingMode::XIndirect, AddressingMode::Immediate, AddressingMode::XIndirect, // A0
    AddressingMode::ZeroPage, AddressingMode::ZeroPage, AddressingMode::ZeroPage, AddressingMode::ZeroPage, // A4
    AddressingMode::Implied, AddressingMode::Immediate, AddressingMode::Implied, AddressingMode::Immediate, // A8
    AddressingMode::Absolute, AddressingMode::Absolute, AddressingMode::Absolute, AddressingMode::Absolute, // AC
    AddressingMode::Relative, AddressingMode::IndirectY, AddressingMode::Implied, AddressingMode::IndirectY, // B0
    AddressingMode::ZeroPageIndexX, AddressingMode::ZeroPageIndexX, AddressingMode::ZeroPageIndexY, AddressingMode::ZeroPageIndexY, // B4
    AddressingMode::Implied, AddressingMode::AbsoluteY, AddressingMode::Implied, AddressingMode::AbsoluteY, // B8
    AddressingMode::AbsoluteX, AddressingMode::AbsoluteX, AddressingMode::AbsoluteY, AddressingMode::AbsoluteY, // BC
    AddressingMode::Immediate, AddressingMode::XIndirect, AddressingMode::Immediate, AddressingMode::XIndirect, // C0
    AddressingMode::ZeroPage, AddressingMode::ZeroPage, AddressingMode::ZeroPage, AddressingMode::ZeroPage, // C4
    AddressingMode::Implied, AddressingMode::Immediate, AddressingMode::Implied, AddressingMode::Immediate, // C8
    AddressingMode::Absolute, AddressingMode::Absolute, AddressingMode::Absolute, AddressingMode::Absolute, // CC
    AddressingMode::Relative, AddressingMode::IndirectY, AddressingMode::Implied, AddressingMode::IndirectY, // D0
    AddressingMode::ZeroPageIndexX, AddressingMode::ZeroPageIndexX, AddressingMode::ZeroPageIndexX, AddressingMode::ZeroPageIndexX, // D4
    AddressingMode::Implied, AddressingMode::AbsoluteY, AddressingMode::Implied, AddressingMode::AbsoluteY, // D8
    AddressingMode::AbsoluteX, AddressingMode::AbsoluteX, AddressingMode::AbsoluteX, AddressingMode::AbsoluteX, // DC
    AddressingMode::Immediate, AddressingMode::XIndirect, AddressingMode::Immediate, AddressingMode::XIndirect, // E0
    AddressingMode::ZeroPage, AddressingMode::ZeroPage, AddressingMode::ZeroPage, AddressingMode::ZeroPage, // E4
    AddressingMode::Implied, AddressingMode::Immediate, AddressingMode::Implied, AddressingMode::Immediate, // E8
    AddressingMode::Absolute, AddressingMode::Absolute, AddressingMode::Absolute, AddressingMode::Absolute, // EC
    AddressingMode::Relative, AddressingMode::IndirectY, AddressingMode::Implied, AddressingMode::IndirectY, // F0
    AddressingMode::ZeroPageIndexX, AddressingMode::ZeroPageIndexX, AddressingMode::ZeroPageIndexX, AddressingMode::ZeroPageIndexX, // F4
    AddressingMode::Implied, AddressingMode::AbsoluteY, AddressingMode::Implied, AddressingMode::AbsoluteY, // F8
    AddressingMode::AbsoluteX, AddressingMode::AbsoluteX, AddressingMode::AbsoluteX, AddressingMode::AbsoluteX, // FC
];

/// The opcode that the byte `byte` encodes.
pub open spec fn opcode_of(byte: u8) -> Opcode {
    OPCODES@[byte as int]
}

/// The addressing mode that the byte `byte` encodes.
pub open spec fn addressing_mode_of(byte: u8) -> AddressingMode {
    ADDRESSING_MODES@[byte as int]
}

/// Opcodes of the documented instruction set; the others are the
/// undocumented ones, which the CPU executes too, all but KIL.
pub open spec fn is_official(op: Opcode) -> bool {
    match op {
        Opcode::Adc | Opcode::And | Opcode::Asl | Opcode::Eor | Opcode::Lsr | Opcode::Ora | Opcode::Rol | Opcode::Ror | Opcode::Sbc | Opcode::Bit | Opcode::Cmp | Opcode::Cpx | Opcode::Cpy | Opcode::Brk | Opcode::Bcc | Opcode::Bcs | Opcode::Beq | Opcode::Bmi | Opcode::Bne | Opcode::Bpl | Opcode::Bvc | Opcode::Bvs | Opcode::Dec | Opcode::Inc | Opcode::Clc | Opcode::Cld | Opcode::Cli | Opcode::Clv | Opcode::Sec | Opcode::Sed | Opcode::Sei | Opcode::Jmp | Opcode::Jsr | Opcode::Rti | Opcode::Rts | Opcode::Lda | Opcode::Ldx | Opcode::Ldy | Opcode::Nop | Opcode::Dex | Opcode::Dey | Opcode::Inx | Opcode::Iny | Opcode::Tax | Opcode::Tay | Opcode::Txa | Opcode::Tya | Opcode::Pha | Opcode::Php | Opcode::Pla | Opcode::Plp | Opcode::Sta | Opcode::Stx | Opcode::Sty | Opcode::Tsx | Opcode::Txs => true,
        _ => false,
    }
}

/// The three-letter assembler name of an opcode.
pub open spec fn spec_mnemonic(op: Opcode) -> &'static str {
    match op {
        Opcode::Adc => "ADC",
        Opcode::And => "AND",
        Opcode::Asl => "ASL",
        Opcode::Eor => "EOR",
        Opcode::Lsr => "LSR",
        Opcode::Ora => "ORA",
        Opcode::Rol => "ROL",
        Opcode::Ror => "ROR",
        Opcode::Sbc => "SBC",
        Opcode::Bit => "BIT",
        Opcode::Cmp => "CMP",
        Opcode::Cpx => "CPX",
        Opcode::Cpy => "CPY",
        Opcode::Brk => "BRK",
        Opcode::Bcc => "BCC",
        Opcode::Bcs => "BCS",
        Opcode::Beq => "BEQ",
        Opcode::Bmi => "BMI",
        Opcode::Bne => "BNE",
        Opcode::Bpl => "BPL",
        Opcode::Bvc => "BVC",
        Opcode::Bvs => "BVS",
        Opcode::Dec => "DEC",
        Opcode::Inc => "INC",
        Opcode::Clc => "CLC",
        Opcode::Cld => "CLD",
        Opcode::Cli => "CLI",
        Opcode::Clv => "CLV",
        Opcode::Sec => "SEC",
        Opcode::Sed => "SED",
        Opcode::Sei => "SEI",
        Opcode::Jmp => "JMP",
        Opcode::Jsr => "JSR",
        Opcode::Rti => "RTI",
        Opcode::Rts => "RTS",
        Opcode::Lda => "LDA",
        Opcode::Ldx => "LDX",
        Opcode::Ldy => "LDY",
        Opcode::Nop => "NOP",
        Opcode::Dex => "DEX",
        Opcode::Dey => "DEY",
        Opcode::Inx => "INX",
        Opcode::Iny => "INY",
        Opcode::Tax => "TAX",
        Opcode::Tay => "TAY",
        Opcode::Txa => "TXA",
        Opcode::Tya => "TYA",
        Opcode::Pha => "PHA",
        Opcode::Php => "PHP",
        Opcode::Pla => "PLA",
        Opcode::Plp => "PLP",
        Opcode::Sta => "STA",
        Opcode::Stx => "STX",
        Opcode::Sty => "STY",
        Opcode::Tsx => "TSX",
        Opcode::Txs => "TXS",
        Opcode::Slo => "SLO",
        Opcode::Sre => "SRE",
        Opcode::Rla => "RLA",
        Opcode::Rra => "RRA",
        Opcode::Isc => "ISC",
        Opcode::Dcp => "DCP",
        Opcode::Sax => "SAX",
        Opcode::Lax => "LAX",
        Opcode::Anc => "ANC",
        Opcode::Alr => "ALR",
        Opcode::Arr => "ARR",
        Opcode::Axs => "AXS",
        Opcode::Xaa => "XAA",
        Opcode::Ahx => "AHX",
        Opcode::Shy => "SHY",
        Opcode::Shx => "SHX",
        Opcode::Tas => "TAS",
        Opcode::Las => "LAS",
        Opcode::Kil => "KIL",
    }
}

impl Opcode {
    /// Whether the opcode belongs to the documented instruction set.
    pub fn is_official(&self) -> (r: bool)
        ensures
            r == is_official(*self),
    {
        match self {
            Opcode::Slo | Opcode::Sre | Opcode::Rla | Opcode::Rra | Opcode::Isc | Opcode::Dcp
            | Opcode::Sax | Opcode::Lax | Opcode::Anc | Opcode::Alr | Opcode::Arr | Opcode::Axs
            | Opcode::Xaa | Opcode::Ahx | Opcode::Shy | Opcode::Shx | Opcode::Tas | Opcode::Las
            | Opcode::Kil => false,
            _ => true,
        }
    }

    /// The three-letter assembler name of this opcode, in upper case.
    pub fn mnemonic(&self) -> (name: &'static str)
        ensures
            name == spec_mnemonic(*self),
    {
        match self {
            Opcode::Adc => "ADC",
            Opcode::And => "AND",
            Opcode::Asl => "ASL",
            Opcode::Eor => "EOR",
            Opcode::Lsr => "LSR",
            Opcode::Ora => "ORA",
            Opcode::Rol => "ROL",
            Opcode::Ror => "ROR",
            Opcode::Sbc => "SBC",
            Opcode::Bit => "BIT",
            Opcode::Cmp => "CMP",
            Opcode::Cpx => "CPX",
            Opcode::Cpy => "CPY",
            Opcode::Brk => "BRK",
            Opcode::Bcc => "BCC",
            Opcode::Bcs => "BCS",
            Opcode::Beq => "BEQ",
            Opcode::Bmi => "BMI",
            Opcode::Bne => "BNE",
            Opcode::Bpl => "BPL",
            Opcode::Bvc => "BVC",
            Opcode::Bvs => "BVS",
            Opcode::Dec => "DEC",
            Opcode::Inc => "INC",
            Opcode::Clc => "CLC",
            Opcode::Cld => "CLD",
            Opcode::Cli => "CLI",
            Opcode::Clv => "CLV",
            Opcode::Sec => "SEC",
            Opcode::Sed => "SED",
            Opcode::Sei => "SEI",
            Opcode::Jmp => "JMP",
            Opcode::Jsr => "JSR",
            Opcode::Rti => "RTI",
            Opcode::Rts => "RTS",
            Opcode::Lda => "LDA",
            Opcode::Ldx => "LDX",
            Opcode::Ldy => "LDY",
            Opcode::Nop => "NOP",
            Opcode::Dex => "DEX",
            Opcode::Dey => "DEY",
            Opcode::Inx => "INX",
            Opcode::Iny => "INY",
            Opcode::Tax => "TAX",
            Opcode::Tay => "TAY",
            Opcode::Txa => "TXA",
            Opcode::Tya => "TYA",
            Opcode::Pha => "PHA",
            Opcode::Php => "PHP",
            Opcode::Pla => "PLA",
            Opcode::Plp => "PLP",
            Opcode::Sta => "STA",
            Opcode::Stx => "STX",
            Opcode::Sty => "STY",
            Opcode::Tsx => "TSX",
            Opcode::Txs => "TXS",
            Opcode::Slo => "SLO",
            Opcode::Sre => "SRE",
            Opcode::Rla => "RLA",
            Opcode::Rra => "RRA",
            Opcode::Isc => "ISC",
            Opcode::Dcp => "DCP",
            Opcode::Sax => "SAX",
            Opcode::Lax => "LAX",
            Opcode::Anc => "ANC",
            Opcode::Alr => "ALR",
            Opcode::Arr => "ARR",
            Opcode::Axs => "AXS",
            Opcode::Xaa => "XAA",
            Opcode::Ahx => "AHX",
            Opcode::Shy => "SHY",
            Opcode::Shx => "SHX",
            Opcode::Tas => "TAS",
            Opcode::Las => "LAS",
            Opcode::Kil => "KIL",
        }
    }
}



impl AddressingMode {
    /// Number of bytes that an instruction with this mode takes (opcode and operand).
    pub open spec fn spec_instruction_len(self) -> nat {
        match self {
            AddressingMode::Immediate => 2,
            AddressingMode::ZeroPage => 2,
            AddressingMode::ZeroPageIndexX => 2,
            AddressingMode::ZeroPageIndexY => 2,
            AddressingMode::Indirect => 3,
            AddressingMode::XIndirect => 2,
            AddressingMode::IndirectY => 2,
            AddressingMode::Absolute => 3,
            AddressingMode::AbsoluteX => 3,
            AddressingMode::AbsoluteY => 3,
            AddressingMode::Accumulator => 1,
            AddressingMode::Relative => 2,
            AddressingMode::Implied => 1,
        }
    }

    /// Cycles an instruction with this mode takes before any extra cost.
    pub open spec fn spec_base_cycle_time(self) -> nat {
        match self {
            AddressingMode::Immediate => 2,
            AddressingMode::ZeroPage => 3,
            AddressingMode::ZeroPageIndexX => 4,
            AddressingMode::ZeroPageIndexY => 4,
            AddressingMode::Indirect => 5,
            AddressingMode::XIndirect => 6,
            AddressingMode::IndirectY => 5,
            AddressingMode::Absolute => 4,
            AddressingMode::AbsoluteX => 4,
            AddressingMode::AbsoluteY => 4,
            AddressingMode::Accumulator => 2,
            AddressingMode::Relative => 2,
            AddressingMode::Implied => 2,
        }
    }

    /// Whether the operand of this mode is (or leads to) a memory address,
    /// rather than a value, the accumulator, or nothing.
    pub open spec fn spec_is_operand_address(self) -> bool {
        !(self == AddressingMode::Accumulator || self == AddressingMode::Implied
            || self == AddressingMode::Immediate)
    }

    /// Whether indexing in this mode may cross a page and cost an extra cycle.
    pub fn can_cross_page(&self) -> (r: bool)
        ensures
            r == (*self == AddressingMode::IndirectY || *self == AddressingMode::AbsoluteX
                || *self == AddressingMode::AbsoluteY),
    {
        *self == AddressingMode::IndirectY || *self == AddressingMode::AbsoluteX
            || *self == AddressingMode::AbsoluteY
    }

    pub fn get_instruction_len(&self) -> (len: usize)
        ensures
            len == self.spec_instruction_len(),
    {
        match self {
            AddressingMode::Immediate => 2,
            AddressingMode::ZeroPage => 2,
            AddressingMode::ZeroPageIndexX => 2,
            AddressingMode::ZeroPageIndexY => 2,
            AddressingMode::Indirect => 3,
            AddressingMode::XIndirect => 2,
            AddressingMode::IndirectY => 2,
            AddressingMode::Absolute => 3,
            AddressingMode::AbsoluteX => 3,
            AddressingMode::AbsoluteY => 3,
            AddressingMode::Accumulator => 1,
            AddressingMode::Relative => 2,
            AddressingMode::Implied => 1,
        }
    }

    pub fn get_base_cycle_time(&self) -> (cycles: u8)
        ensures
            cycles == self.spec_base_cycle_time(),
    {
        match self {
            AddressingMode::Immediate => 2,
            AddressingMode::ZeroPage => 3,
            AddressingMode::ZeroPageIndexX => 4,
            AddressingMode::ZeroPageIndexY => 4,
            AddressingMode::Indirect => 5,
            AddressingMode::XIndirect => 6,
            AddressingMode::IndirectY => 5,
            AddressingMode::Absolute => 4,
            AddressingMode::AbsoluteX => 4,
            AddressingMode::AbsoluteY => 4,
            AddressingMode::Accumulator => 2,
            AddressingMode::Relative => 2,
            AddressingMode::Implied => 2,
        }
    }

    pub fn is_operand_address(&self) -> (r: bool)
        ensures
            r == self.spec_is_operand_address(),
    {
        !(*self == AddressingMode::Accumulator || *self == AddressingMode::Implied
            || *self == AddressingMode::Immediate)
    }
}

impl Instruction {
    /// Decodes an opcode byte; the operand is left at 0, to be fetched.
    pub fn from_byte(byte: u8) -> (instruction: Instruction)
        ensures
            instruction.opcode_byte == byte,
            instruction.operand == 0,
            instruction.opcode == opcode_of(byte),
            instruction.addressing_mode == addressing_mode_of(byte),
    {
        Instruction {
            opcode_byte: byte,
            operand: 0,
            opcode: OPCODES[byte as usize],
            addressing_mode: ADDRESSING_MODES[byte as usize],
        }
    }

    /// The length in bytes of the instruction, which its addressing mode decides.
    pub fn get_instruction_len(&self) -> (len: usize)
        ensures
            len == self.addressing_mode.spec_instruction_len(),
    {
        self.addressing_mode.get_instruction_len()
    }

    /// The base cycle time of the instruction, which its addressing mode decides.
    pub fn get_base_cycle_time(&self) -> (cycles: u8)
        ensures
            cycles == self.addressing_mode.spec_base_cycle_time(),
    {
        self.addressing_mode.get_base_cycle_time()
    }

    pub fn is_operand_address(&self) -> (r: bool)
        ensures
            r == self.addressing_mode.spec_is_operand_address(),
    {
        self.addressing_mode.is_operand_address()
    }
}

} // verus!
