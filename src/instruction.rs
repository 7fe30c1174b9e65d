//! Instruction formats, the decoded instruction set, and the decoder from a
//! 32-bit instruction word.

use vstd::prelude::*;

use crate::immediate::{BigImmediate, SmallImmediate};

verus! {

/// Register-register operands.
#[derive(Clone, Copy, Debug, PartialEq, Eq, Structural)]
pub struct R {
    pub rd: u8,
    pub rs1: u8,
    pub rs2: u8,
}

/// Register-immediate operands: ALU immediates, loads, `JALR`, system calls.
#[derive(Clone, Copy, Debug, PartialEq, Eq, Structural)]
pub struct I {
    pub rd: u8,
    pub rs1: u8,
    pub imm: SmallImmediate,
}

/// Store operands: the immediate is the byte offset from `rs1`.
#[derive(Clone, Copy, Debug, PartialEq, Eq, Structural)]
pub struct S {
    pub imm: SmallImmediate,
    pub rs1: u8,
    pub rs2: u8,
}

/// Upper-immediate operands: the immediate fills bits 12 to 31.
#[derive(Clone, Copy, Debug, PartialEq, Eq, Structural)]
pub struct U {
    pub rd: u8,
    pub imm: BigImmediate,
}

/// Branch operands: the immediate is half of the byte offset.
#[derive(Clone, Copy, Debug, PartialEq, Eq, Structural)]
pub struct B {
    pub imm: SmallImmediate,
    pub rs1: u8,
    pub rs2: u8,
}

/// Jump operands: the immediate is half of the byte offset.
#[derive(Clone, Copy, Debug, PartialEq, Eq, Structural)]
pub struct J {
    pub rd: u8,
    pub imm: BigImmediate,
}

/// One decoded operation with its operands.
#[derive(Clone, Copy, Debug, PartialEq, Eq, Structural)]
pub enum Instruction {
    ADD { data: R },
    SUB { data: R },
    XOR { data: R },
    OR { data: R },
    AND { data: R },
    SLL { data: R },
    SRL { data: R },
    SRA { data: R },
    SLT { data: R },
    SLTU { data: R },
    ADDI { data: I },
    XORI { data: I },
    ORI { data: I },
    ANDI { data: I },
    SLLI { data: I },
    SRLI { data: I },
    SRAI { data: I },
    SLTI { data: I },
    SLTUI { data: I },
    LB { data: I },
    LH { data: I },
    LW { data: I },
    LBU { data: I },
    LHU { data: I },
    SB { data: S },
    SH { data: S },
    SW { data: S },
    BEQ { data: B },
    BNE { data: B },
    BLT { data: B },
    BGE { data: B },
    BLTU { data: B },
    BGEU { data: B },
    JAL { data: J },
    JALR { data: I },
    LUI { data: U },
    AUIPC { data: U },
    ECALL { data: I },
    EBREAK { data: I },
}

/// `r` names one of the registers `x0` to `x31`.
pub open spec fn reg_ok(r: u8) -> bool {
    r < 32
}

impl R {
    /// Register fields name registers.
    pub open spec fn wf(&self) -> bool {
        reg_ok(self.rd) && reg_ok(self.rs1) && reg_ok(self.rs2)
    }
}

impl I {
    /// Register fields name registers and the immediate fits its field.
    pub open spec fn wf(&self) -> bool {
        reg_ok(self.rd) && reg_ok(self.rs1) && self.imm.wf()
    }
}

impl S {
    /// Register fields name registers and the immediate fits its field.
    pub open spec fn wf(&self) -> bool {
        reg_ok(self.rs1) && reg_ok(self.rs2) && self.imm.wf()
    }
}

impl U {
    /// Register fields name registers and the immediate fits its field.
    pub open spec fn wf(&self) -> bool {
        reg_ok(self.rd) && self.imm.wf()
    }
}

impl B {
    /// Register fields name registers and the immediate fits its field.
    pub open spec fn wf(&self) -> bool {
        reg_ok(self.rs1) && reg_ok(self.rs2) && self.imm.wf()
    }
}

impl J {
    /// Register fields name registers and the immediate fits its field.
    pub open spec fn wf(&self) -> bool {
        reg_ok(self.rd) && self.imm.wf()
    }
}

impl Instruction {
    /// Every register index names one of the 32 registers and every immediate
    /// fits its field.
    pub open spec fn wf(&self) -> bool {
        match *self {
            Instruction::ADD { data } => data.wf(),
            Instruction::SUB { data } => data.wf(),
            Instruction::XOR { data } => data.wf(),
            Instruction::OR { data } => data.wf(),
            Instruction::AND { data } => data.wf(),
            Instruction::SLL { data } => data.wf(),
            Instruction::SRL { data } => data.wf(),
            Instruction::SRA { data } => data.wf(),
            Instruction::SLT { data } => data.wf(),
            Instruction::SLTU { data } => data.wf(),
            Instruction::ADDI { data } => data.wf(),
            Instruction::XORI { data } => data.wf(),
            Instruction::ORI { data } => data.wf(),
            Instruction::ANDI { data } => data.wf(),
            Instruction::SLLI { data } => data.wf(),
            Instruction::SRLI { data } => data.wf(),
            Instruction::SRAI { data } => data.wf(),
            Instruction::SLTI { data } => data.wf(),
            Instruction::SLTUI { data } => data.wf(),
            Instruction::LB { data } => data.wf(),
            Instruction::LH { data } => data.wf(),
            Instruction::LW { data } => data.wf(),
            Instruction::LBU { data } => data.wf(),
            Instruction::LHU { data } => data.wf(),
            Instruction::SB { data } => data.wf(),
            Instruction::SH { data } => data.wf(),
            Instruction::SW { data } => data.wf(),
            Instruction::BEQ { data } => data.wf(),
            Instruction::BNE { data } => data.wf(),
            Instruction::BLT { data } => data.wf(),
            Instruction::BGE { data } => data.wf(),
            Instruction::BLTU { data } => data.wf(),
            Instruction::BGEU { data } => data.wf(),
            Instruction::JAL { data } => data.wf(),
            Instruction::JALR { data } => data.wf(),
            Instruction::LUI { data } => data.wf(),
            Instruction::AUIPC { data } => data.wf(),
            Instruction::ECALL { data } => data.wf(),
            Instruction::EBREAK { data } => data.wf(),
        }
    }

    /// `ADD` to `SLTU`: register-register operations.
    pub open spec fn is_register_op_spec(&self) -> bool {
        ||| self is ADD
        ||| self is SUB
        ||| self is XOR
        ||| self is OR
        ||| self is AND
        ||| self is SLL
        ||| self is SRL
        ||| self is SRA
        ||| self is SLT
        ||| self is SLTU
    }

    /// `ADDI` to `SLTUI`, `LUI` and `AUIPC`: operations on a register and an immediate.
    pub open spec fn is_immediate_op_spec(&self) -> bool {
        ||| self is ADDI
        ||| self is XORI
        ||| self is ORI
        ||| self is ANDI
        ||| self is SLLI
        ||| self is SRLI
        ||| self is SRAI
        ||| self is SLTI
        ||| self is SLTUI
        ||| self is LUI
        ||| self is AUIPC
    }

    /// Loads and stores.
    pub open spec fn is_memory_op_spec(&self) -> bool {
        ||| self is LB
        ||| self is LH
        ||| self is LW
        ||| self is LBU
        ||| self is LHU
        ||| self is SB
        ||| self is SH
        ||| self is SW
    }

    /// Branches and jumps.
    pub open spec fn is_control_op_spec(&self) -> bool {
        ||| self is BEQ
        ||| self is BNE
        ||| self is BLT
        ||| self is BGE
        ||| self is BLTU
        ||| self is BGEU
        ||| self is JAL
        ||| self is JALR
    }

    /// Whether this is a register-register operation.
    #[verifier::when_used_as_spec(is_register_op_spec)]
    pub fn is_register_op(&self) -> (b: bool)
        ensures
            b == self.is_register_op_spec(),
    {
        matches!(*self, Instruction::ADD { .. } | Instruction::SUB { .. } | Instruction::XOR { .. }
            | Instruction::OR { .. } | Instruction::AND { .. } | Instruction::SLL { .. }
            | Instruction::SRL { .. } | Instruction::SRA { .. } | Instruction::SLT { .. }
            | Instruction::SLTU { .. })
    }

    /// Whether this is a register-immediate or upper-immediate operation.
    #[verifier::when_used_as_spec(is_immediate_op_spec)]
    pub fn is_immediate_op(&self) -> (b: bool)
        ensures
            b == self.is_immediate_op_spec(),
    {
        matches!(*self, Instruction::ADDI { .. } | Instruction::XORI { .. }
            | Instruction::ORI { .. } | Instruction::ANDI { .. } | Instruction::SLLI { .. } | Instruction::SRLI { .. }
            | Instruction::SRAI { .. } | Instruction::SLTI { .. } | Instruction::SLTUI { .. }
            | Instruction::LUI { .. } | Instruction::AUIPC { .. })
    }

    /// Whether this is a load or a store.
    #[verifier::when_used_as_spec(is_memory_op_spec)]
    pub fn is_memory_op(&self) -> (b: bool)
        ensures
            b == self.is_memory_op_spec(),
    {
        matches!(*self, Instruction::LB { .. } | Instruction::LH { .. } | Instruction::LW { .. }
            | Instruction::LBU { .. } | Instruction::LHU { .. } | Instruction::SB { .. }
            | Instruction::SH { .. } | Instruction::SW { .. })
    }

    /// Whether this is a branch or a jump.
    #[verifier::when_used_as_spec(is_control_op_spec)]
    pub fn is_control_op(&self) -> (b: bool)
        ensures
            b == self.is_control_op_spec(),
    {
        matches!(*self, Instruction::BEQ { .. } | Instruction::BNE { .. } | Instruction::BLT { .. }
            | Instruction::BGE { .. } | Instruction::BLTU { .. } | Instruction::BGEU { .. }
            | Instruction::JAL { .. } | Instruction::JALR { .. })
    }

    /// What an unrecognised word decodes to: `ADDI x0, x0, 0`.
    pub open spec fn nop_spec() -> Instruction {
        Instruction::ADDI { data: I { rd: 0, rs1: 0, imm: SmallImmediate { val: 0 } } }
    }

    /// The instruction that does nothing: `ADDI x0, x0, 0`.
    pub fn nop() -> (r: Instruction)
        ensures
            r == Self::nop_spec(),
    {
        Instruction::ADDI { data: I { rd: 0, rs1: 0, imm: SmallImmediate { val: 0 } } }
    }
}

/// Bits 0 to 6 of an instruction word: the opcode.
pub open spec fn opcode_of(w: u32) -> u32 {
    w % 0x80
}

/// Bits 12 to 14: funct3.
pub open spec fn funct3_of(w: u32) -> u32 {
    (w / 0x1000) % 8
}

/// Bit 30, which tells `SUB` from `ADD` and the arithmetic shifts from the
/// logical ones.
pub open spec fn bit30_of(w: u32) -> u32 {
    (w / 0x4000_0000) % 2
}

/// Bits 7 to 11: the destination register.
pub open spec fn rd_of(w: u32) -> u8 {
    ((w / 0x80) % 0x20) as u8
}

/// Bits 15 to 19: the first source register.
pub open spec fn rs1_of(w: u32) -> u8 {
    ((w / 0x8000) % 0x20) as u8
}

/// Bits 20 to 24: the second source register.
pub open spec fn rs2_of(w: u32) -> u8 {
    ((w / 0x10_0000) % 0x20) as u8
}

/// I-format immediate: bits 20 to 31.
pub open spec fn i_imm_of(w: u32) -> u32 {
    w / 0x10_0000
}

/// S-format immediate: bits 25 to 31 above bits 7 to 11.
pub open spec fn s_imm_of(w: u32) -> u32 {
    ((w / 0x200_0000) * 0x20 + (w / 0x80) % 0x20) as u32
}

/// B-format immediate, half the branch offset: word bit 31 gives offset bit 12,
/// bit 7 gives offset bit 11, bits 25 to 30 give offset bits 5 to 10 and bits
/// 8 to 11 give offset bits 1 to 4.
pub open spec fn b_imm_of(w: u32) -> u32 {
    ((w / 0x8000_0000) * 0x800 + ((w / 0x80) % 2) * 0x400 + ((w / 0x200_0000) % 0x40) * 0x10
        + (w / 0x100) % 0x10) as u32
}

/// U-format immediate: bits 12 to 31.
pub open spec fn u_imm_of(w: u32) -> u32 {
    w / 0x1000
}

/// J-format immediate, half the jump offset: word bit 31 gives offset bit 20,
/// bits 12 to 19 give offset bits 12 to 19, bit 20 gives offset bit 11 and
/// bits 21 to 30 give offset bits 1 to 10.
pub open spec fn j_imm_of(w: u32) -> u32 {
    ((w / 0x8000_0000) * 0x8_0000 + ((w / 0x1000) % 0x100) * 0x800 + ((w / 0x10_0000) % 2)
        * 0x400 + (w / 0x20_0000) % 0x400) as u32
}

/// The R-format operands of `w`.
pub open spec fn r_of(w: u32) -> R {
    R { rd: rd_of(w), rs1: rs1_of(w), rs2: rs2_of(w) }
}

/// The I-format operands of `w`.
pub open spec fn i_of(w: u32) -> I {
    I { rd: rd_of(w), rs1: rs1_of(w), imm: SmallImmediate { val: i_imm_of(w) } }
}

/// The S-format operands of `w`.
pub open spec fn s_of(w: u32) -> S {
    S { imm: SmallImmediate { val: s_imm_of(w) }, rs1: rs1_of(w), rs2: rs2_of(w) }
}

/// The B-format operands of `w`.
pub open spec fn b_of(w: u32) -> B {
    B { imm: SmallImmediate { val: b_imm_of(w) }, rs1: rs1_of(w), rs2: rs2_of(w) }
}

/// The U-format operands of `w`.
pub open spec fn u_of(w: u32) -> U {
    U { rd: rd_of(w), imm: BigImmediate { val: u_imm_of(w) } }
}

/// The J-format operands of `w`.
pub open spec fn j_of(w: u32) -> J {
    J { rd: rd_of(w), imm: BigImmediate { val: j_imm_of(w) } }
}

/// The instruction that a word encodes, by the base ISA's opcode, funct3 and
/// bit-30 table; any word outside the table is the no-op.
pub open spec fn decode(w: u32) -> Instruction {
    let op = opcode_of(w);
    let f3 = funct3_of(w);
    let nop = Instruction::nop_spec();
    if op == 0b0110011 {
        let data = r_of(w);
        if bit30_of(w) == 0 {
            if f3 == 0 {
                Instruction::ADD { data }
            } else if f3 == 1 {
                Instruction::SLL { data }
            } else if f3 == 2 {
                Instruction::SLT { data }
            } else if f3 == 3 {
                Instruction::SLTU { data }
            } else if f3 == 4 {
                Instruction::XOR { data }
            } else if f3 == 5 {
                Instruction::SRL { data }
            } else if f3 == 6 {
                Instruction::OR { data }
            } else {
                Instruction::AND { data }
            }
        } else if f3 == 0 {
            Instruction::SUB { data }
        } else if f3 == 5 {
            Instruction::SRA { data }
        } else {
            nop
        }
    } else if op == 0b0010011 {
        let data = i_of(w);
        if f3 == 0 {
            Instruction::ADDI { data }
        } else if f3 == 1 {
            Instruction::SLLI { data }
        } else if f3 == 2 {
            Instruction::SLTI { data }
        } else if f3 == 3 {
            Instruction::SLTUI { data }
        } else if f3 == 4 {
            Instruction::XORI { data }
        } else if f3 == 5 {
            if bit30_of(w) == 0 {
                Instruction::SRLI { data }
            } else {
                Instruction::SRAI { data }
            }
        } else if f3 == 6 {
            Instruction::ORI { data }
        } else {
            Instruction::ANDI { data }
        }
    } else if op == 0b0000011 {
        let data = i_of(w);
        if f3 == 0 {
            Instruction::LB { data }
        } else if f3 == 1 {
            Instruction::LH { data }
        } else if f3 == 2 {
            Instruction::LW { data }
        } else if f3 == 4 {
            Instruction::LBU { data }
        } else if f3 == 5 {
            Instruction::LHU { data }
        } else {
            nop
        }
    } else if op == 0b0100011 {
        let data = s_of(w);
        if f3 == 0 {
            Instruction::SB { data }
        } else if f3 == 1 {
            Instruction::SH { data }
        } else if f3 == 2 {
            Instruction::SW { data }
        } else {
            nop
        }
    } else if op == 0b1100011 {
        let data = b_of(w);
        if f3 == 0 {
            Instruction::BEQ { data }
        } else if f3 == 1 {
            Instruction::BNE { data }
        } else if f3 == 4 {
            Instruction::BLT { data }
        } else if f3 == 5 {
            Instruction::BGE { data }
        } else if f3 == 6 {
            Instruction::BLTU { data }
        } else if f3 == 7 {
            Instruction::BGEU { data }
        } else {
            nop
        }
    } else if op == 0b1101111 {
        Instruction::JAL { data: j_of(w) }
    } else if op == 0b1100111 {
        Instruction::JALR { data: i_of(w) }
    } else if op == 0b0110111 {
        Instruction::LUI { data: u_of(w) }
    } else if op == 0b0010111 {
        Instruction::AUIPC { data: u_of(w) }
    } else if op == 0b1110011 && f3 == 0 && rd_of(w) == 0 && rs1_of(w) == 0 && i_imm_of(w) == 0 {
        Instruction::ECALL { data: i_of(w) }
    } else if op == 0b1110011 && f3 == 0 && rd_of(w) == 0 && rs1_of(w) == 0 && i_imm_of(w) == 1 {
        Instruction::EBREAK { data: i_of(w) }
    } else {
        nop
    }
}

proof fn lemma_field_bits(w: u32)
    by (bit_vector)
    ensures
        w & 0x7f == w % 0x80,
        (w >> 12) & 7 == (w / 0x1000) % 8,
        (w >> 30) & 1 == (w / 0x4000_0000) % 2,
        (w >> 7) & 0x1f == (w / 0x80) % 0x20,
        (w >> 15) & 0x1f == (w / 0x8000) % 0x20,
        (w >> 20) & 0x1f == (w / 0x10_0000) % 0x20,
        w >> 20 == w / 0x10_0000,
        w >> 12 == w / 0x1000,
        (w >> 7) & 0x1f < 0x20,
        (w >> 15) & 0x1f < 0x20,
        (w >> 20) & 0x1f < 0x20,
        w >> 20 < 0x1000,
        w >> 12 < 0x10_0000,
{
}

proof fn lemma_s_imm_bits(w: u32)
    by (bit_vector)
    ensures
        ((w >> 25) << 5) | ((w >> 7) & 0x1f) == (w / 0x200_0000) * 0x20 + (w / 0x80) % 0x20,
        ((w >> 25) << 5) | ((w >> 7) & 0x1f) < 0x1000,
{
}

proof fn lemma_b_imm_bits(w: u32)
    by (bit_vector)
    ensures
        ((w >> 31) << 11) | (((w >> 7) & 1) << 10) | (((w >> 25) & 0x3f) << 4) | ((w >> 8) & 0xf)
            == (w / 0x8000_0000) * 0x800 + ((w / 0x80) % 2) * 0x400 + ((w / 0x200_0000) % 0x40)
            * 0x10 + (w / 0x100) % 0x10,
        ((w >> 31) << 11) | (((w >> 7) & 1) << 10) | (((w >> 25) & 0x3f) << 4) | ((w >> 8) & 0xf)
            < 0x1000,
{
}

proof fn lemma_j_imm_bits(w: u32)
    by (bit_vector)
    ensures
        ((w >> 31) << 19) | (((w >> 12) & 0xff) << 11) | (((w >> 20) & 1) << 10) | ((w >> 21)
            & 0x3ff) == (w / 0x8000_0000) * 0x8_0000 + ((w / 0x1000) % 0x100) * 0x800 + ((w
            / 0x10_0000) % 2) * 0x400 + (w / 0x20_0000) % 0x400,
        ((w >> 31) << 19) | (((w >> 12) & 0xff) << 11) | (((w >> 20) & 1) << 10) | ((w >> 21)
            & 0x3ff) < 0x10_0000,
{
}

/// Decodes a 32-bit instruction word.
pub fn interpret_bytes(bytes: u32) -> (r: Instruction)
    ensures
        r == decode(bytes),
        r.wf(),
{
    proof {
        lemma_field_bits(bytes);
        lemma_s_imm_bits(bytes);
        lemma_b_imm_bits(bytes);
        lemma_j_imm_bits(bytes);
    }
    let opcode = bytes & 0x7f;
    let func3 = (bytes >> 12) & 7;
    let bit30 = (bytes >> 30) & 1;
    let rd = ((bytes >> 7) & 0x1f) as u8;
    let rs1 = ((bytes >> 15) & 0x1f) as u8;
    let rs2 = ((bytes >> 20) & 0x1f) as u8;
    let i_imm = SmallImmediate { val: bytes >> 20 };
    let nop = Instruction::nop();
    if opcode == 0b0110011 {
        let data = R { rd, rs1, rs2 };
        if bit30 == 0 {
            match func3 {
                0 => Instruction::ADD { data },
                1 => Instruction::SLL { data },
                2 => Instruction::SLT { data },
                3 => Instruction::SLTU { data },
                4 => Instruction::XOR { data },
                5 => Instruction::SRL { data },
                6 => Instruction::OR { data },
                _ => Instruction::AND { data },
            }
        } else {
            match func3 {
                0 => Instruction::SUB { data },
                5 => Instruction::SRA { data },
                _ => nop,
            }
        }
    } else if opcode == 0b0010011 {
        let data = I { rd, rs1, imm: i_imm };
        match func3 {
            0 => Instruction::ADDI { data },
            1 => Instruction::SLLI { data },
            2 => Instruction::SLTI { data },
            3 => Instruction::SLTUI { data },
            4 => Instruction::XORI { data },
            5 => if bit30 == 0 {
                Instruction::SRLI { data }
            } else {
                Instruction::SRAI { data }
            },
            6 => Instruction::ORI { data },
            _ => Instruction::ANDI { data },
        }
    } else if opcode == 0b0000011 {
        let data = I { rd, rs1, imm: i_imm };
        match func3 {
            0 => Instruction::LB { data },
            1 => Instruction::LH { data },
            2 => Instruction::LW { data },
            4 => Instruction::LBU { data },
            5 => Instruction::LHU { data },
            _ => nop,
        }
    } else if opcode == 0b0100011 {
        let imm = ((bytes >> 25) << 5) | ((bytes >> 7) & 0x1f);
        let data = S { imm: SmallImmediate { val: imm }, rs1, rs2 };
        match func3 {
            0 => Instruction::SB { data },
            1 => Instruction::SH { data },
            2 => Instruction::SW { data },
            _ => nop,
        }
    } else if opcode == 0b1100011 {
        let imm = ((bytes >> 31) << 11) | (((bytes >> 7) & 1) << 10) | (((bytes >> 25) & 0x3f)
            << 4) | ((bytes >> 8) & 0xf);
        let data = B { imm: SmallImmediate { val: imm }, rs1, rs2 };
        match func3 {
            0 => Instruction::BEQ { data },
            1 => Instruction::BNE { data },
            4 => Instruction::BLT { data },
            5 => Instruction::BGE { data },
            6 => Instruction::BLTU { data },
            7 => Instruction::BGEU { data },
            _ => nop,
        }
    } else if opcode == 0b1101111 {
        let imm = ((bytes >> 31) << 19) | (((bytes >> 12) & 0xff) << 11) | (((bytes >> 20) & 1)
            << 10) | ((bytes >> 21) & 0x3ff);
        Instruction::JAL { data: J { rd, imm: BigImmediate { val: imm } } }
    } else if opcode == 0b1100111 {
        Instruction::JALR { data: I { rd, rs1, imm: i_imm } }
    } else if opcode == 0b0110111 {
        Instruction::LUI { data: U { rd, imm: BigImmediate { val: bytes >> 12 } } }
    } else if opcode == 0b0010111 {
        Instruction::AUIPC { data: U { rd, imm: BigImmediate { val: bytes >> 12 } } }
    } else if opcode == 0b1110011 && func3 == 0 && rd == 0 && rs1 == 0 && i_imm.val == 0 {
        Instruction::ECALL { data: I { rd, rs1, imm: i_imm } }
    } else if opcode == 0b1110011 && func3 == 0 && rd == 0 && rs1 == 0 && i_imm.val == 1 {
        Instruction::EBREAK { data: I { rd, rs1, imm: i_imm } }
    } else {
        nop
    }
}

} // verus!
