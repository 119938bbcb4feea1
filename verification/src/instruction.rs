use vstd::prelude::*;

use crate::opcode::Opcode;
use crate::prefixes::{PrefixRex, Prefixes};
use crate::regs::{RegSpec, RegisterBank};

verus! {

/// Where the value of an operand comes from.
#[derive(Clone, Copy, Debug, PartialEq, Eq, Structural)]
pub enum OperandSpec {
    /// No operand in this slot.
    Nothing,
    /// The register named by the ModRM `rrr` field (`Instruction::modrm_rrr`).
    RegRRR,
    /// The register named by the ModRM `mmm` field (`Instruction::modrm_mmm`).
    RegMMM,
    /// The register named by the VEX `vvvv` field (`Instruction::vex_reg`).
    RegVex,
    /// An unsigned 8-bit immediate (`Instruction::imm`).
    ImmU8,
    /// Memory at the address in `modrm_mmm`.
    Deref,
    /// Memory at `modrm_mmm` plus `disp`.
    RegDisp,
    /// Memory at the absolute address `disp`.
    DispU32,
    /// Memory at `sib_index * scale`.
    RegScale,
    /// Memory at `sib_index * scale + disp`.
    RegScaleDisp,
    /// Memory at `modrm_mmm + sib_index * scale`.
    RegIndexBaseScale,
    /// Memory at `modrm_mmm + sib_index * scale + disp`.
    RegIndexBaseScaleDisp,
}

/// Why decoding stopped.
#[derive(Clone, Copy, Debug, PartialEq, Eq, Structural)]
pub enum DecodeError {
    /// The input ended in the middle of an instruction.
    ExhaustedInput,
    /// The bytes do not encode an instruction.
    InvalidOpcode,
    /// The instruction exists, but an operand field holds a value it forbids.
    InvalidOperand,
    /// The instruction exists, but this decoder does not decode its operands.
    IncompleteDecoder,
}

/// A decoded (or partially decoded) instruction.
#[derive(Clone, Copy, Debug)]
pub struct Instruction {
    pub prefixes: Prefixes,
    pub modrm_rrr: RegSpec,
    /// The ModRM `mmm` register, or the base register of a memory operand.
    pub modrm_mmm: RegSpec,
    pub sib_index: RegSpec,
    pub vex_reg: RegSpec,
    pub scale: u8,
    pub length: u8,
    pub operands: [OperandSpec; 4],
    pub imm: u64,
    pub disp: u64,
    pub opcode: Opcode,
}

/// The mathematical value of an `Instruction`: its fields, with the operand
/// slots as a sequence.
#[verifier::ext_equal]
pub struct InstructionView {
    pub prefixes: Prefixes,
    pub modrm_rrr: RegSpec,
    pub modrm_mmm: RegSpec,
    pub sib_index: RegSpec,
    pub vex_reg: RegSpec,
    pub scale: u8,
    pub length: u8,
    pub operands: Seq<OperandSpec>,
    pub imm: u64,
    pub disp: u64,
    pub opcode: Opcode,
}

impl View for Instruction {
    type V = InstructionView;

    open spec fn view(&self) -> InstructionView {
        InstructionView {
            prefixes: self.prefixes,
            modrm_rrr: self.modrm_rrr,
            modrm_mmm: self.modrm_mmm,
            sib_index: self.sib_index,
            vex_reg: self.vex_reg,
            scale: self.scale,
            length: self.length,
            operands: self.operands@,
            imm: self.imm,
            disp: self.disp,
            opcode: self.opcode,
        }
    }
}

impl InstructionView {
    pub open spec fn with_prefixes(self, p: Prefixes) -> InstructionView {
        InstructionView { prefixes: p, ..self }
    }

    pub open spec fn with_rrr(self, r: RegSpec) -> InstructionView {
        InstructionView { modrm_rrr: r, ..self }
    }

    pub open spec fn with_mmm(self, r: RegSpec) -> InstructionView {
        InstructionView { modrm_mmm: r, ..self }
    }

    pub open spec fn with_index(self, r: RegSpec) -> InstructionView {
        InstructionView { sib_index: r, ..self }
    }

    pub open spec fn with_index_bank(self, b: RegisterBank) -> InstructionView {
        InstructionView { sib_index: RegSpec { bank: b, ..self.sib_index }, ..self }
    }

    pub open spec fn with_vex_reg(self, r: RegSpec) -> InstructionView {
        InstructionView { vex_reg: r, ..self }
    }

    pub open spec fn with_vex_bank(self, b: RegisterBank) -> InstructionView {
        InstructionView { vex_reg: RegSpec { bank: b, ..self.vex_reg }, ..self }
    }

    pub open spec fn with_scale(self, s: u8) -> InstructionView {
        InstructionView { scale: s, ..self }
    }

    pub open spec fn with_length(self, l: u8) -> InstructionView {
        InstructionView { length: l, ..self }
    }

    pub open spec fn with_operand(self, i: int, op: OperandSpec) -> InstructionView {
        InstructionView { operands: self.operands.update(i, op), ..self }
    }

    pub open spec fn with_imm(self, v: u64) -> InstructionView {
        InstructionView { imm: v, ..self }
    }

    pub open spec fn with_disp(self, v: u64) -> InstructionView {
        InstructionView { disp: v, ..self }
    }

    pub open spec fn with_opcode(self, op: Opcode) -> InstructionView {
        InstructionView { opcode: op, ..self }
    }
}

/// The register that a fresh instruction holds in every register field.
pub open spec fn zero_reg() -> RegSpec {
    RegSpec { num: 0, bank: RegisterBank::Q }
}

impl Instruction {
    /// An instruction with no prefixes, no operands and the `Invalid` opcode: the
    /// state a decoder starts from.
    pub fn invalid() -> (r: Instruction)
        ensures
            r@.prefixes == (Prefixes { address_size: false, rex: PrefixRex { bits: 0 } }),
            r@.modrm_rrr == zero_reg(),
            r@.modrm_mmm == zero_reg(),
            r@.sib_index == zero_reg(),
            r@.vex_reg == zero_reg(),
            r@.scale == 0,
            r@.length == 0,
            r@.operands == seq![OperandSpec::Nothing, OperandSpec::Nothing, OperandSpec::Nothing, OperandSpec::Nothing],
            r@.imm == 0,
            r@.disp == 0,
            r@.opcode == Opcode::Invalid,
    {
        let r = Instruction {
            prefixes: Prefixes { address_size: false, rex: PrefixRex { bits: 0 } },
            modrm_rrr: RegSpec { num: 0, bank: RegisterBank::Q },
            modrm_mmm: RegSpec { num: 0, bank: RegisterBank::Q },
            sib_index: RegSpec { num: 0, bank: RegisterBank::Q },
            vex_reg: RegSpec { num: 0, bank: RegisterBank::Q },
            scale: 0,
            length: 0,
            operands: [OperandSpec::Nothing, OperandSpec::Nothing, OperandSpec::Nothing, OperandSpec::Nothing],
            imm: 0,
            disp: 0,
            opcode: Opcode::Invalid,
        };
        assert(r@.operands =~= seq![OperandSpec::Nothing, OperandSpec::Nothing, OperandSpec::Nothing, OperandSpec::Nothing]);
        r
    }
}

} // verus!
