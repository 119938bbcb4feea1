use vstd::prelude::*;

use crate::instruction::{DecodeError, Instruction, InstructionView, OperandSpec};
use crate::modrm::{
    lemma_byte_fields, read_E, read_E_xmm, read_E_ymm, spec_read_E, spec_read_E_vec,
};
use crate::opcode::Opcode;
use crate::regs::{RegSpec, RegisterBank};
use crate::stream::{
    advanced, follows, lemma_advanced_trans, read_imm_unsigned, read_modrm, spec_read_num, ByteStream,
    Step,
};
use crate::prefixes::{c4_rex_bits, c5_rex_bits, PrefixRex, Prefixes};
use crate::vex_table::{lookup, vex_table, VEXOpcodeMap, VEXOpcodePrefix, VEXOperandCode};

verus! {

/// The ModRM `rrr` register of `modrm` in `bank`, extended by VEX.R.
pub open spec fn rrr_reg(iv: InstructionView, modrm: u8, bank: RegisterBank) -> RegSpec {
    RegSpec::from_parts((modrm >> 3) & 7, iv.prefixes.vex().r(), bank)
}

/// An operand form without a VEX.vvvv register met a vvvv field naming one:
/// the instruction is marked invalid and nothing is read.
pub open spec fn reject_vvvv(iv: InstructionView) -> Step<()> {
    Step { res: Err(DecodeError::InvalidOperand), instr: iv.with_opcode(Opcode::Invalid), used: 0 }
}

/// The input ended before the ModRM byte.
pub open spec fn no_modrm(iv: InstructionView) -> Step<()> {
    Step { res: Err(DecodeError::ExhaustedInput), instr: iv, used: 0 }
}

/// A step that failed inside the ModRM operand, after the ModRM byte.
pub open spec fn failed_after_modrm(e: Step<OperandSpec>) -> Step<()> {
    Step { res: Err(e.res->Err_0), instr: e.instr, used: 1 + e.used }
}

/// Two operands, `G` (the rrr register of `bank`) and `E` (a register of `bank`
/// or memory), `E` first when `e_first`; VEX.vvvv must name no register.
pub open spec fn spec_g_e(inp: Seq<u8>, iv: InstructionView, bank: RegisterBank, e_first: bool) -> Step<()> {
    if iv.vex_reg.num != 0 {
        reject_vvvv(iv)
    } else if inp.len() == 0 {
        no_modrm(iv)
    } else {
        let modrm = inp[0];
        let e = spec_read_E_vec(inp.skip(1), iv.with_rrr(rrr_reg(iv, modrm, bank)), modrm, bank);
        match e.res {
            Err(_) => failed_after_modrm(e),
            Ok(mem) => Step {
                res: Ok(()),
                instr: if e_first {
                    e.instr.with_operand(0, mem).with_operand(1, OperandSpec::RegRRR)
                } else {
                    e.instr.with_operand(0, OperandSpec::RegRRR).with_operand(1, mem)
                },
                used: 1 + e.used,
            },
        }
    }
}

/// Three operands, `G`, `V` (the VEX.vvvv register) and `E`, all of `bank`, in the
/// order `G, V, E`, or `E, V, G` when `e_first`. A 256-bit form moves the vvvv
/// register to the ymm bank before the ModRM operand is read.
pub open spec fn spec_g_v_e(inp: Seq<u8>, iv: InstructionView, bank: RegisterBank, e_first: bool) -> Step<()> {
    if inp.len() == 0 {
        no_modrm(iv)
    } else {
        let modrm = inp[0];
        let iv1 = iv.with_rrr(rrr_reg(iv, modrm, bank));
        let iv2 = if bank == RegisterBank::Y {
            iv1.with_vex_bank(RegisterBank::Y)
        } else {
            iv1
        };
        let e = spec_read_E_vec(inp.skip(1), iv2, modrm, bank);
        match e.res {
            Err(_) => failed_after_modrm(e),
            Ok(mem) => Step {
                res: Ok(()),
                instr: if e_first {
                    e.instr.with_operand(0, mem).with_operand(1, OperandSpec::RegVex).with_operand(
                        2,
                        OperandSpec::RegRRR,
                    )
                } else {
                    e.instr.with_operand(0, OperandSpec::RegRRR).with_operand(1, OperandSpec::RegVex).with_operand(
                        2,
                        mem,
                    )
                },
                used: 1 + e.used,
            },
        }
    }
}

/// A gather: `G`, then the vector-indexed memory operand `E`, then the mask in
/// VEX.vvvv, all of `bank`; the SIB index register is a vector register of `bank`.
pub open spec fn spec_gather(inp: Seq<u8>, iv: InstructionView, bank: RegisterBank) -> Step<()> {
    if inp.len() == 0 {
        no_modrm(iv)
    } else {
        let modrm = inp[0];
        let e = spec_read_E_vec(inp.skip(1), iv.with_rrr(rrr_reg(iv, modrm, bank)), modrm, bank);
        match e.res {
            Err(_) => failed_after_modrm(e),
            Ok(mem) => {
                let iv1 = if bank == RegisterBank::Y {
                    e.instr.with_vex_bank(RegisterBank::Y)
                } else {
                    e.instr
                };
                Step {
                    res: Ok(()),
                    instr: iv1.with_index_bank(bank).with_operand(0, OperandSpec::RegRRR).with_operand(1, mem).with_operand(
                        2,
                        OperandSpec::RegVex,
                    ),
                    used: 1 + e.used,
                }
            },
        }
    }
}

/// `vmovss`/`vmovsd` loads: `G` first; a register source becomes the two
/// sources `V, E` of a merge, a memory source stands alone.
pub open spec fn spec_vmov_load(inp: Seq<u8>, iv: InstructionView) -> Step<()> {
    if inp.len() == 0 {
        no_modrm(iv)
    } else {
        let modrm = inp[0];
        let e = spec_read_E_vec(
            inp.skip(1),
            iv.with_rrr(rrr_reg(iv, modrm, RegisterBank::X)),
            modrm,
            RegisterBank::X,
        );
        match e.res {
            Err(_) => failed_after_modrm(e),
            Ok(mem) => {
                let iv1 = e.instr.with_operand(0, OperandSpec::RegRRR);
                Step {
                    res: Ok(()),
                    instr: if mem == OperandSpec::RegMMM {
                        iv1.with_operand(1, OperandSpec::RegVex).with_operand(2, OperandSpec::RegMMM)
                    } else {
                        iv1.with_operand(1, mem)
                    },
                    used: 1 + e.used,
                }
            },
        }
    }
}

/// `vmovss`/`vmovsd` stores: `G` second; a register destination becomes the
/// merge `V, G, E`, a memory destination stands first.
pub open spec fn spec_vmov_store(inp: Seq<u8>, iv: InstructionView) -> Step<()> {
    if inp.len() == 0 {
        no_modrm(iv)
    } else {
        let modrm = inp[0];
        let e = spec_read_E_vec(
            inp.skip(1),
            iv.with_rrr(rrr_reg(iv, modrm, RegisterBank::X)),
            modrm,
            RegisterBank::X,
        );
        match e.res {
            Err(_) => failed_after_modrm(e),
            Ok(mem) => {
                let iv1 = e.instr.with_operand(1, OperandSpec::RegRRR);
                Step {
                    res: Ok(()),
                    instr: if mem == OperandSpec::RegMMM {
                        iv1.with_operand(0, OperandSpec::RegVex).with_operand(2, OperandSpec::RegMMM)
                    } else {
                        iv1.with_operand(0, mem)
                    },
                    used: 1 + e.used,
                }
            },
        }
    }
}

/// `Ev, G, imm8` with a 64-bit general purpose `E` and an xmm `G`; VEX.vvvv must
/// name no register. The immediate follows the ModRM operand.
pub open spec fn spec_ev_g_imm8(inp: Seq<u8>, iv: InstructionView) -> Step<()> {
    if iv.vex_reg.num != 0 {
        reject_vvvv(iv)
    } else if inp.len() == 0 {
        no_modrm(iv)
    } else {
        let modrm = inp[0];
        let e = spec_read_E(inp.skip(1), iv.with_rrr(rrr_reg(iv, modrm, RegisterBank::X)), modrm, 8);
        match e.res {
            Err(_) => failed_after_modrm(e),
            Ok(mem) => {
                let iv1 = e.instr.with_operand(0, mem).with_operand(1, OperandSpec::RegRRR).with_operand(
                    2,
                    OperandSpec::ImmU8,
                );
                let imm = spec_read_num(inp.skip(1 + e.used), 1);
                match imm.res {
                    Err(x) => Step { res: Err(x), instr: iv1, used: 1 + e.used + imm.used },
                    Ok(v) => Step { res: Ok(()), instr: iv1.with_imm(v), used: 1 + e.used + imm.used },
                }
            },
        }
    }
}

/// The mnemonic that the ModRM `rrr` field selects in the shift-by-immediate
/// groups `66 0f 71`, `72` and `73`, or `None` where it selects none.
pub open spec fn vps_opcode(code: VEXOperandCode, r: u8) -> Option<Opcode> {
    match code {
        VEXOperandCode::VPS_71 | VEXOperandCode::VPS_71_L => if r == 2 {
            Some(Opcode::VPSRLW)
        } else if r == 4 {
            Some(Opcode::VPSRAW)
        } else if r == 6 {
            Some(Opcode::VPSLLW)
        } else {
            None
        },
        VEXOperandCode::VPS_72 | VEXOperandCode::VPS_72_L => if r == 2 {
            Some(Opcode::VPSRLD)
        } else if r == 4 {
            Some(Opcode::VPSRAD)
        } else if r == 6 {
            Some(Opcode::VPSLLD)
        } else {
            None
        },
        _ => if r == 2 {
            Some(Opcode::VPSRLQ)
        } else if r == 3 {
            Some(Opcode::VPSRLDQ)
        } else if r == 6 {
            Some(Opcode::VPSLLQ)
        } else if r == 7 {
            Some(Opcode::VPSLLDQ)
        } else {
            None
        },
    }
}

/// The shift-by-immediate groups: the ModRM byte picks the mnemonic, whose
/// operands this decoder does not decode.
pub open spec fn spec_vps(inp: Seq<u8>, iv: InstructionView, code: VEXOperandCode) -> Step<()> {
    if inp.len() == 0 {
        no_modrm(iv)
    } else {
        match vps_opcode(code, (inp[0] >> 3) & 7) {
            Some(op) => Step { res: Err(DecodeError::IncompleteDecoder), instr: iv.with_opcode(op), used: 1 },
            None => Step { res: Err(DecodeError::InvalidOpcode), instr: iv, used: 1 },
        }
    }
}

/// Decoding the operands of a VEX instruction whose operand form is `code`.
#[verifier::opaque]
pub open spec fn spec_read_vex_operands(inp: Seq<u8>, iv: InstructionView, code: VEXOperandCode) -> Step<()> {
    match code {
        VEXOperandCode::VPS_71
        | VEXOperandCode::VPS_71_L
        | VEXOperandCode::VPS_72
        | VEXOperandCode::VPS_72_L
        | VEXOperandCode::VPS_73
        | VEXOperandCode::VPS_73_L => spec_vps(inp, iv, code),
        VEXOperandCode::VMOVSS_10 | VEXOperandCode::VMOVSD_10 => spec_vmov_load(inp, iv),
        VEXOperandCode::VMOVSS_11 | VEXOperandCode::VMOVSD_11 => spec_vmov_store(inp, iv),
        VEXOperandCode::Nothing => Step { res: Ok(()), instr: iv, used: 0 },
        VEXOperandCode::Ev_G_xmm_imm8 => spec_ev_g_imm8(inp, iv),
        VEXOperandCode::E_G_xmm
        | VEXOperandCode::U_G_xmm
        | VEXOperandCode::M_G_xmm
        | VEXOperandCode::E_G_xmm_imm8
        | VEXOperandCode::U_G_xmm_imm8 => spec_g_e(inp, iv, RegisterBank::X, true),
        VEXOperandCode::G_M_xmm
        | VEXOperandCode::G_U_xmm
        | VEXOperandCode::G_E_xmm
        | VEXOperandCode::G_E_xmm_imm8 => spec_g_e(inp, iv, RegisterBank::X, false),
        VEXOperandCode::E_G_ymm
        | VEXOperandCode::U_G_ymm
        | VEXOperandCode::M_G_ymm => spec_g_e(inp, iv, RegisterBank::Y, true),
        VEXOperandCode::G_M_ymm
        | VEXOperandCode::G_U_ymm
        | VEXOperandCode::G_E_ymm => spec_g_e(inp, iv, RegisterBank::Y, false),
        VEXOperandCode::G_V_E_ymm | VEXOperandCode::G_V_M_ymm => spec_g_v_e(inp, iv, RegisterBank::Y, false),
        VEXOperandCode::E_V_G_ymm | VEXOperandCode::M_V_G_ymm => spec_g_v_e(inp, iv, RegisterBank::Y, true),
        VEXOperandCode::G_V_M_xmm | VEXOperandCode::G_V_E_xmm => spec_g_v_e(inp, iv, RegisterBank::X, false),
        VEXOperandCode::E_V_G_xmm | VEXOperandCode::M_V_G_xmm => spec_g_v_e(inp, iv, RegisterBank::X, true),
        VEXOperandCode::G_Ex_V_xmm => spec_gather(inp, iv, RegisterBank::X),
        VEXOperandCode::G_Ey_V_ymm => spec_gather(inp, iv, RegisterBank::Y),
        _ => Step { res: Err(DecodeError::IncompleteDecoder), instr: iv, used: 0 },
    }
}

/// Reads the ModRM `rrr` register into the instruction, in `bank`.
fn set_rrr(instruction: &mut Instruction, modrm: u8, bank: RegisterBank)
    ensures
        final(instruction)@ == old(instruction)@.with_rrr(rrr_reg(old(instruction)@, modrm, bank)),
{
    proof {
        lemma_byte_fields(modrm);
    }
    instruction.modrm_rrr = RegSpec::from_parts((modrm >> 3) & 7, instruction.prefixes.vex().r(), bank);
}

/// Reads the ModRM operand of a vector instruction of `bank` (xmm or ymm).
#[allow(non_snake_case)]
fn read_E_vec(bytes: &mut ByteStream, instruction: &mut Instruction, modrm: u8, bank: RegisterBank, length: &mut u8) -> (r: Result<OperandSpec, DecodeError>)
    requires
        bank == RegisterBank::X || bank == RegisterBank::Y,
        *old(length) + 5 <= 255,
    ensures
        follows(spec_read_E_vec(old(bytes).remaining(), old(instruction)@, modrm, bank), r, *old(bytes), *final(bytes), *final(instruction), *old(length), *final(length)),
{
    if let RegisterBank::Y = bank {
        read_E_ymm(bytes, instruction, modrm, length)
    } else {
        read_E_xmm(bytes, instruction, modrm, length)
    }
}

/// The shift-by-immediate groups `66 0f 71`, `72`, `73`.
fn read_vps(bytes: &mut ByteStream, instruction: &mut Instruction, length: &mut u8, operand_code: VEXOperandCode) -> (r: Result<(), DecodeError>)
    requires
        *old(length) + 1 <= 255,
        operand_code == VEXOperandCode::VPS_71 || operand_code == VEXOperandCode::VPS_71_L
            || operand_code == VEXOperandCode::VPS_72 || operand_code == VEXOperandCode::VPS_72_L
            || operand_code == VEXOperandCode::VPS_73 || operand_code == VEXOperandCode::VPS_73_L,
    ensures
        follows(spec_vps(old(bytes).remaining(), old(instruction)@, operand_code), r, *old(bytes), *final(bytes), *final(instruction), *old(length), *final(length)),
{
    assert(old(bytes).remaining().skip(0) =~= old(bytes).remaining());
    let modrm = read_modrm(bytes, length)?;
    proof {
        lemma_byte_fields(modrm);
    }
    match operand_code {
        VEXOperandCode::VPS_71 | VEXOperandCode::VPS_71_L => {
            match (modrm >> 3) & 0b111 {
                0b010 => {
                    instruction.opcode = Opcode::VPSRLW;
                },
                0b100 => {
                    instruction.opcode = Opcode::VPSRAW;
                },
                0b110 => {
                    instruction.opcode = Opcode::VPSLLW;
                },
                _ => {
                    return Err(DecodeError::InvalidOpcode);
                },
            }
            Err(DecodeError::IncompleteDecoder)
        },
        VEXOperandCode::VPS_72 | VEXOperandCode::VPS_72_L => {
            match (modrm >> 3) & 0b111 {
                0b010 => {
                    instruction.opcode = Opcode::VPSRLD;
                },
                0b100 => {
                    instruction.opcode = Opcode::VPSRAD;
                },
                0b110 => {
                    instruction.opcode = Opcode::VPSLLD;
                },
                _ => {
                    return Err(DecodeError::InvalidOpcode);
                },
            }
            Err(DecodeError::IncompleteDecoder)
        },
        VEXOperandCode::VPS_73 => {
            match (modrm >> 3) & 0b111 {
                0b010 => {
                    instruction.opcode = Opcode::VPSRLQ;
                },
                0b011 => {
                    instruction.opcode = Opcode::VPSRLDQ;
                },
                0b110 => {
                    instruction.opcode = Opcode::VPSLLQ;
                },
                0b111 => {
                    instruction.opcode = Opcode::VPSLLDQ;
                },
                _ => {
                    return Err(DecodeError::InvalidOpcode);
                },
            }
            Err(DecodeError::IncompleteDecoder)
        },
        _ => {
            match (modrm >> 3) & 0b111 {
                0b000 | 0b001 | 0b100 | 0b101 => {
                    return Err(DecodeError::InvalidOpcode);
                },
                0b010 => {
                    instruction.opcode = Opcode::VPSRLQ;
                },
                0b011 => {
                    instruction.opcode = Opcode::VPSRLDQ;
                },
                0b110 => {
                    instruction.opcode = Opcode::VPSLLQ;
                },
                0b111 => {
                    instruction.opcode = Opcode::VPSLLDQ;
                },
                _ => {
                    // r is only three bits
                    vstd::pervasive::unreached()
                },
            }
            Err(DecodeError::IncompleteDecoder)
        },
    }
}

/// `vmovss`/`vmovsd` loads (`f3`/`f2 0f 10`).
fn read_vmov_load(bytes: &mut ByteStream, instruction: &mut Instruction, length: &mut u8) -> (r: Result<(), DecodeError>)
    requires
        *old(length) + 6 <= 255,
    ensures
        follows(spec_vmov_load(old(bytes).remaining(), old(instruction)@), r, *old(bytes), *final(bytes), *final(instruction), *old(length), *final(length)),
{
    broadcast use crate::stream::lemma_advanced_trans;

    assert(old(bytes).remaining().skip(0) =~= old(bytes).remaining());
    let modrm = read_modrm(bytes, length)?;
    set_rrr(instruction, modrm, RegisterBank::X);
    let mem_oper = read_E_xmm(bytes, instruction, modrm, length)?;
    instruction.operands[0] = OperandSpec::RegRRR;
    match mem_oper {
        OperandSpec::RegMMM => {
            instruction.operands[1] = OperandSpec::RegVex;
            instruction.operands[2] = OperandSpec::RegMMM;
        },
        other => {
            instruction.operands[1] = other;
        },
    }
    Ok(())
}

/// `vmovss`/`vmovsd` stores (`f3`/`f2 0f 11`).
fn read_vmov_store(bytes: &mut ByteStream, instruction: &mut Instruction, length: &mut u8) -> (r: Result<(), DecodeError>)
    requires
        *old(length) + 6 <= 255,
    ensures
        follows(spec_vmov_store(old(bytes).remaining(), old(instruction)@), r, *old(bytes), *final(bytes), *final(instruction), *old(length), *final(length)),
{
    broadcast use crate::stream::lemma_advanced_trans;

    assert(old(bytes).remaining().skip(0) =~= old(bytes).remaining());
    let modrm = read_modrm(bytes, length)?;
    set_rrr(instruction, modrm, RegisterBank::X);
    let mem_oper = read_E_xmm(bytes, instruction, modrm, length)?;
    instruction.operands[1] = OperandSpec::RegRRR;
    match mem_oper {
        OperandSpec::RegMMM => {
            instruction.operands[0] = OperandSpec::RegVex;
            instruction.operands[2] = OperandSpec::RegMMM;
        },
        other => {
            instruction.operands[0] = other;
        },
    }
    Ok(())
}

/// `Ev, G, imm8` forms (`vpextrb`, `vpextrw`, `vpextrd`).
fn read_ev_g_imm8(bytes: &mut ByteStream, instruction: &mut Instruction, length: &mut u8) -> (r: Result<(), DecodeError>)
    requires
        *old(length) + 7 <= 255,
    ensures
        follows(spec_ev_g_imm8(old(bytes).remaining(), old(instruction)@), r, *old(bytes), *final(bytes), *final(instruction), *old(length), *final(length)),
{
    broadcast use crate::stream::lemma_advanced_trans;

    assert(old(bytes).remaining().skip(0) =~= old(bytes).remaining());
    if instruction.vex_reg.num != 0 {
        instruction.opcode = Opcode::Invalid;
        return Err(DecodeError::InvalidOperand);
    }
    let modrm = read_modrm(bytes, length)?;
    set_rrr(instruction, modrm, RegisterBank::X);
    let mem_oper = read_E(bytes, instruction, modrm, 8, length)?;
    instruction.operands[0] = mem_oper;
    instruction.operands[1] = OperandSpec::RegRRR;
    instruction.operands[2] = OperandSpec::ImmU8;
    instruction.imm = read_imm_unsigned(bytes, 1, length)?;
    Ok(())
}

/// Two-operand forms `G, E` and `E, G`, xmm or ymm.
fn read_g_e(bytes: &mut ByteStream, instruction: &mut Instruction, length: &mut u8, bank: RegisterBank, e_first: bool) -> (r: Result<(), DecodeError>)
    requires
        bank == RegisterBank::X || bank == RegisterBank::Y,
        *old(length) + 6 <= 255,
    ensures
        follows(spec_g_e(old(bytes).remaining(), old(instruction)@, bank, e_first), r, *old(bytes), *final(bytes), *final(instruction), *old(length), *final(length)),
{
    broadcast use crate::stream::lemma_advanced_trans;

    assert(old(bytes).remaining().skip(0) =~= old(bytes).remaining());
    if instruction.vex_reg.num != 0 {
        instruction.opcode = Opcode::Invalid;
        return Err(DecodeError::InvalidOperand);
    }
    let modrm = read_modrm(bytes, length)?;
    set_rrr(instruction, modrm, bank);
    let mem_oper = read_E_vec(bytes, instruction, modrm, bank, length)?;
    if e_first {
        instruction.operands[0] = mem_oper;
        instruction.operands[1] = OperandSpec::RegRRR;
    } else {
        instruction.operands[0] = OperandSpec::RegRRR;
        instruction.operands[1] = mem_oper;
    }
    Ok(())
}

/// Three-operand forms `G, V, E` and `E, V, G`, xmm or ymm.
fn read_g_v_e(bytes: &mut ByteStream, instruction: &mut Instruction, length: &mut u8, bank: RegisterBank, e_first: bool) -> (r: Result<(), DecodeError>)
    requires
        bank == RegisterBank::X || bank == RegisterBank::Y,
        *old(length) + 6 <= 255,
    ensures
        follows(spec_g_v_e(old(bytes).remaining(), old(instruction)@, bank, e_first), r, *old(bytes), *final(bytes), *final(instruction), *old(length), *final(length)),
{
    broadcast use crate::stream::lemma_advanced_trans;

    assert(old(bytes).remaining().skip(0) =~= old(bytes).remaining());
    let modrm = read_modrm(bytes, length)?;
    set_rrr(instruction, modrm, bank);
    if let RegisterBank::Y = bank {
        instruction.vex_reg.bank = RegisterBank::Y;
    }
    let mem_oper = read_E_vec(bytes, instruction, modrm, bank, length)?;
    if e_first {
        instruction.operands[0] = mem_oper;
        instruction.operands[1] = OperandSpec::RegVex;
        instruction.operands[2] = OperandSpec::RegRRR;
    } else {
        instruction.operands[0] = OperandSpec::RegRRR;
        instruction.operands[1] = OperandSpec::RegVex;
        instruction.operands[2] = mem_oper;
    }
    Ok(())
}

/// Gathers `G, E, V` with a vector-indexed memory operand, xmm or ymm.
fn read_gather(bytes: &mut ByteStream, instruction: &mut Instruction, length: &mut u8, bank: RegisterBank) -> (r: Result<(), DecodeError>)
    requires
        bank == RegisterBank::X || bank == RegisterBank::Y,
        *old(length) + 6 <= 255,
    ensures
        follows(spec_gather(old(bytes).remaining(), old(instruction)@, bank), r, *old(bytes), *final(bytes), *final(instruction), *old(length), *final(length)),
{
    broadcast use crate::stream::lemma_advanced_trans;

    assert(old(bytes).remaining().skip(0) =~= old(bytes).remaining());
    let modrm = read_modrm(bytes, length)?;
    set_rrr(instruction, modrm, bank);
    let mem_oper = read_E_vec(bytes, instruction, modrm, bank, length)?;
    if let RegisterBank::Y = bank {
        instruction.vex_reg.bank = RegisterBank::Y;
    }
    instruction.sib_index.bank = bank;
    instruction.operands[0] = OperandSpec::RegRRR;
    instruction.operands[1] = mem_oper;
    instruction.operands[2] = OperandSpec::RegVex;
    Ok(())
}

/// Decodes the operands of a VEX instruction whose operand form is `operand_code`.
pub fn read_vex_operands(
    bytes: &mut ByteStream,
    instruction: &mut Instruction,
    length: &mut u8,
    operand_code: VEXOperandCode,
) -> (r: Result<(), DecodeError>)
    requires
        *old(length) + 7 <= 255,
    ensures
        follows(
            spec_read_vex_operands(old(bytes).remaining(), old(instruction)@, operand_code),
            r,
            *old(bytes),
            *final(bytes),
            *final(instruction),
            *old(length),
            *final(length),
        ),
{
    reveal(spec_read_vex_operands);
    assert(old(bytes).remaining().skip(0) =~= old(bytes).remaining());
    match operand_code {
        VEXOperandCode::VPS_71
        | VEXOperandCode::VPS_71_L
        | VEXOperandCode::VPS_72
        | VEXOperandCode::VPS_72_L
        | VEXOperandCode::VPS_73
        | VEXOperandCode::VPS_73_L => read_vps(bytes, instruction, length, operand_code),
        VEXOperandCode::VMOVSS_10 | VEXOperandCode::VMOVSD_10 => read_vmov_load(bytes, instruction, length),
        VEXOperandCode::VMOVSS_11 | VEXOperandCode::VMOVSD_11 => read_vmov_store(bytes, instruction, length),
        VEXOperandCode::Nothing => Ok(()),
        VEXOperandCode::Ev_G_xmm_imm8 => read_ev_g_imm8(bytes, instruction, length),
        VEXOperandCode::E_G_xmm
        | VEXOperandCode::U_G_xmm
        | VEXOperandCode::M_G_xmm
        | VEXOperandCode::E_G_xmm_imm8
        | VEXOperandCode::U_G_xmm_imm8 => read_g_e(bytes, instruction, length, RegisterBank::X, true),
        VEXOperandCode::G_M_xmm
        | VEXOperandCode::G_U_xmm
        | VEXOperandCode::G_E_xmm
        | VEXOperandCode::G_E_xmm_imm8 => read_g_e(bytes, instruction, length, RegisterBank::X, false),
        VEXOperandCode::E_G_ymm
        | VEXOperandCode::U_G_ymm
        | VEXOperandCode::M_G_ymm => read_g_e(bytes, instruction, length, RegisterBank::Y, true),
        VEXOperandCode::G_M_ymm
        | VEXOperandCode::G_U_ymm
        | VEXOperandCode::G_E_ymm => read_g_e(bytes, instruction, length, RegisterBank::Y, false),
        VEXOperandCode::G_V_E_ymm | VEXOperandCode::G_V_M_ymm => read_g_v_e(bytes, instruction, length, RegisterBank::Y, false),
        VEXOperandCode::E_V_G_ymm | VEXOperandCode::M_V_G_ymm => read_g_v_e(bytes, instruction, length, RegisterBank::Y, true),
        VEXOperandCode::G_V_M_xmm | VEXOperandCode::G_V_E_xmm => read_g_v_e(bytes, instruction, length, RegisterBank::X, false),
        VEXOperandCode::E_V_G_xmm | VEXOperandCode::M_V_G_xmm => read_g_v_e(bytes, instruction, length, RegisterBank::X, true),
        VEXOperandCode::G_Ex_V_xmm => read_gather(bytes, instruction, length, RegisterBank::X),
        VEXOperandCode::G_Ey_V_ymm => read_gather(bytes, instruction, length, RegisterBank::Y),
        VEXOperandCode::E_xmm_G_ymm_imm8
        | VEXOperandCode::G_E_ymm_imm8
        | VEXOperandCode::G_xmm_E_xmm
        | VEXOperandCode::G_xmm_E_ymm
        | VEXOperandCode::G_ymm_E_xmm
        | VEXOperandCode::G_ymm_E_ymm
        | VEXOperandCode::G_V_E_xmm_imm8
        | VEXOperandCode::G_V_E_xmm_xmm4
        | VEXOperandCode::G_V_E_ymm_imm8
        | VEXOperandCode::G_V_E_ymm_ymm4
        | VEXOperandCode::V_xmm_G_ymm_E_ymm_imm8
        | VEXOperandCode::V_ymm_G_ymm_E_xmm_imm8
        | VEXOperandCode::Eq_G_xmm
        | VEXOperandCode::Ed_G_xmm
        | VEXOperandCode::G_xmm_Ed
        | VEXOperandCode::G_xmm_Eq
        | VEXOperandCode::G_V_ymm_E_xmm
        | VEXOperandCode::G_V_xmm_Ew_imm8 => {
            // operand forms this decoder does not handle yet
            Err(DecodeError::IncompleteDecoder)
        },
    }
}

/// Decoding the opcode byte of a VEX instruction in `opcode_map` under implied
/// prefix `p`, then its operands. An opcode byte that the table leaves empty
/// marks the instruction invalid.
pub open spec fn spec_read_vex_instruction(
    opcode_map: VEXOpcodeMap,
    inp: Seq<u8>,
    iv: InstructionView,
    p: VEXOpcodePrefix,
) -> Step<()> {
    if inp.len() == 0 {
        Step { res: Err(DecodeError::ExhaustedInput), instr: iv, used: 0 }
    } else {
        match vex_table(opcode_map, p, inp[0], iv.prefixes.vex().l(), iv.prefixes.vex().w()) {
            None => Step { res: Err(DecodeError::InvalidOpcode), instr: iv.with_opcode(Opcode::Invalid), used: 1 },
            Some((opcode, code)) => {
                let r = spec_read_vex_operands(inp.skip(1), iv.with_opcode(opcode), code);
                Step { res: r.res, instr: r.instr, used: 1 + r.used }
            },
        }
    }
}

/// The implied legacy prefix that a VEX `pp` field (the low two bits of `b`) encodes.
pub open spec fn vex_prefix_of(b: u8) -> VEXOpcodePrefix {
    if b & 3 == 0 {
        VEXOpcodePrefix::NoPrefix
    } else if b & 3 == 1 {
        VEXOpcodePrefix::Prefix66
    } else if b & 3 == 2 {
        VEXOpcodePrefix::PrefixF3
    } else {
        VEXOpcodePrefix::PrefixF2
    }
}

/// The opcode map that a VEX `mmmmm` field (the low five bits of `b`) selects, if any.
pub open spec fn vex_map_of(b: u8) -> Option<VEXOpcodeMap> {
    if b & 0x1f == 1 {
        Some(VEXOpcodeMap::Map0F)
    } else if b & 0x1f == 2 {
        Some(VEXOpcodeMap::Map0F38)
    } else if b & 0x1f == 3 {
        Some(VEXOpcodeMap::Map0F3A)
    } else {
        None
    }
}

/// The xmm register that the inverted `vvvv` field (bits 3..6 of `b`) names.
pub open spec fn vvvv_reg(b: u8) -> RegSpec {
    RegSpec { num: ((b >> 3) & 0b1111) ^ 0b1111, bank: RegisterBank::X }
}

/// The instruction after the payload byte `b` of a two-byte VEX prefix: the
/// vvvv register and the REX-equivalent bits recorded.
pub open spec fn after_c5(iv: InstructionView, b: u8) -> InstructionView {
    iv.with_vex_reg(vvvv_reg(b)).with_prefixes(Prefixes { rex: PrefixRex { bits: c5_rex_bits(b) }, ..iv.prefixes })
}

/// The instruction after the payload bytes `b1 b2` of a three-byte VEX prefix:
/// the vvvv register and the REX-equivalent bits recorded.
pub open spec fn after_c4(iv: InstructionView, b1: u8, b2: u8) -> InstructionView {
    iv.with_vex_reg(vvvv_reg(b2)).with_prefixes(
        Prefixes { rex: PrefixRex { bits: c4_rex_bits(b1, b2) }, ..iv.prefixes },
    )
}

/// On success the instruction records its total length; on failure it is left as decoding left it.
pub open spec fn finish(r: Step<()>, length: int) -> InstructionView {
    if r.res is Ok {
        r.instr.with_length((length + r.used) as u8)
    } else {
        r.instr
    }
}

/// Decoding an instruction after its `c4` byte: the two VEX payload bytes
/// `RXBmmmmm WvvvvLpp`, then the opcode and operands. `length` counts the bytes
/// of the instruction before the payload.
pub open spec fn spec_three_byte_vex(inp: Seq<u8>, iv: InstructionView, length: u8) -> Step<()> {
    if inp.len() < 2 {
        Step { res: Err(DecodeError::ExhaustedInput), instr: iv, used: inp.len() as int }
    } else {
        let b1 = inp[0];
        let b2 = inp[1];
        match vex_map_of(b1) {
            None => Step { res: Err(DecodeError::InvalidOpcode), instr: iv.with_opcode(Opcode::Invalid), used: 2 },
            Some(opcode_map) => {
                let r = spec_read_vex_instruction(opcode_map, inp.skip(2), after_c4(iv, b1, b2), vex_prefix_of(b2));
                Step { res: r.res, instr: finish(r, length + 2), used: 2 + r.used }
            },
        }
    }
}

/// Decoding an instruction after its `c5` byte: the one VEX payload byte
/// `RvvvvLpp`, then the opcode (in map `0f`) and operands. `length` counts the
/// bytes of the instruction before the payload.
pub open spec fn spec_two_byte_vex(inp: Seq<u8>, iv: InstructionView, length: u8) -> Step<()> {
    if inp.len() < 1 {
        Step { res: Err(DecodeError::ExhaustedInput), instr: iv, used: 0 }
    } else {
        let b = inp[0];
        let r = spec_read_vex_instruction(VEXOpcodeMap::Map0F, inp.skip(1), after_c5(iv, b), vex_prefix_of(b));
        Step { res: r.res, instr: finish(r, length + 1), used: 1 + r.used }
    }
}

/// Decodes the opcode byte of a VEX instruction in `opcode_map` under implied
/// prefix `p`, then its operands.
pub fn read_vex_instruction(
    opcode_map: VEXOpcodeMap,
    bytes: &mut ByteStream,
    instruction: &mut Instruction,
    length: &mut u8,
    p: VEXOpcodePrefix,
) -> (r: Result<(), DecodeError>)
    requires
        *old(length) + 8 <= 255,
    ensures
        follows(
            spec_read_vex_instruction(opcode_map, old(bytes).remaining(), old(instruction)@, p),
            r,
            *old(bytes),
            *final(bytes),
            *final(instruction),
            *old(length),
            *final(length),
        ),
{
    broadcast use crate::stream::lemma_advanced_trans;

    assert(old(bytes).remaining().skip(0) =~= old(bytes).remaining());
    let opc = match bytes.next() {
        Some(b) => b,
        None => {
            return Err(DecodeError::ExhaustedInput);
        },
    };
    *length = *length + 1;

    // the name of this bit is `L` in the documentation, so use the same name here.
    #[allow(non_snake_case)]
    let L = instruction.prefixes.vex().l();
    let w = instruction.prefixes.vex().w();

    // several combinations simply have no instructions; the table leaves those empty.
    let (opcode, operand_code) = match lookup(opcode_map, p, opc, L, w) {
        Some(entry) => entry,
        None => {
            instruction.opcode = Opcode::Invalid;
            return Err(DecodeError::InvalidOpcode);
        },
    };
    instruction.opcode = opcode;
    read_vex_operands(bytes, instruction, length, operand_code)
}

/// Decodes the rest of an instruction that starts with the three-byte VEX
/// prefix `c4`, reading from the first payload byte; `length` counts the bytes
/// of the instruction already read.
pub fn three_byte_vex(bytes: &mut ByteStream, instruction: &mut Instruction, length: u8) -> (r: Result<(), DecodeError>)
    requires
        length <= 245,
    ensures
        r == spec_three_byte_vex(old(bytes).remaining(), old(instruction)@, length).res,
        final(instruction)@ == spec_three_byte_vex(old(bytes).remaining(), old(instruction)@, length).instr,
        advanced(*old(bytes), *final(bytes), spec_three_byte_vex(old(bytes).remaining(), old(instruction)@, length).used),
{
    broadcast use crate::stream::lemma_advanced_trans;

    let mut length = length;
    let vex_byte_one = match bytes.next() {
        Some(b) => b,
        None => {
            return Err(DecodeError::ExhaustedInput);
        },
    };
    let vex_byte_two = match bytes.next() {
        Some(b) => b,
        None => {
            return Err(DecodeError::ExhaustedInput);
        },
    };
    length += 2;
    proof {
        lemma_byte_fields(vex_byte_one);
        lemma_byte_fields(vex_byte_two);
    }
    let p = vex_byte_two & 0x03;
    let p = match p {
        0x00 => VEXOpcodePrefix::NoPrefix,
        0x01 => VEXOpcodePrefix::Prefix66,
        0x02 => VEXOpcodePrefix::PrefixF3,
        0x03 => VEXOpcodePrefix::PrefixF2,
        _ => {
            // p is two bits
            vstd::pervasive::unreached()
        },
    };
    let m = vex_byte_one & 0b11111;
    let m = match m {
        0b00001 => VEXOpcodeMap::Map0F,
        0b00010 => VEXOpcodeMap::Map0F38,
        0b00011 => VEXOpcodeMap::Map0F3A,
        _ => {
            instruction.opcode = Opcode::Invalid;
            return Err(DecodeError::InvalidOpcode);
        },
    };
    instruction.vex_reg = RegSpec { bank: RegisterBank::X, num: ((vex_byte_two >> 3) & 0b1111) ^ 0b1111 };
    instruction.prefixes.vex_from_c4(vex_byte_one, vex_byte_two);

    read_vex_instruction(m, bytes, instruction, &mut length, p)?;
    instruction.length = length;
    Ok(())
}

/// Decodes the rest of an instruction that starts with the two-byte VEX prefix
/// `c5`, reading from the payload byte; `length` counts the bytes of the
/// instruction already read.
pub fn two_byte_vex(bytes: &mut ByteStream, instruction: &mut Instruction, length: u8) -> (r: Result<(), DecodeError>)
    requires
        length <= 246,
    ensures
        r == spec_two_byte_vex(old(bytes).remaining(), old(instruction)@, length).res,
        final(instruction)@ == spec_two_byte_vex(old(bytes).remaining(), old(instruction)@, length).instr,
        advanced(*old(bytes), *final(bytes), spec_two_byte_vex(old(bytes).remaining(), old(instruction)@, length).used),
{
    broadcast use crate::stream::lemma_advanced_trans;

    let mut length = length;
    let vex_byte = match bytes.next() {
        Some(b) => b,
        None => {
            return Err(DecodeError::ExhaustedInput);
        },
    };
    length += 1;
    proof {
        lemma_byte_fields(vex_byte);
    }
    let p = vex_byte & 0x03;
    let p = match p {
        0x00 => VEXOpcodePrefix::NoPrefix,
        0x01 => VEXOpcodePrefix::Prefix66,
        0x02 => VEXOpcodePrefix::PrefixF3,
        0x03 => VEXOpcodePrefix::PrefixF2,
        _ => {
            // p is two bits
            vstd::pervasive::unreached()
        },
    };
    instruction.vex_reg = RegSpec { bank: RegisterBank::X, num: ((vex_byte >> 3) & 0b1111) ^ 0b1111 };
    instruction.prefixes.vex_from_c5(vex_byte);

    read_vex_instruction(VEXOpcodeMap::Map0F, bytes, instruction, &mut length, p)?;
    instruction.length = length;
    Ok(())
}

} // verus!
