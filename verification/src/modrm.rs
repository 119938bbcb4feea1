use vstd::prelude::*;

use crate::instruction::{DecodeError, Instruction, InstructionView, OperandSpec};
use crate::regs::{RegSpec, RegisterBank};
use crate::stream::{follows, lemma_advanced_trans, read_disp, spec_read_disp, ByteStream, Read, Step};

verus! {

/// Facts about the bit fields of a byte that the decoder takes apart.
pub proof fn lemma_byte_fields(b: u8)
    ensures
        b & 7 < 8,
        (b >> 3) & 7 < 8,
        (b >> 3) & 15 < 16,
        b >> 6 < 4,
        b & 3 < 4,
        b & 0x1f < 32,
        (b >> 6) == 0 || (b >> 6) == 1 || (b >> 6) == 2 || (b >> 6) == 3,
        b >= 0xc0 <==> (b >> 6) == 3,
{
    assert(b & 7 < 8 && (b >> 3) & 7 < 8 && (b >> 3) & 15 < 16 && b >> 6 < 4 && b & 3 < 4
        && b & 0x1f < 32 && (b >= 0xc0 <==> (b >> 6) == 3)) by (bit_vector);
}

/// The general purpose register bank for an operand of `width` bytes.
pub open spec fn gp_bank(width: u8, rex: bool) -> RegisterBank {
    if width == 1 {
        if rex {
            RegisterBank::rB
        } else {
            RegisterBank::B
        }
    } else if width == 2 {
        RegisterBank::W
    } else if width == 4 {
        RegisterBank::D
    } else {
        RegisterBank::Q
    }
}

/// Picks the general purpose register bank for an operand of `width` bytes; with
/// a REX prefix, byte registers are the uniform `rB` set.
pub fn width_to_gp_reg_bank(width: u8, rex: bool) -> (r: RegisterBank)
    requires
        width == 1 || width == 2 || width == 4 || width == 8,
    ensures
        r == gp_bank(width, rex),
{
    match width {
        1 => if rex {
            RegisterBank::rB
        } else {
            RegisterBank::B
        },
        2 => RegisterBank::W,
        4 => RegisterBank::D,
        _ => RegisterBank::Q,
    }
}

/// The register bank of base and index registers in memory operands.
pub open spec fn addr_bank(iv: InstructionView) -> RegisterBank {
    if iv.prefixes.address_size {
        RegisterBank::D
    } else {
        RegisterBank::Q
    }
}

/// A ModRM byte with `mod == 11` names a register; the `mmm` field, extended by
/// REX.B, picks it from `bank`.
pub open spec fn spec_read_modrm_reg(iv: InstructionView, modrm: u8, bank: RegisterBank) -> Step<OperandSpec> {
    Step {
        res: Ok(OperandSpec::RegMMM),
        instr: iv.with_mmm(RegSpec::from_parts(modrm & 7, iv.prefixes.rex().b(), bank)),
        used: 0,
    }
}

/// The SIB byte names no base register: base field `101` with `mod == 00`.
pub open spec fn sib_no_base(sib: u8, modrm: u8) -> bool {
    (sib & 7) == 5 && (modrm >> 6) == 0
}

/// The SIB byte names an index register: index field other than `100`, or REX.X set (r12).
pub open spec fn sib_has_index(sib: u8, iv: InstructionView) -> bool {
    ((sib >> 3) & 7) != 4 || iv.prefixes.rex().x()
}

/// Bytes of displacement that follow a SIB byte.
pub open spec fn sib_disp_width(sib: u8, modrm: u8) -> int {
    if (modrm >> 6) == 1 {
        1
    } else if (modrm >> 6) == 2 || sib_no_base(sib, modrm) {
        4
    } else {
        0
    }
}

/// The instruction after recording a SIB memory operand with displacement `disp`.
pub open spec fn sib_instr(iv: InstructionView, sib: u8, modrm: u8, disp: i32) -> InstructionView {
    let bank = addr_bank(iv);
    let no_base = sib_no_base(sib, modrm);
    let has_index = sib_has_index(sib, iv);
    let iv1 = if has_index {
        iv.with_index(RegSpec::from_parts((sib >> 3) & 7, iv.prefixes.rex().x(), bank)).with_scale(
            1u8 << (sib >> 6),
        )
    } else {
        iv
    };
    let iv2 = if !no_base {
        iv1.with_mmm(RegSpec::from_parts(sib & 7, iv.prefixes.rex().b(), bank))
    } else {
        iv1
    };
    if disp != 0 || (no_base && !has_index) {
        iv2.with_disp(disp as i64 as u64)
    } else {
        iv2
    }
}

/// The form of a SIB memory operand with displacement `disp`.
pub open spec fn sib_operand(iv: InstructionView, sib: u8, modrm: u8, disp: i32) -> OperandSpec {
    if sib_no_base(sib, modrm) {
        if sib_has_index(sib, iv) {
            if disp == 0 {
                OperandSpec::RegScale
            } else {
                OperandSpec::RegScaleDisp
            }
        } else {
            OperandSpec::DispU32
        }
    } else {
        if sib_has_index(sib, iv) {
            if disp == 0 {
                OperandSpec::RegIndexBaseScale
            } else {
                OperandSpec::RegIndexBaseScaleDisp
            }
        } else {
            if disp == 0 {
                OperandSpec::Deref
            } else {
                OperandSpec::RegDisp
            }
        }
    }
}

/// Decoding a memory operand described by a SIB byte (and its displacement) after `modrm`.
pub open spec fn spec_read_sib(inp: Seq<u8>, iv: InstructionView, modrm: u8) -> Step<OperandSpec> {
    if inp.len() == 0 {
        Step { res: Err(DecodeError::ExhaustedInput), instr: iv, used: 0 }
    } else {
        let sib = inp[0];
        let w = sib_disp_width(sib, modrm);
        let d = if w == 0 {
            Read { res: Ok(0i32), used: 0 }
        } else {
            spec_read_disp(inp.skip(1), w)
        };
        match d.res {
            Err(e) => Step { res: Err(e), instr: iv, used: 1 + d.used },
            Ok(disp) => Step {
                res: Ok(sib_operand(iv, sib, modrm, disp)),
                instr: sib_instr(iv, sib, modrm, disp),
                used: 1 + d.used,
            },
        }
    }
}

/// Bytes of displacement that follow a ModRM byte without SIB: none for `mod == 00`
/// (except RIP-relative, four), one for `mod == 01`, four for `mod == 10`.
pub open spec fn modrm_disp_width(modrm: u8) -> int {
    if (modrm >> 6) == 1 {
        1
    } else if (modrm >> 6) == 2 || ((modrm & 7) == 5 && (modrm >> 6) == 0) {
        4
    } else {
        0
    }
}

/// The base register of a memory operand without SIB.
pub open spec fn modrm_base(iv: InstructionView, modrm: u8) -> RegSpec {
    if (modrm & 7) == 5 && (modrm >> 6) == 0 {
        if iv.prefixes.address_size {
            RegSpec::eip()
        } else {
            RegSpec::rip()
        }
    } else {
        RegSpec::from_parts(modrm & 7, iv.prefixes.rex().b(), addr_bank(iv))
    }
}

/// Decoding the memory operand of a ModRM byte with `mod != 11`.
pub open spec fn spec_read_M(inp: Seq<u8>, iv: InstructionView, modrm: u8) -> Step<OperandSpec> {
    if (modrm & 7) == 4 {
        spec_read_sib(inp, iv, modrm)
    } else {
        let w = modrm_disp_width(modrm);
        let d = if w == 0 {
            Read { res: Ok(0i32), used: 0 }
        } else {
            spec_read_disp(inp, w)
        };
        match d.res {
            Err(e) => Step { res: Err(e), instr: iv, used: d.used },
            Ok(disp) => {
                let iv1 = iv.with_mmm(modrm_base(iv, modrm));
                if disp == 0 {
                    Step { res: Ok(OperandSpec::Deref), instr: iv1, used: d.used }
                } else {
                    Step { res: Ok(OperandSpec::RegDisp), instr: iv1.with_disp(disp as i64 as u64), used: d.used }
                }
            },
        }
    }
}

/// Decoding the ModRM operand of a vector instruction: a register of `bank`, or memory.
pub open spec fn spec_read_E_vec(inp: Seq<u8>, iv: InstructionView, modrm: u8, bank: RegisterBank) -> Step<OperandSpec> {
    if modrm >= 0xc0 {
        spec_read_modrm_reg(iv, modrm, bank)
    } else {
        spec_read_M(inp, iv, modrm)
    }
}

/// Decoding the ModRM operand of a `width`-byte general purpose operand: a register, or memory.
pub open spec fn spec_read_E(inp: Seq<u8>, iv: InstructionView, modrm: u8, width: u8) -> Step<OperandSpec> {
    if modrm >= 0xc0 {
        spec_read_modrm_reg(iv, modrm, gp_bank(width, iv.prefixes.rex().present()))
    } else {
        spec_read_M(inp, iv, modrm)
    }
}

/// Records the register operand of a ModRM byte with `mod == 11`.
pub fn read_modrm_reg(instr: &mut Instruction, modrm: u8, reg_bank: RegisterBank) -> (r: Result<OperandSpec, DecodeError>)
    ensures
        r == spec_read_modrm_reg(old(instr)@, modrm, reg_bank).res,
        final(instr)@ == spec_read_modrm_reg(old(instr)@, modrm, reg_bank).instr,
{
    proof {
        lemma_byte_fields(modrm);
    }
    instr.modrm_mmm = RegSpec::from_parts(modrm & 7, instr.prefixes.rex().b(), reg_bank);
    Ok(OperandSpec::RegMMM)
}

/// Decodes a SIB byte and its displacement into a memory operand.
pub fn read_sib(bytes: &mut ByteStream, instr: &mut Instruction, modrm: u8, length: &mut u8) -> (r: Result<OperandSpec, DecodeError>)
    requires
        *old(length) + 5 <= 255,
    ensures
        follows(spec_read_sib(old(bytes).remaining(), old(instr)@, modrm), r, *old(bytes), *final(bytes), *final(instr), *old(length), *final(length)),
{
    let ghost b0 = *old(bytes);
    let ghost iv = old(instr)@;
    let modbits = modrm >> 6;
    let sibbyte = match bytes.next() {
        Some(b) => b,
        None => {
            return Err(DecodeError::ExhaustedInput);
        },
    };
    *length = *length + 1;
    let ghost b1 = *bytes;
    proof {
        lemma_byte_fields(modrm);
        lemma_byte_fields(sibbyte);
    }
    let addr_width = if instr.prefixes.address_size() {
        RegisterBank::D
    } else {
        RegisterBank::Q
    };
    let no_base = (sibbyte & 7) == 5 && modbits == 0;
    let w: u8 = if modbits == 1 {
        1
    } else if modbits == 2 || no_base {
        4
    } else {
        0
    };
    assert(w == sib_disp_width(sibbyte, modrm));
    let disp: i32 = if w == 0 {
        assert(b1.remaining().skip(0) =~= b1.remaining());
        0
    } else {
        match read_disp(bytes, w, length) {
            Ok(d) => d,
            Err(e) => {
                proof {
                    lemma_advanced_trans(b0, b1, *bytes, 1, spec_read_disp(b1.remaining(), w as int).used);
                }
                return Err(e);
            },
        }
    };
    proof {
        let d = if w == 0 {
            Read { res: Ok(0i32), used: 0 }
        } else {
            spec_read_disp(b0.remaining().skip(1), w as int)
        };
        assert(d.res == Ok::<i32, DecodeError>(disp));
        lemma_advanced_trans(b0, b1, *bytes, 1, d.used);
    }
    let has_index = ((sibbyte >> 3) & 7) != 4 || instr.prefixes.rex().x();
    if has_index {
        instr.sib_index = RegSpec::from_parts((sibbyte >> 3) & 7, instr.prefixes.rex().x(), addr_width);
        instr.scale = 1u8 << (sibbyte >> 6);
    }
    if !no_base {
        instr.modrm_mmm = RegSpec::from_parts(sibbyte & 7, instr.prefixes.rex().b(), addr_width);
    }
    let op = if no_base {
        if has_index {
            if disp == 0 {
                OperandSpec::RegScale
            } else {
                instr.disp = disp as i64 as u64;
                OperandSpec::RegScaleDisp
            }
        } else {
            instr.disp = disp as i64 as u64;
            OperandSpec::DispU32
        }
    } else {
        if has_index {
            if disp == 0 {
                OperandSpec::RegIndexBaseScale
            } else {
                instr.disp = disp as i64 as u64;
                OperandSpec::RegIndexBaseScaleDisp
            }
        } else {
            if disp == 0 {
                OperandSpec::Deref
            } else {
                instr.disp = disp as i64 as u64;
                OperandSpec::RegDisp
            }
        }
    };
    assert(instr@ =~= sib_instr(iv, sibbyte, modrm, disp));
    Ok(op)
}

/// Decodes the memory operand of a ModRM byte with `mod != 11`, reading a SIB
/// byte and a displacement where the byte calls for them.
#[allow(non_snake_case)]
pub fn read_M(bytes: &mut ByteStream, instr: &mut Instruction, modrm: u8, length: &mut u8) -> (r: Result<OperandSpec, DecodeError>)
    requires
        *old(length) + 5 <= 255,
    ensures
        follows(spec_read_M(old(bytes).remaining(), old(instr)@, modrm), r, *old(bytes), *final(bytes), *final(instr), *old(length), *final(length)),
{
    proof {
        lemma_byte_fields(modrm);
    }
    let modbits = modrm >> 6;
    let mmm = modrm & 7;
    if mmm == 4 {
        return read_sib(bytes, instr, modrm, length);
    }
    let w: u8 = if modbits == 1 {
        1
    } else if modbits == 2 || (mmm == 5 && modbits == 0) {
        4
    } else {
        0
    };
    assert(w == modrm_disp_width(modrm));
    let disp: i32 = if w == 0 {
        assert(old(bytes).remaining().skip(0) =~= old(bytes).remaining());
        0
    } else {
        match read_disp(bytes, w, length) {
            Ok(d) => d,
            Err(e) => {
                return Err(e);
            },
        }
    };
    instr.modrm_mmm = if mmm == 5 && modbits == 0 {
        if instr.prefixes.address_size() {
            RegSpec::eip()
        } else {
            RegSpec::rip()
        }
    } else {
        let bank = if instr.prefixes.address_size() {
            RegisterBank::D
        } else {
            RegisterBank::Q
        };
        RegSpec::from_parts(mmm, instr.prefixes.rex().b(), bank)
    };
    if disp == 0 {
        Ok(OperandSpec::Deref)
    } else {
        instr.disp = disp as i64 as u64;
        Ok(OperandSpec::RegDisp)
    }
}

/// Decodes the ModRM operand of a `width`-byte general purpose operand.
#[allow(non_snake_case)]
pub fn read_E(bytes: &mut ByteStream, instr: &mut Instruction, modrm: u8, width: u8, length: &mut u8) -> (r: Result<OperandSpec, DecodeError>)
    requires
        width == 1 || width == 2 || width == 4 || width == 8,
        *old(length) + 5 <= 255,
    ensures
        follows(spec_read_E(old(bytes).remaining(), old(instr)@, modrm, width), r, *old(bytes), *final(bytes), *final(instr), *old(length), *final(length)),
{
    let bank = width_to_gp_reg_bank(width, instr.prefixes.rex().present());
    if modrm >= 0b11000000 {
        assert(old(bytes).remaining().skip(0) =~= old(bytes).remaining());
        read_modrm_reg(instr, modrm, bank)
    } else {
        read_M(bytes, instr, modrm, length)
    }
}

/// Decodes the ModRM operand of an xmm instruction: an xmm register, or memory.
#[allow(non_snake_case)]
pub fn read_E_xmm(bytes: &mut ByteStream, instr: &mut Instruction, modrm: u8, length: &mut u8) -> (r: Result<OperandSpec, DecodeError>)
    requires
        *old(length) + 5 <= 255,
    ensures
        follows(spec_read_E_vec(old(bytes).remaining(), old(instr)@, modrm, RegisterBank::X), r, *old(bytes), *final(bytes), *final(instr), *old(length), *final(length)),
{
    if modrm >= 0b11000000 {
        assert(old(bytes).remaining().skip(0) =~= old(bytes).remaining());
        read_modrm_reg(instr, modrm, RegisterBank::X)
    } else {
        read_M(bytes, instr, modrm, length)
    }
}

/// Decodes the ModRM operand of a ymm instruction: a ymm register, or memory.
#[allow(non_snake_case)]
pub fn read_E_ymm(bytes: &mut ByteStream, instr: &mut Instruction, modrm: u8, length: &mut u8) -> (r: Result<OperandSpec, DecodeError>)
    requires
        *old(length) + 5 <= 255,
    ensures
        follows(spec_read_E_vec(old(bytes).remaining(), old(instr)@, modrm, RegisterBank::Y), r, *old(bytes), *final(bytes), *final(instr), *old(length), *final(length)),
{
    if modrm >= 0b11000000 {
        assert(old(bytes).remaining().skip(0) =~= old(bytes).remaining());
        read_modrm_reg(instr, modrm, RegisterBank::Y)
    } else {
        read_M(bytes, instr, modrm, length)
    }
}

} // verus!
