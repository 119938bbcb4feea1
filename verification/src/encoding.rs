use vstd::prelude::*;

use crate::instruction::{DecodeError, InstructionView, OperandSpec};
use crate::modrm::{lemma_byte_fields, spec_read_E, spec_read_E_vec, spec_read_M, spec_read_sib};
use crate::regs::{RegSpec, RegisterBank};
use crate::laws::rrr_bank;
use crate::stream::{le_value, pow256, Step};
use crate::vex::{
    rrr_reg, spec_ev_g_imm8, spec_g_e, spec_g_v_e, spec_gather, spec_read_vex_operands, spec_vmov_load, spec_vmov_store,
};
use crate::vex_table::VEXOperandCode;

verus! {

// The encoding rules below are stated from the x86-64 ModRM/SIB encoding
// itself, without the decoder's own width and base helpers.

/// The operand forms that name memory.
pub open spec fn is_memory(op: OperandSpec) -> bool {
    op == OperandSpec::Deref || op == OperandSpec::RegDisp || op == OperandSpec::DispU32
        || op == OperandSpec::RegScale || op == OperandSpec::RegScaleDisp || op
        == OperandSpec::RegIndexBaseScale || op == OperandSpec::RegIndexBaseScaleDisp
}

/// What the ModRM r/m field of `modrm` decodes to: the `mmm` register when
/// `mod == 11`, memory otherwise.
pub open spec fn rm_operand_ok(modrm: u8, op: OperandSpec) -> bool {
    if modrm >= 0xc0 {
        op == OperandSpec::RegMMM
    } else {
        is_memory(op)
    }
}

/// The first four bytes of `b` read as a little-endian number.
pub open spec fn le32(b: Seq<u8>) -> int {
    b[0] + 256 * b[1] + 65536 * b[2] + 16777216 * b[3]
}

/// A four-byte displacement as an instruction records it: sign-extended to 64 bits.
pub open spec fn disp32_of(v: int) -> u64 {
    (v as u32 as i32) as i64 as u64
}

/// A one-byte displacement as an instruction records it: sign-extended to 64 bits.
pub open spec fn disp8_of(b: u8) -> u64 {
    (b as i8) as i64 as u64
}

/// The register a three-bit field names, extended to the upper eight when `ext` is set.
pub open spec fn field_reg(field: u8, ext: bool, bank: RegisterBank) -> RegSpec {
    RegSpec { num: (field + if ext { 8int } else { 0int }) as u8, bank: bank }
}

/// The bank of address registers: 32-bit under an address-size override, 64-bit otherwise.
pub open spec fn address_bank(iv: InstructionView) -> RegisterBank {
    if iv.prefixes.address_size {
        RegisterBank::D
    } else {
        RegisterBank::Q
    }
}

/// The scale factor a SIB `ss` field encodes: 1, 2, 4 or 8.
pub open spec fn scale_of(ss: u8) -> u8 {
    if ss == 0 {
        1
    } else if ss == 1 {
        2
    } else if ss == 2 {
        4
    } else {
        8
    }
}

proof fn lemma_le_step(b: Seq<u8>, k: int)
    requires
        0 < k <= b.len(),
    ensures
        le_value(b.take(k)) == le_value(b.take(k - 1)) + b[k - 1] * pow256((k - 1) as nat),
{
    assert(b.take(k).drop_last() =~= b.take(k - 1));
}

proof fn lemma_le8(b: Seq<u8>)
    requires
        b.len() >= 1,
    ensures
        le_value(b.take(1)) == b[0],
{
    lemma_le_step(b, 1);
    assert(le_value(b.take(0)) == 0);
    assert(pow256(0) == 1);
}

proof fn lemma_le32(b: Seq<u8>)
    requires
        b.len() >= 4,
    ensures
        le_value(b.take(4)) == le32(b),
        0 <= le32(b) < 0x1_0000_0000,
{
    reveal_with_fuel(pow256, 4);
    assert(pow256(1) == 256);
    assert(pow256(2) == 65536);
    assert(pow256(3) == 16777216);
    lemma_le8(b);
    lemma_le_step(b, 2);
    lemma_le_step(b, 3);
    lemma_le_step(b, 4);
}

/// A nonzero four-byte value stays nonzero as a signed displacement.
proof fn lemma_disp32_nonzero(v: int)
    requires
        0 <= v < 0x1_0000_0000,
    ensures
        v != 0 ==> (v as u64) as u32 as i32 != 0,
        (v as u64) as u32 == v as u32,
{
    let x = v as u32;
    assert(x != 0 ==> x as i32 != 0) by (bit_vector);
}

/// A nonzero byte stays nonzero as a signed displacement.
proof fn lemma_disp8_nonzero(b: u8)
    ensures
        b != 0 ==> ((b as u64) as u8 as i8) as i32 != 0,
        (b as u64) as u8 == b,
{
    assert(b != 0 ==> (b as i8) as i32 != 0) by (bit_vector);
}

/// A ModRM memory operand without SIB (`mod != 11`, r/m other than `100`):
/// `mod == 00` reads nothing and names the r/m register (REX/VEX.B extending
/// it), except r/m `101`, which reads a four-byte displacement from the
/// instruction pointer; `mod == 01` reads one byte of displacement and
/// `mod == 10` four, both added to the r/m register. A zero displacement is a
/// plain dereference; a nonzero one is recorded sign-extended. Too few bytes
/// end in `ExhaustedInput` after reading them all.
pub proof fn modrm_memory_without_sib(inp: Seq<u8>, iv: InstructionView, modrm: u8)
    requires
        modrm < 0xc0,
        (modrm & 7) != 4,
    ensures
        ({
            let s = spec_read_M(inp, iv, modrm);
            let md = modrm >> 6;
            let rm = modrm & 7;
            let base = field_reg(rm, iv.prefixes.rex().b(), address_bank(iv));
            let ip = if iv.prefixes.address_size { RegSpec::eip() } else { RegSpec::rip() };
            &&& (md == 0 && rm != 5) ==> (s.res == Ok::<OperandSpec, DecodeError>(OperandSpec::Deref) && s.used == 0
                && s.instr == iv.with_mmm(base))
            &&& (md == 0 && rm == 5 && inp.len() >= 4) ==> (s.used == 4 && s.instr.modrm_mmm == ip && if le32(inp) == 0 {
                s.res == Ok::<OperandSpec, DecodeError>(OperandSpec::Deref) && s.instr == iv.with_mmm(ip)
            } else {
                s.res == Ok::<OperandSpec, DecodeError>(OperandSpec::RegDisp) && s.instr == iv.with_mmm(ip).with_disp(
                    disp32_of(le32(inp)),
                )
            })
            &&& (md == 1 && inp.len() >= 1) ==> (s.used == 1 && if inp[0] == 0 {
                s.res == Ok::<OperandSpec, DecodeError>(OperandSpec::Deref) && s.instr == iv.with_mmm(base)
            } else {
                s.res == Ok::<OperandSpec, DecodeError>(OperandSpec::RegDisp) && s.instr == iv.with_mmm(base).with_disp(
                    disp8_of(inp[0]),
                )
            })
            &&& (md == 2 && inp.len() >= 4) ==> (s.used == 4 && if le32(inp) == 0 {
                s.res == Ok::<OperandSpec, DecodeError>(OperandSpec::Deref) && s.instr == iv.with_mmm(base)
            } else {
                s.res == Ok::<OperandSpec, DecodeError>(OperandSpec::RegDisp) && s.instr == iv.with_mmm(base).with_disp(
                    disp32_of(le32(inp)),
                )
            })
            &&& ((md == 1 && inp.len() < 1) || ((md == 2 || (md == 0 && rm == 5)) && inp.len() < 4)) ==> (s.res
                == Err::<OperandSpec, DecodeError>(DecodeError::ExhaustedInput) && s.used == inp.len() && s.instr == iv)
        }),
{
    lemma_byte_fields(modrm);
    if inp.len() >= 4 {
        lemma_le32(inp);
        lemma_disp32_nonzero(le32(inp));
    }
    if inp.len() >= 1 {
        lemma_le8(inp);
        lemma_disp8_nonzero(inp[0]);
    }
}

/// A ModRM memory operand with SIB (`mod != 11`, r/m `100`): after the SIB
/// byte come one byte of displacement for `mod == 01`, four for `mod == 10`,
/// four for `mod == 00` with SIB base `101` (no base register), none
/// otherwise. The base is the SIB base field extended by REX/VEX.B, unless it
/// is absent; the index is the SIB index field extended by REX/VEX.X, unless
/// it is `100` without X, and scales by `1 << ss`; a nonzero displacement is
/// recorded sign-extended. Too few bytes end in `ExhaustedInput` after reading
/// them all.
pub proof fn modrm_memory_with_sib(inp: Seq<u8>, iv: InstructionView, modrm: u8)
    requires
        modrm < 0xc0,
        (modrm & 7) == 4,
    ensures
        ({
            let s = spec_read_M(inp, iv, modrm);
            let md = modrm >> 6;
            &&& inp.len() == 0 ==> (s.res == Err::<OperandSpec, DecodeError>(DecodeError::ExhaustedInput) && s.used
                == 0)
            &&& inp.len() > 0 ==> {
                let sib = inp[0];
                let no_base = md == 0 && (sib & 7) == 5;
                let has_index = ((sib >> 3) & 7) != 4 || iv.prefixes.rex().x();
                let n: int = if md == 1 {
                    1
                } else if md == 2 || no_base {
                    4
                } else {
                    0
                };
                let disp: int = if n == 0 {
                    0
                } else if n == 1 {
                    inp[1] as i8 as int
                } else {
                    le32(inp.skip(1)) as u32 as i32 as int
                };
                &&& inp.len() < 1 + n ==> (s.res == Err::<OperandSpec, DecodeError>(DecodeError::ExhaustedInput)
                    && s.used == inp.len() && s.instr == iv)
                &&& inp.len() >= 1 + n ==> {
                    &&& s.res is Ok
                    &&& is_memory(s.res->Ok_0)
                    &&& s.used == 1 + n
                    &&& !no_base ==> s.instr.modrm_mmm == field_reg(sib & 7, iv.prefixes.rex().b(), address_bank(iv))
                    &&& has_index ==> (s.instr.sib_index == field_reg(
                        (sib >> 3) & 7,
                        iv.prefixes.rex().x(),
                        address_bank(iv),
                    ) && s.instr.scale == scale_of(sib >> 6))
                    &&& disp != 0 ==> s.instr.disp == disp as i64 as u64
                }
            }
        }),
{
    lemma_byte_fields(modrm);
    if inp.len() > 0 {
        lemma_byte_fields(inp[0]);
        let sib = inp[0];
        assert(((sib >> 6) == 0 ==> (1u8 << (sib >> 6)) == 1) && ((sib >> 6) == 1 ==> (1u8 << (sib >> 6)) == 2)
            && ((sib >> 6) == 2 ==> (1u8 << (sib >> 6)) == 4) && ((sib >> 6) == 3 ==> (1u8 << (sib >> 6)) == 8))
            by (bit_vector);
        if inp.len() >= 5 {
            lemma_le32(inp.skip(1));
        }
        if inp.len() >= 2 {
            lemma_le8(inp.skip(1));
        }
    }
}

/// The ModRM operand of a vector form is the `mmm` register (extended by
/// REX/VEX.B, in the form's bank) when `mod == 11`, reading nothing, and a
/// memory operand otherwise.
proof fn lemma_E_vec_kind(inp: Seq<u8>, iv: InstructionView, m: u8, bank: RegisterBank)
    ensures
        spec_read_E_vec(inp, iv, m, bank).res is Ok ==> rm_operand_ok(m, spec_read_E_vec(inp, iv, m, bank).res->Ok_0),
        m >= 0xc0 ==> spec_read_E_vec(inp, iv, m, bank).instr == iv.with_mmm(field_reg(m & 7, iv.prefixes.rex().b(), bank)),
{
    lemma_byte_fields(m);
}

/// The same for a general purpose form: its register is a 64-bit one for an
/// eight-byte operand.
proof fn lemma_E_gp_kind(inp: Seq<u8>, iv: InstructionView, m: u8)
    ensures
        spec_read_E(inp, iv, m, 8).res is Ok ==> rm_operand_ok(m, spec_read_E(inp, iv, m, 8).res->Ok_0),
        m >= 0xc0 ==> spec_read_E(inp, iv, m, 8).instr == iv.with_mmm(field_reg(m & 7, iv.prefixes.rex().b(), RegisterBank::Q)),
{
    lemma_byte_fields(m);
}

/// The bank of the ModRM r/m register of an operand form: a 64-bit general
/// purpose register for `Ev_G_xmm_imm8`, otherwise the vector bank of the form.
pub open spec fn rm_bank(code: VEXOperandCode) -> RegisterBank {
    if code == VEXOperandCode::Ev_G_xmm_imm8 {
        RegisterBank::Q
    } else {
        rrr_bank(code)
    }
}

/// The operand slots an operand form fills, with ModRM byte `m`, from slots
/// `before` to `after`: `G` (`RegRRR`) and `V` (`RegVex`) where the form's name
/// puts them, `E`/`U`/`M` (the r/m operand) likewise, an immediate last for
/// `Ev_G_xmm_imm8`, and the slots a form does not use left as they were.
pub open spec fn layout_ok(code: VEXOperandCode, m: u8, before: Seq<OperandSpec>, after: Seq<OperandSpec>) -> bool {
    match code {
        VEXOperandCode::E_G_xmm
        | VEXOperandCode::U_G_xmm
        | VEXOperandCode::M_G_xmm
        | VEXOperandCode::E_G_xmm_imm8
        | VEXOperandCode::U_G_xmm_imm8
        | VEXOperandCode::E_G_ymm
        | VEXOperandCode::U_G_ymm
        | VEXOperandCode::M_G_ymm => rm_operand_ok(m, after[0]) && after[1] == OperandSpec::RegRRR && after[2]
            == before[2] && after[3] == before[3],
        VEXOperandCode::G_M_xmm
        | VEXOperandCode::G_U_xmm
        | VEXOperandCode::G_E_xmm
        | VEXOperandCode::G_E_xmm_imm8
        | VEXOperandCode::G_M_ymm
        | VEXOperandCode::G_U_ymm
        | VEXOperandCode::G_E_ymm => after[0] == OperandSpec::RegRRR && rm_operand_ok(m, after[1]) && after[2]
            == before[2] && after[3] == before[3],
        VEXOperandCode::G_V_E_xmm
        | VEXOperandCode::G_V_M_xmm
        | VEXOperandCode::G_V_E_ymm
        | VEXOperandCode::G_V_M_ymm => after[0] == OperandSpec::RegRRR && after[1] == OperandSpec::RegVex
            && rm_operand_ok(m, after[2]) && after[3] == before[3],
        VEXOperandCode::E_V_G_xmm
        | VEXOperandCode::M_V_G_xmm
        | VEXOperandCode::E_V_G_ymm
        | VEXOperandCode::M_V_G_ymm => rm_operand_ok(m, after[0]) && after[1] == OperandSpec::RegVex && after[2]
            == OperandSpec::RegRRR && after[3] == before[3],
        VEXOperandCode::G_Ex_V_xmm | VEXOperandCode::G_Ey_V_ymm => after[0] == OperandSpec::RegRRR
            && rm_operand_ok(m, after[1]) && after[2] == OperandSpec::RegVex && after[3] == before[3],
        VEXOperandCode::Ev_G_xmm_imm8 => rm_operand_ok(m, after[0]) && after[1] == OperandSpec::RegRRR && after[2]
            == OperandSpec::ImmU8 && after[3] == before[3],
        VEXOperandCode::VMOVSS_10 | VEXOperandCode::VMOVSD_10 => after[0] == OperandSpec::RegRRR && after[3]
            == before[3] && if m >= 0xc0 {
            after[1] == OperandSpec::RegVex && after[2] == OperandSpec::RegMMM
        } else {
            is_memory(after[1]) && after[2] == before[2]
        },
        VEXOperandCode::VMOVSS_11 | VEXOperandCode::VMOVSD_11 => after[1] == OperandSpec::RegRRR && after[3]
            == before[3] && if m >= 0xc0 {
            after[0] == OperandSpec::RegVex && after[2] == OperandSpec::RegMMM
        } else {
            is_memory(after[0]) && after[2] == before[2]
        },
        _ => after == before,
    }
}

/// What a successful operand step of a form with a ModRM byte owes: the slots
/// of `layout_ok`, and with `mod == 11` the r/m register `mmm` extended by
/// VEX.B in `rbank`.
pub open spec fn form_result_ok(
    inp: Seq<u8>,
    iv: InstructionView,
    s: Step<()>,
    code: VEXOperandCode,
    rbank: RegisterBank,
) -> bool {
    s.res is Ok ==> {
        &&& inp.len() > 0
        &&& layout_ok(code, inp[0], iv.operands, s.instr.operands)
        &&& inp[0] >= 0xc0 ==> s.instr.modrm_mmm == field_reg(inp[0] & 7, iv.prefixes.vex().b(), rbank)
    }
}

proof fn lemma_form_g_e(inp: Seq<u8>, iv: InstructionView, code: VEXOperandCode, bank: RegisterBank, e_first: bool)
    requires
        iv.operands.len() == 4,
        e_first ==> (code == VEXOperandCode::E_G_xmm || code == VEXOperandCode::U_G_xmm || code == VEXOperandCode::M_G_xmm
            || code == VEXOperandCode::E_G_xmm_imm8 || code == VEXOperandCode::U_G_xmm_imm8 || code
            == VEXOperandCode::E_G_ymm || code == VEXOperandCode::U_G_ymm || code == VEXOperandCode::M_G_ymm),
        !e_first ==> (code == VEXOperandCode::G_M_xmm || code == VEXOperandCode::G_U_xmm || code
            == VEXOperandCode::G_E_xmm || code == VEXOperandCode::G_E_xmm_imm8 || code == VEXOperandCode::G_M_ymm
            || code == VEXOperandCode::G_U_ymm || code == VEXOperandCode::G_E_ymm),
    ensures
        form_result_ok(inp, iv, spec_g_e(inp, iv, bank, e_first), code, bank),
{
    if iv.vex_reg.num == 0 && inp.len() > 0 {
        let m = inp[0];
        let iv1 = iv.with_rrr(rrr_reg(iv, m, bank));
        lemma_E_vec_kind(inp.skip(1), iv1, m, bank);
        crate::laws::lemma_E_vec(inp.skip(1), Seq::empty(), iv1, m, bank);
    }
}

proof fn lemma_form_g_v_e(inp: Seq<u8>, iv: InstructionView, code: VEXOperandCode, bank: RegisterBank, e_first: bool)
    requires
        iv.operands.len() == 4,
        e_first ==> (code == VEXOperandCode::E_V_G_xmm || code == VEXOperandCode::M_V_G_xmm || code
            == VEXOperandCode::E_V_G_ymm || code == VEXOperandCode::M_V_G_ymm),
        !e_first ==> (code == VEXOperandCode::G_V_E_xmm || code == VEXOperandCode::G_V_M_xmm || code
            == VEXOperandCode::G_V_E_ymm || code == VEXOperandCode::G_V_M_ymm),
    ensures
        form_result_ok(inp, iv, spec_g_v_e(inp, iv, bank, e_first), code, bank),
{
    if inp.len() > 0 {
        let m = inp[0];
        let iv1 = iv.with_rrr(rrr_reg(iv, m, bank));
        let iv2 = if bank == RegisterBank::Y {
            iv1.with_vex_bank(RegisterBank::Y)
        } else {
            iv1
        };
        lemma_E_vec_kind(inp.skip(1), iv2, m, bank);
        crate::laws::lemma_E_vec(inp.skip(1), Seq::empty(), iv2, m, bank);
    }
}

proof fn lemma_form_gather(inp: Seq<u8>, iv: InstructionView, code: VEXOperandCode, bank: RegisterBank)
    requires
        iv.operands.len() == 4,
        code == VEXOperandCode::G_Ex_V_xmm || code == VEXOperandCode::G_Ey_V_ymm,
    ensures
        form_result_ok(inp, iv, spec_gather(inp, iv, bank), code, bank),
        spec_gather(inp, iv, bank).res is Ok ==> spec_gather(inp, iv, bank).instr.sib_index.bank == bank,
{
    if inp.len() > 0 {
        let m = inp[0];
        let iv1 = iv.with_rrr(rrr_reg(iv, m, bank));
        lemma_E_vec_kind(inp.skip(1), iv1, m, bank);
        crate::laws::lemma_E_vec(inp.skip(1), Seq::empty(), iv1, m, bank);
    }
}

proof fn lemma_form_vmov(inp: Seq<u8>, iv: InstructionView, load: VEXOperandCode, store: VEXOperandCode)
    requires
        iv.operands.len() == 4,
        load == VEXOperandCode::VMOVSS_10 || load == VEXOperandCode::VMOVSD_10,
        store == VEXOperandCode::VMOVSS_11 || store == VEXOperandCode::VMOVSD_11,
    ensures
        form_result_ok(inp, iv, spec_vmov_load(inp, iv), load, RegisterBank::X),
        form_result_ok(inp, iv, spec_vmov_store(inp, iv), store, RegisterBank::X),
{
    if inp.len() > 0 {
        let m = inp[0];
        let iv1 = iv.with_rrr(rrr_reg(iv, m, RegisterBank::X));
        lemma_E_vec_kind(inp.skip(1), iv1, m, RegisterBank::X);
        crate::laws::lemma_E_vec(inp.skip(1), Seq::empty(), iv1, m, RegisterBank::X);
    }
}

proof fn lemma_form_ev_g(inp: Seq<u8>, iv: InstructionView)
    requires
        iv.operands.len() == 4,
    ensures
        form_result_ok(inp, iv, spec_ev_g_imm8(inp, iv), VEXOperandCode::Ev_G_xmm_imm8, RegisterBank::Q),
{
    if iv.vex_reg.num == 0 && inp.len() > 0 {
        let m = inp[0];
        let iv1 = iv.with_rrr(rrr_reg(iv, m, RegisterBank::X));
        lemma_E_gp_kind(inp.skip(1), iv1, m);
        crate::laws::lemma_E(inp.skip(1), Seq::empty(), iv1, m, 8);
    }
}

/// Where operand decoding succeeds on a form with a ModRM byte `m`, each operand
/// slot holds what the form's name says: `G` the `rrr` register, `V` the VEX
/// register, `E`/`U`/`M` the r/m operand (the `mmm` register when `mod == 11`,
/// memory otherwise), in the order of the name, an immediate last for
/// `Ev_G_xmm_imm8`, and the `vmovss`/`vmovsd` register forms as three-operand
/// merges; unused slots keep what they held. With `mod == 11` the r/m register
/// is `m & 7`, plus eight when VEX.B is set, in the bank of the form. The
/// gathers index memory by an xmm register (`G_Ex_V_xmm`) or a ymm register
/// (`G_Ey_V_ymm`).
pub proof fn operand_forms(inp: Seq<u8>, iv: InstructionView, code: VEXOperandCode)
    requires
        iv.operands.len() == 4,
    ensures
        code != VEXOperandCode::Nothing ==> form_result_ok(
            inp,
            iv,
            spec_read_vex_operands(inp, iv, code),
            code,
            rm_bank(code),
        ),
        code == VEXOperandCode::Nothing ==> spec_read_vex_operands(inp, iv, code).instr == iv,
        spec_read_vex_operands(inp, iv, code).res is Ok && code == VEXOperandCode::G_Ex_V_xmm
            ==> spec_read_vex_operands(inp, iv, code).instr.sib_index.bank == RegisterBank::X,
        spec_read_vex_operands(inp, iv, code).res is Ok && code == VEXOperandCode::G_Ey_V_ymm
            ==> spec_read_vex_operands(inp, iv, code).instr.sib_index.bank == RegisterBank::Y,
{
    reveal(spec_read_vex_operands);
    match code {
        VEXOperandCode::VMOVSS_10 => lemma_form_vmov(inp, iv, code, VEXOperandCode::VMOVSS_11),
        VEXOperandCode::VMOVSD_10 => lemma_form_vmov(inp, iv, code, VEXOperandCode::VMOVSS_11),
        VEXOperandCode::VMOVSS_11 => lemma_form_vmov(inp, iv, VEXOperandCode::VMOVSS_10, code),
        VEXOperandCode::VMOVSD_11 => lemma_form_vmov(inp, iv, VEXOperandCode::VMOVSS_10, code),
        VEXOperandCode::Ev_G_xmm_imm8 => lemma_form_ev_g(inp, iv),
        VEXOperandCode::E_G_xmm
        | VEXOperandCode::U_G_xmm
        | VEXOperandCode::M_G_xmm
        | VEXOperandCode::E_G_xmm_imm8
        | VEXOperandCode::U_G_xmm_imm8 => lemma_form_g_e(inp, iv, code, RegisterBank::X, true),
        VEXOperandCode::G_M_xmm
        | VEXOperandCode::G_U_xmm
        | VEXOperandCode::G_E_xmm
        | VEXOperandCode::G_E_xmm_imm8 => lemma_form_g_e(inp, iv, code, RegisterBank::X, false),
        VEXOperandCode::E_G_ymm
        | VEXOperandCode::U_G_ymm
        | VEXOperandCode::M_G_ymm => lemma_form_g_e(inp, iv, code, RegisterBank::Y, true),
        VEXOperandCode::G_M_ymm
        | VEXOperandCode::G_U_ymm
        | VEXOperandCode::G_E_ymm => lemma_form_g_e(inp, iv, code, RegisterBank::Y, false),
        VEXOperandCode::G_V_E_ymm | VEXOperandCode::G_V_M_ymm => lemma_form_g_v_e(inp, iv, code, RegisterBank::Y, false),
        VEXOperandCode::E_V_G_ymm | VEXOperandCode::M_V_G_ymm => lemma_form_g_v_e(inp, iv, code, RegisterBank::Y, true),
        VEXOperandCode::G_V_M_xmm | VEXOperandCode::G_V_E_xmm => lemma_form_g_v_e(inp, iv, code, RegisterBank::X, false),
        VEXOperandCode::E_V_G_xmm | VEXOperandCode::M_V_G_xmm => lemma_form_g_v_e(inp, iv, code, RegisterBank::X, true),
        VEXOperandCode::G_Ex_V_xmm => lemma_form_gather(inp, iv, code, RegisterBank::X),
        VEXOperandCode::G_Ey_V_ymm => lemma_form_gather(inp, iv, code, RegisterBank::Y),
        _ => {},
    }
}

} // verus!
