use vstd::prelude::*;

use crate::instruction::{DecodeError, InstructionView, OperandSpec};
use crate::modrm::{
    lemma_byte_fields, modrm_disp_width, sib_disp_width, spec_read_E, spec_read_E_vec, spec_read_M, spec_read_sib,
};
use crate::opcode::Opcode;
use crate::prefixes::{c4_rex_bits, c5_rex_bits, lemma_c4_fields, lemma_c5_fields};
use crate::regs::RegisterBank;
use crate::stream::{spec_read_disp, spec_read_num, Read, Step};
use crate::vex::{
    after_c4, after_c5, rrr_reg, spec_ev_g_imm8, spec_g_e, spec_g_v_e, spec_gather, spec_read_vex_instruction,
    spec_read_vex_operands, spec_three_byte_vex, spec_two_byte_vex, spec_vmov_load, spec_vmov_store, spec_vps,
    vex_map_of, vex_prefix_of, vvvv_reg,
};
use crate::vex_table::{
    map_0f, map_0f38_66, map_0f3a_66, map_0f_66, map_0f_f2, map_0f_f3, vex_table, VEXOpcodeMap, VEXOpcodePrefix,
    VEXOperandCode,
};

verus! {

/// A step that did not run out of input.
pub open spec fn settled<T>(s: Step<T>) -> bool {
    s.res != Err::<T, DecodeError>(DecodeError::ExhaustedInput)
}

/// A read that did not run out of input.
pub open spec fn read_settled<T>(r: Read<T>) -> bool {
    r.res != Err::<T, DecodeError>(DecodeError::ExhaustedInput)
}

proof fn lemma_skip_add(inp: Seq<u8>, t: Seq<u8>, k: int)
    requires
        0 <= k <= inp.len(),
    ensures
        (inp + t).skip(k) == inp.skip(k) + t,
{
    assert((inp + t).skip(k) =~= inp.skip(k) + t);
}

proof fn lemma_num(inp: Seq<u8>, t: Seq<u8>, w: int)
    requires
        0 <= w,
    ensures
        0 <= spec_read_num(inp, w).used <= inp.len(),
        spec_read_num(inp, w).used <= w,
        read_settled(spec_read_num(inp, w)) ==> spec_read_num(inp + t, w) == spec_read_num(inp, w),
{
    if w <= inp.len() {
        assert((inp + t).take(w) =~= inp.take(w));
    }
}

proof fn lemma_disp(inp: Seq<u8>, t: Seq<u8>, w: int)
    requires
        0 <= w,
    ensures
        0 <= spec_read_disp(inp, w).used <= inp.len(),
        spec_read_disp(inp, w).used <= w,
        read_settled(spec_read_disp(inp, w)) ==> spec_read_disp(inp + t, w) == spec_read_disp(inp, w),
{
    lemma_num(inp, t, w);
}

/// The memory-operand steps read at most five bytes (SIB byte and a four-byte
/// displacement), leave the VEX register, the opcode, the operand slots, the
/// prefixes, the length and the `rrr` register alone, and do not look past the
/// bytes they read.
proof fn lemma_sib(inp: Seq<u8>, t: Seq<u8>, iv: InstructionView, modrm: u8)
    ensures
        0 <= spec_read_sib(inp, iv, modrm).used <= inp.len(),
        spec_read_sib(inp, iv, modrm).used <= 5,
        spec_read_sib(inp, iv, modrm).instr.vex_reg == iv.vex_reg,
        spec_read_sib(inp, iv, modrm).instr.opcode == iv.opcode,
        spec_read_sib(inp, iv, modrm).instr.operands == iv.operands,
        spec_read_sib(inp, iv, modrm).instr.prefixes == iv.prefixes,
        spec_read_sib(inp, iv, modrm).instr.length == iv.length,
        spec_read_sib(inp, iv, modrm).instr.modrm_rrr == iv.modrm_rrr,
        settled(spec_read_sib(inp, iv, modrm)) ==> spec_read_sib(inp + t, iv, modrm) == spec_read_sib(inp, iv, modrm),
{
    if inp.len() > 0 {
        let sib = inp[0];
        let w = sib_disp_width(sib, modrm);
        lemma_skip_add(inp, t, 1);
        if w != 0 {
            lemma_disp(inp.skip(1), t, w);
        }
    }
}

proof fn lemma_M(inp: Seq<u8>, t: Seq<u8>, iv: InstructionView, modrm: u8)
    ensures
        0 <= spec_read_M(inp, iv, modrm).used <= inp.len(),
        spec_read_M(inp, iv, modrm).used <= 5,
        spec_read_M(inp, iv, modrm).instr.vex_reg == iv.vex_reg,
        spec_read_M(inp, iv, modrm).instr.opcode == iv.opcode,
        spec_read_M(inp, iv, modrm).instr.operands == iv.operands,
        spec_read_M(inp, iv, modrm).instr.prefixes == iv.prefixes,
        spec_read_M(inp, iv, modrm).instr.length == iv.length,
        spec_read_M(inp, iv, modrm).instr.modrm_rrr == iv.modrm_rrr,
        settled(spec_read_M(inp, iv, modrm)) ==> spec_read_M(inp + t, iv, modrm) == spec_read_M(inp, iv, modrm),
{
    if (modrm & 7) == 4 {
        lemma_sib(inp, t, iv, modrm);
    } else {
        let w = modrm_disp_width(modrm);
        if w != 0 {
            lemma_disp(inp, t, w);
        }
    }
}

pub proof fn lemma_E_vec(inp: Seq<u8>, t: Seq<u8>, iv: InstructionView, modrm: u8, bank: RegisterBank)
    ensures
        0 <= spec_read_E_vec(inp, iv, modrm, bank).used <= inp.len(),
        spec_read_E_vec(inp, iv, modrm, bank).used <= 5,
        spec_read_E_vec(inp, iv, modrm, bank).instr.vex_reg == iv.vex_reg,
        spec_read_E_vec(inp, iv, modrm, bank).instr.opcode == iv.opcode,
        spec_read_E_vec(inp, iv, modrm, bank).instr.operands == iv.operands,
        spec_read_E_vec(inp, iv, modrm, bank).instr.prefixes == iv.prefixes,
        spec_read_E_vec(inp, iv, modrm, bank).instr.length == iv.length,
        spec_read_E_vec(inp, iv, modrm, bank).instr.modrm_rrr == iv.modrm_rrr,
        settled(spec_read_E_vec(inp, iv, modrm, bank)) ==> spec_read_E_vec(inp + t, iv, modrm, bank) == spec_read_E_vec(inp, iv, modrm, bank),
{
    lemma_M(inp, t, iv, modrm);
}

pub proof fn lemma_E(inp: Seq<u8>, t: Seq<u8>, iv: InstructionView, modrm: u8, width: u8)
    ensures
        0 <= spec_read_E(inp, iv, modrm, width).used <= inp.len(),
        spec_read_E(inp, iv, modrm, width).used <= 5,
        spec_read_E(inp, iv, modrm, width).instr.vex_reg == iv.vex_reg,
        spec_read_E(inp, iv, modrm, width).instr.opcode == iv.opcode,
        spec_read_E(inp, iv, modrm, width).instr.operands == iv.operands,
        spec_read_E(inp, iv, modrm, width).instr.prefixes == iv.prefixes,
        spec_read_E(inp, iv, modrm, width).instr.length == iv.length,
        spec_read_E(inp, iv, modrm, width).instr.modrm_rrr == iv.modrm_rrr,
        settled(spec_read_E(inp, iv, modrm, width)) ==> spec_read_E(inp + t, iv, modrm, width) == spec_read_E(inp, iv, modrm, width),
{
    lemma_M(inp, t, iv, modrm);
}

/// The operand forms of the shift-by-immediate groups, where the ModRM byte picks the mnemonic.
pub open spec fn is_vps(code: VEXOperandCode) -> bool {
    code == VEXOperandCode::VPS_71 || code == VEXOperandCode::VPS_71_L || code == VEXOperandCode::VPS_72
        || code == VEXOperandCode::VPS_72_L || code == VEXOperandCode::VPS_73 || code == VEXOperandCode::VPS_73_L
}

/// What operand decoding promises about any step: it reads at most seven bytes
/// and no more than the input holds, keeps the VEX register number, the
/// prefixes and the length, changes the opcode only to reject, and does not
/// look past the bytes it read.
pub open spec fn operand_step_ok(inp: Seq<u8>, t: Seq<u8>, iv: InstructionView, s: Step<()>, s2: Step<()>) -> bool {
    &&& 0 <= s.used <= inp.len()
    &&& s.used <= 7
    &&& s.instr.vex_reg.num == iv.vex_reg.num
    &&& s.instr.prefixes == iv.prefixes
    &&& s.instr.length == iv.length
    &&& (s.res is Ok ==> s.instr.opcode == iv.opcode)
    &&& (s.res == Err::<(), DecodeError>(DecodeError::InvalidOperand) ==> s.instr.opcode == Opcode::Invalid)
    &&& (settled(s) ==> s2 == s)
}

/// A successful operand step of a form with a ModRM byte put the `rrr` register
/// in `rbank` and left the VEX register in `vbank`.
pub open spec fn form_ok(inp: Seq<u8>, iv: InstructionView, s: Step<()>, rbank: RegisterBank, vbank: RegisterBank) -> bool {
    s.res is Ok ==> {
        &&& inp.len() > 0
        &&& s.instr.modrm_rrr == rrr_reg(iv, inp[0], rbank)
        &&& s.instr.vex_reg.bank == vbank
    }
}

/// The bank of the `rrr` register that an operand form names: ymm for the
/// 256-bit forms, xmm for all others.
pub open spec fn rrr_bank(code: VEXOperandCode) -> RegisterBank {
    match code {
        VEXOperandCode::E_G_ymm
        | VEXOperandCode::U_G_ymm
        | VEXOperandCode::M_G_ymm
        | VEXOperandCode::G_M_ymm
        | VEXOperandCode::G_U_ymm
        | VEXOperandCode::G_E_ymm
        | VEXOperandCode::G_V_E_ymm
        | VEXOperandCode::G_V_M_ymm
        | VEXOperandCode::E_V_G_ymm
        | VEXOperandCode::M_V_G_ymm
        | VEXOperandCode::G_Ey_V_ymm => RegisterBank::Y,
        _ => RegisterBank::X,
    }
}

/// The bank of the VEX register after an operand form succeeds: the 256-bit
/// forms with a vvvv operand move it to ymm; every other form keeps `bank`.
pub open spec fn vex_bank_after(code: VEXOperandCode, bank: RegisterBank) -> RegisterBank {
    match code {
        VEXOperandCode::G_V_E_ymm
        | VEXOperandCode::G_V_M_ymm
        | VEXOperandCode::E_V_G_ymm
        | VEXOperandCode::M_V_G_ymm
        | VEXOperandCode::G_Ey_V_ymm => RegisterBank::Y,
        _ => bank,
    }
}

proof fn lemma_g_e(inp: Seq<u8>, t: Seq<u8>, iv: InstructionView, bank: RegisterBank, e_first: bool)
    ensures
        operand_step_ok(inp, t, iv, spec_g_e(inp, iv, bank, e_first), spec_g_e(inp + t, iv, bank, e_first)),
        form_ok(inp, iv, spec_g_e(inp, iv, bank, e_first), bank, iv.vex_reg.bank),
        spec_g_e(inp, iv, bank, e_first).res != Err::<(), DecodeError>(DecodeError::InvalidOpcode),
{
    if iv.vex_reg.num == 0 && inp.len() > 0 {
        let modrm = inp[0];
        lemma_skip_add(inp, t, 1);
        lemma_E_vec(inp.skip(1), t, iv.with_rrr(rrr_reg(iv, modrm, bank)), modrm, bank);
    }
}

proof fn lemma_g_v_e(inp: Seq<u8>, t: Seq<u8>, iv: InstructionView, bank: RegisterBank, e_first: bool)
    ensures
        operand_step_ok(inp, t, iv, spec_g_v_e(inp, iv, bank, e_first), spec_g_v_e(inp + t, iv, bank, e_first)),
        form_ok(inp, iv, spec_g_v_e(inp, iv, bank, e_first), bank, if bank == RegisterBank::Y { RegisterBank::Y } else { iv.vex_reg.bank }),
        spec_g_v_e(inp, iv, bank, e_first).res != Err::<(), DecodeError>(DecodeError::InvalidOpcode),
        spec_g_v_e(inp, iv, bank, e_first).res != Err::<(), DecodeError>(DecodeError::InvalidOperand),
{
    if inp.len() > 0 {
        let modrm = inp[0];
        let iv1 = iv.with_rrr(rrr_reg(iv, modrm, bank));
        let iv2 = if bank == RegisterBank::Y {
            iv1.with_vex_bank(RegisterBank::Y)
        } else {
            iv1
        };
        lemma_skip_add(inp, t, 1);
        lemma_E_vec(inp.skip(1), t, iv2, modrm, bank);
    }
}

proof fn lemma_gather(inp: Seq<u8>, t: Seq<u8>, iv: InstructionView, bank: RegisterBank)
    ensures
        operand_step_ok(inp, t, iv, spec_gather(inp, iv, bank), spec_gather(inp + t, iv, bank)),
        form_ok(inp, iv, spec_gather(inp, iv, bank), bank, if bank == RegisterBank::Y { RegisterBank::Y } else { iv.vex_reg.bank }),
        spec_gather(inp, iv, bank).res != Err::<(), DecodeError>(DecodeError::InvalidOpcode),
        spec_gather(inp, iv, bank).res != Err::<(), DecodeError>(DecodeError::InvalidOperand),
{
    if inp.len() > 0 {
        let modrm = inp[0];
        lemma_skip_add(inp, t, 1);
        lemma_E_vec(inp.skip(1), t, iv.with_rrr(rrr_reg(iv, modrm, bank)), modrm, bank);
    }
}

proof fn lemma_vmov(inp: Seq<u8>, t: Seq<u8>, iv: InstructionView)
    ensures
        operand_step_ok(inp, t, iv, spec_vmov_load(inp, iv), spec_vmov_load(inp + t, iv)),
        operand_step_ok(inp, t, iv, spec_vmov_store(inp, iv), spec_vmov_store(inp + t, iv)),
        form_ok(inp, iv, spec_vmov_load(inp, iv), RegisterBank::X, iv.vex_reg.bank),
        form_ok(inp, iv, spec_vmov_store(inp, iv), RegisterBank::X, iv.vex_reg.bank),
        spec_vmov_load(inp, iv).res != Err::<(), DecodeError>(DecodeError::InvalidOpcode),
        spec_vmov_load(inp, iv).res != Err::<(), DecodeError>(DecodeError::InvalidOperand),
        spec_vmov_store(inp, iv).res != Err::<(), DecodeError>(DecodeError::InvalidOpcode),
        spec_vmov_store(inp, iv).res != Err::<(), DecodeError>(DecodeError::InvalidOperand),
{
    if inp.len() > 0 {
        let modrm = inp[0];
        lemma_skip_add(inp, t, 1);
        lemma_E_vec(
            inp.skip(1),
            t,
            iv.with_rrr(rrr_reg(iv, modrm, RegisterBank::X)),
            modrm,
            RegisterBank::X,
        );
    }
}

proof fn lemma_ev_g_imm8(inp: Seq<u8>, t: Seq<u8>, iv: InstructionView)
    ensures
        operand_step_ok(inp, t, iv, spec_ev_g_imm8(inp, iv), spec_ev_g_imm8(inp + t, iv)),
        form_ok(inp, iv, spec_ev_g_imm8(inp, iv), RegisterBank::X, iv.vex_reg.bank),
        spec_ev_g_imm8(inp, iv).res != Err::<(), DecodeError>(DecodeError::InvalidOpcode),
{
    if iv.vex_reg.num == 0 && inp.len() > 0 {
        let modrm = inp[0];
        let iv1 = iv.with_rrr(rrr_reg(iv, modrm, RegisterBank::X));
        lemma_skip_add(inp, t, 1);
        lemma_E(inp.skip(1), t, iv1, modrm, 8);
        let e = spec_read_E(inp.skip(1), iv1, modrm, 8);
        if e.res is Ok {
            lemma_skip_add(inp, t, 1 + e.used);
            lemma_num(inp.skip(1 + e.used), t, 1);
        }
    }
}

proof fn lemma_vps(inp: Seq<u8>, t: Seq<u8>, iv: InstructionView, code: VEXOperandCode)
    requires
        is_vps(code),
    ensures
        operand_step_ok(inp, t, iv, spec_vps(inp, iv, code), spec_vps(inp + t, iv, code)),
        spec_vps(inp, iv, code).res !is Ok,
        spec_vps(inp, iv, code).res == Err::<(), DecodeError>(DecodeError::InvalidOpcode) ==> spec_vps(inp, iv, code).instr.opcode == iv.opcode,
{
}

/// Operand decoding, for every operand form: see `operand_step_ok`; beyond it, an
/// `InvalidOpcode` comes only from the shift groups (whose opcode it leaves as it
/// was), and the shift groups never succeed.
pub proof fn lemma_operands(inp: Seq<u8>, t: Seq<u8>, iv: InstructionView, code: VEXOperandCode)
    ensures
        operand_step_ok(inp, t, iv, spec_read_vex_operands(inp, iv, code), spec_read_vex_operands(inp + t, iv, code)),
        spec_read_vex_operands(inp, iv, code).res == Err::<(), DecodeError>(DecodeError::InvalidOpcode) ==> (
            is_vps(code) && spec_read_vex_operands(inp, iv, code).instr.opcode == iv.opcode),
        is_vps(code) ==> spec_read_vex_operands(inp, iv, code).res !is Ok,
{
    reveal(spec_read_vex_operands);
    match code {
        VEXOperandCode::VPS_71
        | VEXOperandCode::VPS_71_L
        | VEXOperandCode::VPS_72
        | VEXOperandCode::VPS_72_L
        | VEXOperandCode::VPS_73
        | VEXOperandCode::VPS_73_L => lemma_vps(inp, t, iv, code),
        VEXOperandCode::VMOVSS_10
        | VEXOperandCode::VMOVSD_10
        | VEXOperandCode::VMOVSS_11
        | VEXOperandCode::VMOVSD_11 => lemma_vmov(inp, t, iv),
        VEXOperandCode::Ev_G_xmm_imm8 => lemma_ev_g_imm8(inp, t, iv),
        VEXOperandCode::E_G_xmm
        | VEXOperandCode::U_G_xmm
        | VEXOperandCode::M_G_xmm
        | VEXOperandCode::E_G_xmm_imm8
        | VEXOperandCode::U_G_xmm_imm8 => lemma_g_e(inp, t, iv, RegisterBank::X, true),
        VEXOperandCode::G_M_xmm
        | VEXOperandCode::G_U_xmm
        | VEXOperandCode::G_E_xmm
        | VEXOperandCode::G_E_xmm_imm8 => lemma_g_e(inp, t, iv, RegisterBank::X, false),
        VEXOperandCode::E_G_ymm
        | VEXOperandCode::U_G_ymm
        | VEXOperandCode::M_G_ymm => lemma_g_e(inp, t, iv, RegisterBank::Y, true),
        VEXOperandCode::G_M_ymm
        | VEXOperandCode::G_U_ymm
        | VEXOperandCode::G_E_ymm => lemma_g_e(inp, t, iv, RegisterBank::Y, false),
        VEXOperandCode::G_V_E_ymm | VEXOperandCode::G_V_M_ymm => lemma_g_v_e(inp, t, iv, RegisterBank::Y, false),
        VEXOperandCode::E_V_G_ymm | VEXOperandCode::M_V_G_ymm => lemma_g_v_e(inp, t, iv, RegisterBank::Y, true),
        VEXOperandCode::G_V_M_xmm | VEXOperandCode::G_V_E_xmm => lemma_g_v_e(inp, t, iv, RegisterBank::X, false),
        VEXOperandCode::E_V_G_xmm | VEXOperandCode::M_V_G_xmm => lemma_g_v_e(inp, t, iv, RegisterBank::X, true),
        VEXOperandCode::G_Ex_V_xmm => lemma_gather(inp, t, iv, RegisterBank::X),
        VEXOperandCode::G_Ey_V_ymm => lemma_gather(inp, t, iv, RegisterBank::Y),
        _ => {},
    }
}

/// Where operand decoding succeeds it leaves the `rrr` register of the ModRM
/// byte in the bank of the form, and the VEX register in the ymm bank for the
/// 256-bit forms with a vvvv operand, where it was for all others.
proof fn lemma_operand_banks(inp: Seq<u8>, iv: InstructionView, code: VEXOperandCode)
    ensures
        code != VEXOperandCode::Nothing ==> form_ok(
            inp,
            iv,
            spec_read_vex_operands(inp, iv, code),
            rrr_bank(code),
            vex_bank_after(code, iv.vex_reg.bank),
        ),
        spec_read_vex_operands(inp, iv, code).res is Ok ==> spec_read_vex_operands(inp, iv, code).instr.vex_reg.bank
            == vex_bank_after(code, iv.vex_reg.bank),
{
    reveal(spec_read_vex_operands);
    match code {
        VEXOperandCode::VPS_71
        | VEXOperandCode::VPS_71_L
        | VEXOperandCode::VPS_72
        | VEXOperandCode::VPS_72_L
        | VEXOperandCode::VPS_73
        | VEXOperandCode::VPS_73_L => lemma_vps(inp, Seq::empty(), iv, code),
        VEXOperandCode::VMOVSS_10
        | VEXOperandCode::VMOVSD_10
        | VEXOperandCode::VMOVSS_11
        | VEXOperandCode::VMOVSD_11 => lemma_vmov(inp, Seq::empty(), iv),
        VEXOperandCode::Ev_G_xmm_imm8 => lemma_ev_g_imm8(inp, Seq::empty(), iv),
        VEXOperandCode::E_G_xmm
        | VEXOperandCode::U_G_xmm
        | VEXOperandCode::M_G_xmm
        | VEXOperandCode::E_G_xmm_imm8
        | VEXOperandCode::U_G_xmm_imm8 => lemma_g_e(inp, Seq::empty(), iv, RegisterBank::X, true),
        VEXOperandCode::G_M_xmm
        | VEXOperandCode::G_U_xmm
        | VEXOperandCode::G_E_xmm
        | VEXOperandCode::G_E_xmm_imm8 => lemma_g_e(inp, Seq::empty(), iv, RegisterBank::X, false),
        VEXOperandCode::E_G_ymm
        | VEXOperandCode::U_G_ymm
        | VEXOperandCode::M_G_ymm => lemma_g_e(inp, Seq::empty(), iv, RegisterBank::Y, true),
        VEXOperandCode::G_M_ymm
        | VEXOperandCode::G_U_ymm
        | VEXOperandCode::G_E_ymm => lemma_g_e(inp, Seq::empty(), iv, RegisterBank::Y, false),
        VEXOperandCode::G_V_E_ymm | VEXOperandCode::G_V_M_ymm => lemma_g_v_e(inp, Seq::empty(), iv, RegisterBank::Y, false),
        VEXOperandCode::E_V_G_ymm | VEXOperandCode::M_V_G_ymm => lemma_g_v_e(inp, Seq::empty(), iv, RegisterBank::Y, true),
        VEXOperandCode::G_V_M_xmm | VEXOperandCode::G_V_E_xmm => lemma_g_v_e(inp, Seq::empty(), iv, RegisterBank::X, false),
        VEXOperandCode::E_V_G_xmm | VEXOperandCode::M_V_G_xmm => lemma_g_v_e(inp, Seq::empty(), iv, RegisterBank::X, true),
        VEXOperandCode::G_Ex_V_xmm => lemma_gather(inp, Seq::empty(), iv, RegisterBank::X),
        VEXOperandCode::G_Ey_V_ymm => lemma_gather(inp, Seq::empty(), iv, RegisterBank::Y),
        _ => {},
    }
}

/// In an entry of a table, the mnemonic is left `Invalid` exactly for the
/// shift groups, whose ModRM byte names the mnemonic.
pub open spec fn entry_ok(e: Option<(Opcode, VEXOperandCode)>) -> bool {
    e matches Some((op, code)) ==> (op == Opcode::Invalid <==> is_vps(code))
}

proof fn lemma_map_0f(opc: u8, l: bool, w: bool)
    ensures
        entry_ok(map_0f(opc, l, w)),
{
    reveal(map_0f);
}

proof fn lemma_map_0f_66(opc: u8, l: bool, w: bool)
    ensures
        entry_ok(map_0f_66(opc, l, w)),
{
    reveal(map_0f_66);
}

proof fn lemma_map_0f_f2(opc: u8, l: bool, w: bool)
    ensures
        entry_ok(map_0f_f2(opc, l, w)),
{
    reveal(map_0f_f2);
}

proof fn lemma_map_0f_f3(opc: u8, l: bool, w: bool)
    ensures
        entry_ok(map_0f_f3(opc, l, w)),
{
    reveal(map_0f_f3);
}

proof fn lemma_map_0f38_66(opc: u8, l: bool, w: bool)
    ensures
        entry_ok(map_0f38_66(opc, l, w)),
{
    reveal(map_0f38_66);
}

proof fn lemma_map_0f3a_66(opc: u8, l: bool, w: bool)
    ensures
        entry_ok(map_0f3a_66(opc, l, w)),
{
    reveal(map_0f3a_66);
}

/// Every entry of the decode table names a mnemonic, except the shift groups,
/// whose mnemonic the ModRM byte names.
pub proof fn lemma_table_entries(map: VEXOpcodeMap, p: VEXOpcodePrefix, opc: u8, l: bool, w: bool)
    ensures
        entry_ok(vex_table(map, p, opc, l, w)),
{
    reveal(vex_table);
    lemma_map_0f(opc, l, w);
    lemma_map_0f_66(opc, l, w);
    lemma_map_0f_f2(opc, l, w);
    lemma_map_0f_f3(opc, l, w);
    lemma_map_0f38_66(opc, l, w);
    lemma_map_0f3a_66(opc, l, w);
}

/// What decoding from the opcode byte on promises: at most eight bytes read and
/// no more than the input holds, and at least the opcode byte where there is
/// one; the VEX register number, the prefixes and the length kept; a decoded
/// instruction has a mnemonic, a rejected one is marked `Invalid`; no look past
/// the bytes read.
pub open spec fn instruction_step_ok(inp: Seq<u8>, iv: InstructionView, s: Step<()>, s2: Step<()>) -> bool {
    &&& 0 <= s.used <= inp.len()
    &&& s.used <= 8
    &&& (inp.len() > 0 ==> s.used >= 1)
    &&& s.instr.vex_reg.num == iv.vex_reg.num
    &&& s.instr.prefixes == iv.prefixes
    &&& s.instr.length == iv.length
    &&& (s.res is Ok ==> s.instr.opcode != Opcode::Invalid)
    &&& (s.res == Err::<(), DecodeError>(DecodeError::InvalidOpcode) ==> s.instr.opcode == Opcode::Invalid)
    &&& (s.res == Err::<(), DecodeError>(DecodeError::InvalidOperand) ==> s.instr.opcode == Opcode::Invalid)
    &&& (settled(s) ==> s2 == s)
}

pub proof fn lemma_instruction(map: VEXOpcodeMap, inp: Seq<u8>, t: Seq<u8>, iv: InstructionView, p: VEXOpcodePrefix)
    ensures
        instruction_step_ok(
            inp,
            iv,
            spec_read_vex_instruction(map, inp, iv, p),
            spec_read_vex_instruction(map, inp + t, iv, p),
        ),
{
    if inp.len() > 0 {
        let opc = inp[0];
        let l = iv.prefixes.vex().l();
        let w = iv.prefixes.vex().w();
        lemma_table_entries(map, p, opc, l, w);
        lemma_skip_add(inp, t, 1);
        if let Some((op, code)) = vex_table(map, p, opc, l, w) {
            lemma_operands(inp.skip(1), t, iv.with_opcode(op), code);
        }
    }
}

/// Decoding after a `c5` byte reads at most nine bytes and never more than the
/// input holds; a decoded instruction's length is the length it started from
/// plus the bytes read (where that sum fits in a byte, as it always does from a
/// starting length of at most 246).
pub proof fn two_byte_vex_consumption(inp: Seq<u8>, iv: InstructionView, length: u8)
    ensures
        0 <= spec_two_byte_vex(inp, iv, length).used <= inp.len(),
        spec_two_byte_vex(inp, iv, length).used <= 9,
        spec_two_byte_vex(inp, iv, length).res is Ok && length + spec_two_byte_vex(inp, iv, length).used <= 255
            ==> spec_two_byte_vex(inp, iv, length).instr.length == length
            + spec_two_byte_vex(inp, iv, length).used,
{
    if inp.len() >= 1 {
        lemma_instruction(VEXOpcodeMap::Map0F, inp.skip(1), Seq::empty(), after_c5(iv, inp[0]), vex_prefix_of(inp[0]));
    }
}

/// Decoding after a `c4` byte reads at most ten bytes and never more than the
/// input holds; a decoded instruction's length is the length it started from
/// plus the bytes read (where that sum fits in a byte, as it always does from a
/// starting length of at most 245).
pub proof fn three_byte_vex_consumption(inp: Seq<u8>, iv: InstructionView, length: u8)
    ensures
        0 <= spec_three_byte_vex(inp, iv, length).used <= inp.len(),
        spec_three_byte_vex(inp, iv, length).used <= 10,
        spec_three_byte_vex(inp, iv, length).res is Ok && length + spec_three_byte_vex(inp, iv, length).used <= 255
            ==> spec_three_byte_vex(inp, iv, length).instr.length
            == length + spec_three_byte_vex(inp, iv, length).used,
{
    if inp.len() >= 2 {
        if let Some(map) = vex_map_of(inp[0]) {
            lemma_instruction(map, inp.skip(2), Seq::empty(), after_c4(iv, inp[0], inp[1]), vex_prefix_of(inp[1]));
        }
    }
}

/// Decoding after a `c5` byte looks at no byte it does not read: unless the
/// input ran out, any bytes after it change nothing.
pub proof fn two_byte_vex_no_lookahead(inp: Seq<u8>, t: Seq<u8>, iv: InstructionView, length: u8)
    ensures
        settled(spec_two_byte_vex(inp, iv, length)) ==> spec_two_byte_vex(inp + t, iv, length)
            == spec_two_byte_vex(inp, iv, length),
{
    if inp.len() >= 1 {
        lemma_skip_add(inp, t, 1);
        lemma_instruction(VEXOpcodeMap::Map0F, inp.skip(1), t, after_c5(iv, inp[0]), vex_prefix_of(inp[0]));
    }
}

/// Decoding after a `c4` byte looks at no byte it does not read: unless the
/// input ran out, any bytes after it change nothing.
pub proof fn three_byte_vex_no_lookahead(inp: Seq<u8>, t: Seq<u8>, iv: InstructionView, length: u8)
    ensures
        settled(spec_three_byte_vex(inp, iv, length)) ==> spec_three_byte_vex(inp + t, iv, length)
            == spec_three_byte_vex(inp, iv, length),
{
    if inp.len() >= 2 {
        lemma_skip_add(inp, t, 2);
        if let Some(map) = vex_map_of(inp[0]) {
            lemma_instruction(map, inp.skip(2), t, after_c4(iv, inp[0], inp[1]), vex_prefix_of(inp[1]));
        }
    }
}

/// The verdict a VEX decode leaves in the opcode: a decoded instruction has a
/// mnemonic, and an instruction rejected as an invalid opcode or operand is
/// marked `Invalid`.
pub open spec fn verdict_recorded(s: Step<()>) -> bool {
    &&& (s.res is Ok ==> s.instr.opcode != Opcode::Invalid)
    &&& (s.res == Err::<(), DecodeError>(DecodeError::InvalidOpcode) ==> s.instr.opcode == Opcode::Invalid)
    &&& (s.res == Err::<(), DecodeError>(DecodeError::InvalidOperand) ==> s.instr.opcode == Opcode::Invalid)
}

/// After a `c5` or `c4` prefix, a decoded instruction has a mnemonic and a
/// rejected one is marked `Invalid`.
pub proof fn vex_decode_verdict(inp: Seq<u8>, iv: InstructionView, length: u8)
    ensures
        verdict_recorded(spec_two_byte_vex(inp, iv, length)),
        verdict_recorded(spec_three_byte_vex(inp, iv, length)),
{
    if inp.len() >= 1 {
        lemma_instruction(VEXOpcodeMap::Map0F, inp.skip(1), Seq::empty(), after_c5(iv, inp[0]), vex_prefix_of(inp[0]));
    }
    if inp.len() >= 2 {
        if let Some(map) = vex_map_of(inp[0]) {
            lemma_instruction(map, inp.skip(2), Seq::empty(), after_c4(iv, inp[0], inp[1]), vex_prefix_of(inp[1]));
        }
    }
}

/// A decoded instruction's VEX register is the one the inverted `vvvv` field of
/// the prefix names (operand decoding may move it to the ymm bank, never to
/// another number).
pub proof fn vex_register_from_vvvv(inp: Seq<u8>, iv: InstructionView, length: u8)
    ensures
        spec_two_byte_vex(inp, iv, length).res is Ok ==> spec_two_byte_vex(inp, iv, length).instr.vex_reg.num
            == ((inp[0] >> 3) & 0b1111) ^ 0b1111,
        spec_three_byte_vex(inp, iv, length).res is Ok ==> spec_three_byte_vex(inp, iv, length).instr.vex_reg.num
            == ((inp[1] >> 3) & 0b1111) ^ 0b1111,
{
    if inp.len() >= 1 {
        lemma_instruction(VEXOpcodeMap::Map0F, inp.skip(1), Seq::empty(), after_c5(iv, inp[0]), vex_prefix_of(inp[0]));
    }
    if inp.len() >= 2 {
        if let Some(map) = vex_map_of(inp[0]) {
            lemma_instruction(map, inp.skip(2), Seq::empty(), after_c4(iv, inp[0], inp[1]), vex_prefix_of(inp[1]));
        }
    }
}

/// The first payload byte of the three-byte form that says what a two-byte
/// payload `b` says: R from `b`, X and B clear (encoded as ones), map `0f`.
pub open spec fn c4_high_of(b: u8) -> u8 {
    (b & 0x80) | 0x61
}

/// The second payload byte of the three-byte form that says what a two-byte
/// payload `b` says: W clear, vvvv, L and pp from `b`.
pub open spec fn c4_low_of(b: u8) -> u8 {
    b & 0x7f
}

/// The two-byte VEX form is an abbreviation: `c5 b rest` decodes as
/// `c4 (b & 0x80 | 0x61) (b & 0x7f) rest` does, with the same result, one byte
/// fewer read, and (when decoded) a length one shorter.
pub proof fn two_byte_vex_abbreviates_three_byte(b: u8, rest: Seq<u8>, iv: InstructionView, length: u8)
    ensures
        ({
            let two = spec_two_byte_vex(seq![b] + rest, iv, length);
            let three = spec_three_byte_vex(seq![c4_high_of(b), c4_low_of(b)] + rest, iv, length);
            &&& three.res == two.res
            &&& three.used == two.used + 1
            &&& (two.res is Ok ==> three.instr == two.instr.with_length((two.instr.length + 1) as u8))
            &&& (two.res !is Ok ==> three.instr == two.instr)
        }),
{
    let hi = c4_high_of(b);
    let lo = c4_low_of(b);
    assert(((hi & 0x1f) == 1) && c4_rex_bits(hi, lo) == c5_rex_bits(b) && ((lo >> 3) & 0b1111) == ((b >> 3) & 0b1111)
        && (lo & 3) == (b & 3)) by (bit_vector)
        requires
            hi == (b & 0x80) | 0x61,
            lo == b & 0x7f,
    ;
    assert((seq![b] + rest).skip(1) =~= rest);
    assert((seq![hi, lo] + rest).skip(2) =~= rest);
    assert(vvvv_reg(lo) == vvvv_reg(b));
    assert(vex_prefix_of(lo) == vex_prefix_of(b));
    assert(after_c4(iv, hi, lo) == after_c5(iv, b));
    lemma_instruction(VEXOpcodeMap::Map0F, rest, Seq::empty(), after_c5(iv, b), vex_prefix_of(b));
    let r = spec_read_vex_instruction(VEXOpcodeMap::Map0F, rest, after_c5(iv, b), vex_prefix_of(b));
    let u = r.used as u8;
    assert(((length + 1 + u) as u8 + 1) as u8 == (length + 2 + u) as u8) by (bit_vector);
}

/// A three-byte VEX prefix whose `mmmmm` field selects none of the maps `0f`,
/// `0f38`, `0f3a` is rejected as an invalid opcode after its two payload bytes.
pub proof fn three_byte_vex_rejects_unknown_maps(b1: u8, b2: u8, rest: Seq<u8>, iv: InstructionView, length: u8)
    requires
        (b1 & 0x1f) != 1 && (b1 & 0x1f) != 2 && (b1 & 0x1f) != 3,
    ensures
        spec_three_byte_vex(seq![b1, b2] + rest, iv, length).res == Err::<(), DecodeError>(DecodeError::InvalidOpcode),
        spec_three_byte_vex(seq![b1, b2] + rest, iv, length).used == 2,
        spec_three_byte_vex(seq![b1, b2] + rest, iv, length).instr == iv.with_opcode(Opcode::Invalid),
{
}

/// Maps `0f38` and `0f3a` hold instructions only under an implied `66` prefix:
/// any other `pp` is rejected as an invalid opcode at the opcode byte.
pub proof fn maps_0f38_0f3a_need_66(b1: u8, b2: u8, opc: u8, rest: Seq<u8>, iv: InstructionView, length: u8)
    requires
        (b1 & 0x1f) == 2 || (b1 & 0x1f) == 3,
        (b2 & 3) != 1,
    ensures
        spec_three_byte_vex(seq![b1, b2, opc] + rest, iv, length).res == Err::<(), DecodeError>(DecodeError::InvalidOpcode),
        spec_three_byte_vex(seq![b1, b2, opc] + rest, iv, length).used == 3,
{
    reveal(vex_table);
    assert((seq![b1, b2, opc] + rest).skip(2) =~= seq![opc] + rest);
}

/// Decoding from the opcode byte on, and decoding operands, leave the prefixes
/// (and so the VEX fields read from the payload) and the instruction's length
/// field as they were, whatever the result; operand decoding that succeeds
/// keeps the opcode the table gave.
pub proof fn decoding_keeps_prefixes_and_length(
    map: VEXOpcodeMap,
    inp: Seq<u8>,
    iv: InstructionView,
    p: VEXOpcodePrefix,
    code: VEXOperandCode,
)
    ensures
        spec_read_vex_instruction(map, inp, iv, p).instr.prefixes == iv.prefixes,
        spec_read_vex_instruction(map, inp, iv, p).instr.length == iv.length,
        spec_read_vex_operands(inp, iv, code).instr.prefixes == iv.prefixes,
        spec_read_vex_operands(inp, iv, code).instr.length == iv.length,
        spec_read_vex_operands(inp, iv, code).res is Ok ==> spec_read_vex_operands(inp, iv, code).instr.opcode
            == iv.opcode,
{
    lemma_instruction(map, inp, Seq::empty(), iv, p);
    lemma_operands(inp, Seq::empty(), iv, code);
}

/// A decode after `c5` or `c4` that fails leaves the instruction's length field
/// as it was.
pub proof fn vex_decode_error_keeps_length(inp: Seq<u8>, iv: InstructionView, length: u8)
    ensures
        spec_two_byte_vex(inp, iv, length).res is Err ==> spec_two_byte_vex(inp, iv, length).instr.length
            == iv.length,
        spec_three_byte_vex(inp, iv, length).res is Err ==> spec_three_byte_vex(inp, iv, length).instr.length
            == iv.length,
{
    if inp.len() >= 1 {
        lemma_instruction(VEXOpcodeMap::Map0F, inp.skip(1), Seq::empty(), after_c5(iv, inp[0]), vex_prefix_of(inp[0]));
    }
    if inp.len() >= 2 {
        if let Some(map) = vex_map_of(inp[0]) {
            lemma_instruction(map, inp.skip(2), Seq::empty(), after_c4(iv, inp[0], inp[1]), vex_prefix_of(inp[1]));
        }
    }
}

/// Where operand decoding succeeds on a form with a ModRM byte `m`, the `rrr`
/// register is `((m >> 3) & 7)`, plus eight when VEX.R is set, in the ymm bank
/// for the 256-bit forms and the xmm bank for the others.
pub proof fn operand_rrr_register(inp: Seq<u8>, iv: InstructionView, code: VEXOperandCode)
    requires
        code != VEXOperandCode::Nothing,
    ensures
        spec_read_vex_operands(inp, iv, code).res is Ok ==> {
            &&& inp.len() > 0
            &&& spec_read_vex_operands(inp, iv, code).instr.modrm_rrr.num == ((inp[0] >> 3) & 7) + (if iv.prefixes.vex().r() {
                8int
            } else {
                0int
            })
            &&& spec_read_vex_operands(inp, iv, code).instr.modrm_rrr.bank == rrr_bank(code)
        },
{
    lemma_operand_banks(inp, iv, code);
    if inp.len() > 0 {
        lemma_byte_fields(inp[0]);
    }
}

/// Where operand decoding succeeds, the VEX register keeps its number; its bank
/// becomes ymm for `G_V_E_ymm`, `G_V_M_ymm`, `E_V_G_ymm`, `M_V_G_ymm` and
/// `G_Ey_V_ymm`, and stays as it was for every other form.
pub proof fn operand_vex_register(inp: Seq<u8>, iv: InstructionView, code: VEXOperandCode)
    ensures
        spec_read_vex_operands(inp, iv, code).res is Ok ==> {
            &&& spec_read_vex_operands(inp, iv, code).instr.vex_reg.num == iv.vex_reg.num
            &&& spec_read_vex_operands(inp, iv, code).instr.vex_reg.bank == vex_bank_after(code, iv.vex_reg.bank)
        },
{
    lemma_operands(inp, Seq::empty(), iv, code);
    lemma_operand_banks(inp, iv, code);
}

proof fn lemma_g_v_e_swap(inp: Seq<u8>, iv: InstructionView, bank: RegisterBank)
    requires
        iv.operands.len() == 4,
    ensures
        ({
            let a = spec_g_v_e(inp, iv, bank, false);
            let b = spec_g_v_e(inp, iv, bank, true);
            &&& a.res == b.res
            &&& a.used == b.used
            &&& (a.res is Ok ==> {
                &&& a.instr.operands[1] == OperandSpec::RegVex
                &&& b.instr.operands[1] == OperandSpec::RegVex
                &&& b.instr == a.instr.with_operand(0, a.instr.operands[2]).with_operand(2, a.instr.operands[0])
            })
            &&& (a.res !is Ok ==> b.instr == a.instr)
        }),
{
    if inp.len() > 0 {
        let modrm = inp[0];
        let iv1 = iv.with_rrr(rrr_reg(iv, modrm, bank));
        let iv2 = if bank == RegisterBank::Y {
            iv1.with_vex_bank(RegisterBank::Y)
        } else {
            iv1
        };
        lemma_E_vec(inp.skip(1), Seq::empty(), iv2, modrm, bank);
        let a = spec_g_v_e(inp, iv, bank, false);
        let b = spec_g_v_e(inp, iv, bank, true);
        if a.res is Ok {
            assert(b.instr.operands =~= a.instr.with_operand(0, a.instr.operands[2]).with_operand(
                2,
                a.instr.operands[0],
            ).operands);
        }
    }
}

/// The three-operand forms come in pairs that differ only in direction: from
/// the same input and instruction, `G_V_E` and `E_V_G` (and `G_V_M` and
/// `M_V_G`), xmm or ymm, give the same result and read the same bytes; on
/// success the operand slots 0 and 2 are swapped, with the VEX register in
/// slot 1 in both, and on failure the instructions are the same.
pub proof fn g_v_e_mirrors_e_v_g(inp: Seq<u8>, iv: InstructionView, g_first: VEXOperandCode, e_first: VEXOperandCode)
    requires
        iv.operands.len() == 4,
        (g_first == VEXOperandCode::G_V_E_xmm && e_first == VEXOperandCode::E_V_G_xmm) || (g_first
            == VEXOperandCode::G_V_M_xmm && e_first == VEXOperandCode::M_V_G_xmm) || (g_first
            == VEXOperandCode::G_V_E_ymm && e_first == VEXOperandCode::E_V_G_ymm) || (g_first
            == VEXOperandCode::G_V_M_ymm && e_first == VEXOperandCode::M_V_G_ymm),
    ensures
        ({
            let a = spec_read_vex_operands(inp, iv, g_first);
            let b = spec_read_vex_operands(inp, iv, e_first);
            &&& a.res == b.res
            &&& a.used == b.used
            &&& (a.res is Ok ==> {
                &&& a.instr.operands[1] == OperandSpec::RegVex
                &&& b.instr.operands[1] == OperandSpec::RegVex
                &&& b.instr == a.instr.with_operand(0, a.instr.operands[2]).with_operand(2, a.instr.operands[0])
            })
            &&& (a.res !is Ok ==> b.instr == a.instr)
        }),
{
    reveal(spec_read_vex_operands);
    lemma_g_v_e_swap(inp, iv, RegisterBank::X);
    lemma_g_v_e_swap(inp, iv, RegisterBank::Y);
}

/// After a `c4` byte with both payload bytes present, the decode is rejected as
/// an invalid opcode after exactly those two bytes if and only if the `mmmmm`
/// field selects none of the maps `0f`, `0f38`, `0f3a`.
pub proof fn three_byte_vex_map_check(inp: Seq<u8>, iv: InstructionView, length: u8)
    requires
        inp.len() >= 2,
    ensures
        (spec_three_byte_vex(inp, iv, length).res == Err::<(), DecodeError>(DecodeError::InvalidOpcode)
            && spec_three_byte_vex(inp, iv, length).used == 2) <==> !((inp[0] & 0x1f) == 1 || (inp[0] & 0x1f) == 2
            || (inp[0] & 0x1f) == 3),
{
    if let Some(map) = vex_map_of(inp[0]) {
        lemma_instruction(map, inp.skip(2), Seq::empty(), after_c4(iv, inp[0], inp[1]), vex_prefix_of(inp[1]));
    }
}

/// Whatever the result, a decode after `c5 b` leaves the VEX register number
/// `((b >> 3) & 15) ^ 15`, VEX.R set where bit 7 of `b` is clear, VEX.L from
/// bit 2 of `b`, VEX.W, X and B clear, and the address-size override as it was.
pub proof fn two_byte_vex_records_payload(inp: Seq<u8>, iv: InstructionView, length: u8)
    requires
        inp.len() >= 1,
    ensures
        ({
            let s = spec_two_byte_vex(inp, iv, length);
            let b = inp[0];
            &&& s.instr.vex_reg.num == ((b >> 3) & 0b1111) ^ 0b1111
            &&& s.instr.prefixes.vex().r() == ((b & 0x80) == 0)
            &&& s.instr.prefixes.vex().l() == ((b & 0x04) == 0x04)
            &&& !s.instr.prefixes.vex().w()
            &&& !s.instr.prefixes.vex().x()
            &&& !s.instr.prefixes.vex().b()
            &&& s.instr.prefixes.address_size == iv.prefixes.address_size
        }),
{
    lemma_c5_fields(inp[0]);
    lemma_instruction(VEXOpcodeMap::Map0F, inp.skip(1), Seq::empty(), after_c5(iv, inp[0]), vex_prefix_of(inp[0]));
}

/// Whatever the result, a decode after `c4 b1 b2` whose `mmmmm` field selects a
/// map leaves the VEX register number `((b2 >> 3) & 15) ^ 15`, VEX.R, X and B
/// set where bits 7, 6 and 5 of `b1` are clear, VEX.W from bit 7 and VEX.L from
/// bit 2 of `b2`, and the address-size override as it was.
pub proof fn three_byte_vex_records_payload(inp: Seq<u8>, iv: InstructionView, length: u8)
    requires
        inp.len() >= 2,
        (inp[0] & 0x1f) == 1 || (inp[0] & 0x1f) == 2 || (inp[0] & 0x1f) == 3,
    ensures
        ({
            let s = spec_three_byte_vex(inp, iv, length);
            let b1 = inp[0];
            let b2 = inp[1];
            &&& s.instr.vex_reg.num == ((b2 >> 3) & 0b1111) ^ 0b1111
            &&& s.instr.prefixes.vex().r() == ((b1 & 0x80) == 0)
            &&& s.instr.prefixes.vex().x() == ((b1 & 0x40) == 0)
            &&& s.instr.prefixes.vex().b() == ((b1 & 0x20) == 0)
            &&& s.instr.prefixes.vex().w() == ((b2 & 0x80) == 0x80)
            &&& s.instr.prefixes.vex().l() == ((b2 & 0x04) == 0x04)
            &&& s.instr.prefixes.address_size == iv.prefixes.address_size
        }),
{
    lemma_c4_fields(inp[0], inp[1]);
    let map = vex_map_of(inp[0])->Some_0;
    lemma_instruction(map, inp.skip(2), Seq::empty(), after_c4(iv, inp[0], inp[1]), vex_prefix_of(inp[1]));
}

} // verus!
