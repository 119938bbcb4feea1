use vstd::prelude::*;

use crate::opcode::Opcode;

verus! {

/// The opcode map a VEX prefix selects.
#[derive(Clone, Copy, Debug, PartialEq, Eq, Structural)]
pub enum VEXOpcodeMap {
    Map0F,
    Map0F38,
    Map0F3A,
}

/// The legacy prefix a VEX prefix implies (its `pp` field).
#[derive(Clone, Copy, Debug, PartialEq, Eq, Structural)]
pub enum VEXOpcodePrefix {
    NoPrefix,
    Prefix66,
    PrefixF3,
    PrefixF2,
}

/// How the operands of a VEX instruction are laid out.
///
/// `G` is the ModRM `rrr` register, `E` the ModRM register-or-memory operand
/// (`U` only a register, `M` only memory), `V` the register in VEX.vvvv; `xmm`
/// and `ymm` give the register width and `imm8` a trailing byte immediate.
#[allow(non_camel_case_types)]
#[derive(Clone, Copy, Debug, PartialEq, Eq, Structural)]
pub enum VEXOperandCode {
    Nothing,
    VPS_71,
    VPS_71_L,
    VPS_72,
    VPS_72_L,
    VPS_73,
    VPS_73_L,
    VMOVSS_10,
    VMOVSD_10,
    VMOVSD_11,
    VMOVSS_11,
    E_G_xmm,
    U_G_xmm,
    M_G_xmm,
    G_M_xmm,
    G_U_xmm,
    E_G_xmm_imm8,
    U_G_xmm_imm8,
    E_G_ymm,
    U_G_ymm,
    M_G_ymm,
    G_E_ymm,
    G_M_ymm,
    G_U_ymm,
    E_V_G_ymm,
    E_V_G_xmm,
    E_xmm_G_ymm_imm8,
    Ev_G_xmm_imm8,
    G_Ex_V_xmm,
    G_Ey_V_ymm,
    G_E_xmm,
    G_E_xmm_imm8,
    G_E_ymm_imm8,
    G_xmm_E_xmm,
    G_xmm_E_ymm,
    G_ymm_E_xmm,
    G_ymm_E_ymm,
    G_V_ymm_E_xmm,
    M_V_G_xmm,
    M_V_G_ymm,
    G_V_E_xmm,
    G_V_E_xmm_imm8,
    G_V_E_xmm_xmm4,
    G_V_E_ymm,
    G_V_E_ymm_imm8,
    G_V_E_ymm_ymm4,
    G_V_M_xmm,
    G_V_M_ymm,
    V_xmm_G_ymm_E_ymm_imm8,
    V_ymm_G_ymm_E_xmm_imm8,
    G_V_xmm_Ew_imm8,
    Eq_G_xmm,
    Ed_G_xmm,
    G_xmm_Ed,
    G_xmm_Eq,
}

/// The same entry whatever VEX.L holds.
#[verifier::allow_in_spec]
pub fn any_l(op: Opcode, code: VEXOperandCode) -> Option<(Opcode, VEXOperandCode)>
    returns
        Some((op, code)),
{
    Some((op, code))
}

/// A 256-bit form when VEX.L is set, a 128-bit form when it is clear.
#[verifier::allow_in_spec]
pub fn by_l(l: bool, op: Opcode, ymm: VEXOperandCode, xmm: VEXOperandCode) -> Option<(Opcode, VEXOperandCode)>
    returns
        (if l { Some((op, ymm)) } else { Some((op, xmm)) }),
{
    if l {
        Some((op, ymm))
    } else {
        Some((op, xmm))
    }
}

/// Only a 128-bit form: invalid when VEX.L is set.
#[verifier::allow_in_spec]
pub fn xmm_only(l: bool, op: Opcode, code: VEXOperandCode) -> Option<(Opcode, VEXOperandCode)>
    returns
        (if l { None } else { Some((op, code)) }),
{
    if l {
        None
    } else {
        Some((op, code))
    }
}

/// Only a 256-bit form: invalid when VEX.L is clear.
#[verifier::allow_in_spec]
pub fn ymm_only(l: bool, op: Opcode, code: VEXOperandCode) -> Option<(Opcode, VEXOperandCode)>
    returns
        (if l { Some((op, code)) } else { None }),
{
    if l {
        Some((op, code))
    } else {
        None
    }
}

/// Only a 128-bit form with VEX.W clear: invalid when either bit is set.
#[verifier::allow_in_spec]
pub fn xmm_only_w0(l: bool, w: bool, op: Opcode, code: VEXOperandCode) -> Option<(Opcode, VEXOperandCode)>
    returns
        (if l || w { None } else { Some((op, code)) }),
{
    if l || w {
        None
    } else {
        Some((op, code))
    }
}

/// Opcode map `0f` with no mandatory prefix: the mnemonic and operand form of
/// each opcode byte, given VEX.L and VEX.W; `None` where the encoding is invalid.
#[verifier::opaque]
pub open spec fn map_0f(opc: u8, l: bool, w: bool) -> Option<(Opcode, VEXOperandCode)> {
    match opc {
        0x10 => by_l(l, Opcode::VMOVUPS, VEXOperandCode::G_E_ymm, VEXOperandCode::G_E_xmm),
        0x11 => by_l(l, Opcode::VMOVUPS, VEXOperandCode::E_G_ymm, VEXOperandCode::E_G_xmm),
        0x13 => xmm_only(l, Opcode::VMOVLPS, VEXOperandCode::M_G_xmm),
        0x14 => by_l(l, Opcode::VUNPCKLPS, VEXOperandCode::G_V_E_ymm, VEXOperandCode::G_V_E_xmm),
        0x15 => by_l(l, Opcode::VUNPCKHPS, VEXOperandCode::G_V_E_ymm, VEXOperandCode::G_V_E_xmm),
        0x17 => xmm_only(l, Opcode::VMOVHPS, VEXOperandCode::M_G_xmm),
        0x28 => by_l(l, Opcode::VMOVAPS, VEXOperandCode::G_E_ymm, VEXOperandCode::G_E_xmm),
        0x29 => by_l(l, Opcode::VMOVAPS, VEXOperandCode::E_G_ymm, VEXOperandCode::E_G_xmm),
        0x2b => by_l(l, Opcode::VMOVNTPS, VEXOperandCode::M_G_ymm, VEXOperandCode::M_G_xmm),
        0x2e => any_l(Opcode::VUCOMISS, VEXOperandCode::G_E_xmm),
        0x2f => any_l(Opcode::VCOMISS, VEXOperandCode::G_E_xmm),
        0x50 => by_l(l, Opcode::VMOVMSKPS, VEXOperandCode::U_G_ymm, VEXOperandCode::U_G_xmm),
        0x51 => by_l(l, Opcode::VSQRTPS, VEXOperandCode::G_E_ymm, VEXOperandCode::G_E_xmm),
        0x52 => by_l(l, Opcode::VRSQRTPS, VEXOperandCode::G_E_ymm, VEXOperandCode::G_E_xmm),
        0x53 => by_l(l, Opcode::VRCPPS, VEXOperandCode::G_E_ymm, VEXOperandCode::G_E_xmm),
        0x57 => by_l(l, Opcode::VXORPS, VEXOperandCode::G_V_E_ymm, VEXOperandCode::G_V_E_xmm),
        0x58 => by_l(l, Opcode::VADDPS, VEXOperandCode::G_V_E_ymm, VEXOperandCode::G_V_E_xmm),
        0x59 => by_l(l, Opcode::VMULPS, VEXOperandCode::G_V_E_ymm, VEXOperandCode::G_V_E_xmm),
        0x5a => by_l(l, Opcode::VCVTPS2PD, VEXOperandCode::G_E_ymm, VEXOperandCode::G_E_xmm),
        0x5b => by_l(l, Opcode::VCVTDQ2PS, VEXOperandCode::G_E_ymm, VEXOperandCode::G_E_xmm),
        0x5c => by_l(l, Opcode::VSUBPS, VEXOperandCode::G_V_E_ymm, VEXOperandCode::G_V_E_xmm),
        0x5d => by_l(l, Opcode::VMINPS, VEXOperandCode::G_V_E_ymm, VEXOperandCode::G_V_E_xmm),
        0x5e => by_l(l, Opcode::VDIVPS, VEXOperandCode::G_V_E_ymm, VEXOperandCode::G_V_E_xmm),
        0x5f => by_l(l, Opcode::VMAXPS, VEXOperandCode::G_V_E_ymm, VEXOperandCode::G_V_E_xmm),
        0x77 => any_l(Opcode::VZEROUPPER, VEXOperandCode::Nothing),
        0xc2 => by_l(l, Opcode::VCMPPS, VEXOperandCode::G_V_E_ymm_imm8, VEXOperandCode::G_V_E_xmm_imm8),
        0xc6 => by_l(l, Opcode::VSHUFPS, VEXOperandCode::G_V_E_ymm_imm8, VEXOperandCode::G_V_E_xmm_imm8),
        _ => None,
    }
}

/// Looks `opc` up in opcode map `0f` with no mandatory prefix.
fn lookup_0f(opc: u8, l: bool, w: bool) -> (r: Option<(Opcode, VEXOperandCode)>)
    ensures
        r == map_0f(opc, l, w),
{
    reveal(map_0f);
    match opc {
        0x10 => by_l(l, Opcode::VMOVUPS, VEXOperandCode::G_E_ymm, VEXOperandCode::G_E_xmm),
        0x11 => by_l(l, Opcode::VMOVUPS, VEXOperandCode::E_G_ymm, VEXOperandCode::E_G_xmm),
        0x13 => xmm_only(l, Opcode::VMOVLPS, VEXOperandCode::M_G_xmm),
        0x14 => by_l(l, Opcode::VUNPCKLPS, VEXOperandCode::G_V_E_ymm, VEXOperandCode::G_V_E_xmm),
        0x15 => by_l(l, Opcode::VUNPCKHPS, VEXOperandCode::G_V_E_ymm, VEXOperandCode::G_V_E_xmm),
        0x17 => xmm_only(l, Opcode::VMOVHPS, VEXOperandCode::M_G_xmm),
        0x28 => by_l(l, Opcode::VMOVAPS, VEXOperandCode::G_E_ymm, VEXOperandCode::G_E_xmm),
        0x29 => by_l(l, Opcode::VMOVAPS, VEXOperandCode::E_G_ymm, VEXOperandCode::E_G_xmm),
        0x2b => by_l(l, Opcode::VMOVNTPS, VEXOperandCode::M_G_ymm, VEXOperandCode::M_G_xmm),
        0x2e => any_l(Opcode::VUCOMISS, VEXOperandCode::G_E_xmm),
        0x2f => any_l(Opcode::VCOMISS, VEXOperandCode::G_E_xmm),
        0x50 => by_l(l, Opcode::VMOVMSKPS, VEXOperandCode::U_G_ymm, VEXOperandCode::U_G_xmm),
        0x51 => by_l(l, Opcode::VSQRTPS, VEXOperandCode::G_E_ymm, VEXOperandCode::G_E_xmm),
        0x52 => by_l(l, Opcode::VRSQRTPS, VEXOperandCode::G_E_ymm, VEXOperandCode::G_E_xmm),
        0x53 => by_l(l, Opcode::VRCPPS, VEXOperandCode::G_E_ymm, VEXOperandCode::G_E_xmm),
        0x57 => by_l(l, Opcode::VXORPS, VEXOperandCode::G_V_E_ymm, VEXOperandCode::G_V_E_xmm),
        0x58 => by_l(l, Opcode::VADDPS, VEXOperandCode::G_V_E_ymm, VEXOperandCode::G_V_E_xmm),
        0x59 => by_l(l, Opcode::VMULPS, VEXOperandCode::G_V_E_ymm, VEXOperandCode::G_V_E_xmm),
        0x5a => by_l(l, Opcode::VCVTPS2PD, VEXOperandCode::G_E_ymm, VEXOperandCode::G_E_xmm),
        0x5b => by_l(l, Opcode::VCVTDQ2PS, VEXOperandCode::G_E_ymm, VEXOperandCode::G_E_xmm),
        0x5c => by_l(l, Opcode::VSUBPS, VEXOperandCode::G_V_E_ymm, VEXOperandCode::G_V_E_xmm),
        0x5d => by_l(l, Opcode::VMINPS, VEXOperandCode::G_V_E_ymm, VEXOperandCode::G_V_E_xmm),
        0x5e => by_l(l, Opcode::VDIVPS, VEXOperandCode::G_V_E_ymm, VEXOperandCode::G_V_E_xmm),
        0x5f => by_l(l, Opcode::VMAXPS, VEXOperandCode::G_V_E_ymm, VEXOperandCode::G_V_E_xmm),
        0x77 => any_l(Opcode::VZEROUPPER, VEXOperandCode::Nothing),
        0xc2 => by_l(l, Opcode::VCMPPS, VEXOperandCode::G_V_E_ymm_imm8, VEXOperandCode::G_V_E_xmm_imm8),
        0xc6 => by_l(l, Opcode::VSHUFPS, VEXOperandCode::G_V_E_ymm_imm8, VEXOperandCode::G_V_E_xmm_imm8),
        _ => None,
    }
}

/// Opcode map `0f` with implied `66`: the mnemonic and operand form of
/// each opcode byte, given VEX.L and VEX.W; `None` where the encoding is invalid.
#[verifier::opaque]
pub open spec fn map_0f_66(opc: u8, l: bool, w: bool) -> Option<(Opcode, VEXOperandCode)> {
    match opc {
        0x0a => any_l(Opcode::VROUNDSS, VEXOperandCode::G_V_E_xmm_imm8),
        0x0b => any_l(Opcode::VROUNDSD, VEXOperandCode::G_V_E_xmm_imm8),
        0x10 => by_l(l, Opcode::VMOVUPD, VEXOperandCode::G_E_ymm, VEXOperandCode::G_E_xmm),
        0x11 => by_l(l, Opcode::VMOVUPD, VEXOperandCode::G_E_ymm, VEXOperandCode::G_E_xmm),
        0x12 => xmm_only(l, Opcode::VMOVLPD, VEXOperandCode::G_V_M_xmm),
        0x13 => xmm_only(l, Opcode::VMOVLPD, VEXOperandCode::M_G_xmm),
        0x14 => by_l(l, Opcode::VUNPCKLPD, VEXOperandCode::G_V_E_ymm, VEXOperandCode::G_V_E_xmm),
        0x15 => by_l(l, Opcode::VUNPCKHPD, VEXOperandCode::G_V_E_ymm, VEXOperandCode::G_V_E_xmm),
        0x16 => xmm_only(l, Opcode::VMOVHPD, VEXOperandCode::G_V_M_xmm),
        0x17 => xmm_only(l, Opcode::VMOVHPD, VEXOperandCode::M_G_xmm),
        0x28 => by_l(l, Opcode::VMOVAPD, VEXOperandCode::G_E_ymm, VEXOperandCode::G_E_xmm),
        0x29 => by_l(l, Opcode::VMOVAPD, VEXOperandCode::E_G_ymm, VEXOperandCode::E_G_xmm),
        0x2b => by_l(l, Opcode::VMOVNTPD, VEXOperandCode::M_G_ymm, VEXOperandCode::M_G_xmm),
        0x2e => any_l(Opcode::VUCOMISD, VEXOperandCode::G_E_xmm),
        0x2f => any_l(Opcode::VCOMISD, VEXOperandCode::G_E_xmm),
        0x50 => by_l(l, Opcode::VMOVMSKPD, VEXOperandCode::G_U_ymm, VEXOperandCode::G_U_xmm),
        0x51 => by_l(l, Opcode::VSQRTPD, VEXOperandCode::G_E_ymm, VEXOperandCode::G_E_xmm),
        0x57 => by_l(l, Opcode::VXORPD, VEXOperandCode::G_V_E_ymm, VEXOperandCode::G_V_E_xmm),
        0x58 => by_l(l, Opcode::VADDPD, VEXOperandCode::G_V_E_ymm, VEXOperandCode::G_V_E_xmm),
        0x59 => by_l(l, Opcode::VMULPD, VEXOperandCode::G_V_E_ymm, VEXOperandCode::G_V_E_xmm),
        0x5a => by_l(l, Opcode::VCVTPD2PS, VEXOperandCode::G_xmm_E_ymm, VEXOperandCode::G_xmm_E_xmm),
        0x5b => by_l(l, Opcode::VCVTPS2DQ, VEXOperandCode::G_E_ymm, VEXOperandCode::G_E_xmm),
        0x5c => by_l(l, Opcode::VSUBPD, VEXOperandCode::G_V_E_ymm, VEXOperandCode::G_V_E_xmm),
        0x5d => by_l(l, Opcode::VMINPD, VEXOperandCode::G_V_E_ymm, VEXOperandCode::G_V_E_xmm),
        0x5e => by_l(l, Opcode::VDIVPD, VEXOperandCode::G_V_E_ymm, VEXOperandCode::G_V_E_xmm),
        0x5f => by_l(l, Opcode::VMAXPD, VEXOperandCode::G_V_E_ymm, VEXOperandCode::G_V_E_xmm),
        0x60 => by_l(l, Opcode::VPUNPCKLBW, VEXOperandCode::G_V_E_ymm, VEXOperandCode::G_V_E_xmm),
        0x61 => by_l(l, Opcode::VPUNPCKLWD, VEXOperandCode::G_V_E_ymm, VEXOperandCode::G_V_E_xmm),
        0x62 => by_l(l, Opcode::VPUNPCKLDQ, VEXOperandCode::G_V_E_ymm, VEXOperandCode::G_V_E_xmm),
        0x63 => by_l(l, Opcode::VPACKSSWB, VEXOperandCode::G_V_E_ymm, VEXOperandCode::G_V_E_xmm),
        0x64 => by_l(l, Opcode::VPCMPGTB, VEXOperandCode::G_V_E_ymm, VEXOperandCode::G_V_E_xmm),
        0x65 => by_l(l, Opcode::VPCMPGTW, VEXOperandCode::G_V_E_ymm, VEXOperandCode::G_V_E_xmm),
        0x66 => by_l(l, Opcode::VPCMPGTD, VEXOperandCode::G_V_E_ymm, VEXOperandCode::G_V_E_xmm),
        0x67 => by_l(l, Opcode::VPACKUSWB, VEXOperandCode::G_V_E_ymm, VEXOperandCode::G_V_E_xmm),
        0x68 => by_l(l, Opcode::VPUNPCKHBW, VEXOperandCode::G_V_E_ymm, VEXOperandCode::G_V_E_xmm),
        0x69 => by_l(l, Opcode::VPUNPCKHWD, VEXOperandCode::G_V_E_ymm, VEXOperandCode::G_V_E_xmm),
        0x6a => by_l(l, Opcode::VPUNPCKHDQ, VEXOperandCode::G_V_E_ymm, VEXOperandCode::G_V_E_xmm),
        0x6b => by_l(l, Opcode::VPACKSSDW, VEXOperandCode::G_V_E_ymm, VEXOperandCode::G_V_E_xmm),
        0x6c => by_l(l, Opcode::VPUNPCKLQDQ, VEXOperandCode::G_V_E_ymm, VEXOperandCode::G_V_E_xmm),
        0x6d => by_l(l, Opcode::VPUNPCKHQDQ, VEXOperandCode::G_V_E_ymm, VEXOperandCode::G_V_E_xmm),
        0x6e => if w { xmm_only(l, Opcode::VMOVQ, VEXOperandCode::G_xmm_Eq) } else { xmm_only(l, Opcode::VMOVD, VEXOperandCode::G_xmm_Ed) },
        0x6f => by_l(l, Opcode::VMOVDQA, VEXOperandCode::G_E_ymm, VEXOperandCode::G_E_xmm),
        0x70 => by_l(l, Opcode::VPSHUFD, VEXOperandCode::G_E_ymm_imm8, VEXOperandCode::G_E_xmm_imm8),
        0x71 => by_l(l, Opcode::Invalid, VEXOperandCode::VPS_71_L, VEXOperandCode::VPS_71),
        0x72 => by_l(l, Opcode::Invalid, VEXOperandCode::VPS_72_L, VEXOperandCode::VPS_72),
        0x73 => by_l(l, Opcode::Invalid, VEXOperandCode::VPS_73_L, VEXOperandCode::VPS_73),
        0x74 => by_l(l, Opcode::VPCMPEQB, VEXOperandCode::G_V_E_ymm, VEXOperandCode::G_V_E_xmm),
        0x75 => by_l(l, Opcode::VPCMPEQW, VEXOperandCode::G_V_E_ymm, VEXOperandCode::G_V_E_xmm),
        0x76 => by_l(l, Opcode::VPCMPEQD, VEXOperandCode::G_V_E_ymm, VEXOperandCode::G_V_E_xmm),
        0x7c => by_l(l, Opcode::VHADDPD, VEXOperandCode::G_V_E_ymm, VEXOperandCode::G_V_E_xmm),
        0x7d => by_l(l, Opcode::VHSUBPD, VEXOperandCode::G_V_E_ymm, VEXOperandCode::G_V_E_xmm),
        0x7e => if w { xmm_only(l, Opcode::VMOVQ, VEXOperandCode::Eq_G_xmm) } else { xmm_only(l, Opcode::VMOVD, VEXOperandCode::Ed_G_xmm) },
        0x7f => by_l(l, Opcode::VMOVDQA, VEXOperandCode::E_G_ymm, VEXOperandCode::E_G_xmm),
        0xc2 => by_l(l, Opcode::VCMPPD, VEXOperandCode::G_V_E_ymm, VEXOperandCode::G_V_E_xmm),
        0xc4 => xmm_only(l, Opcode::VPINSRW, VEXOperandCode::G_V_xmm_Ew_imm8),
        0xc5 => xmm_only(l, Opcode::VPEXTRW, VEXOperandCode::U_G_xmm_imm8),
        0xc6 => by_l(l, Opcode::VSHUFPD, VEXOperandCode::G_V_E_ymm, VEXOperandCode::G_V_E_xmm),
        0xd0 => by_l(l, Opcode::VADDSUBPD, VEXOperandCode::G_V_E_ymm, VEXOperandCode::G_V_E_xmm),
        0xd1 => by_l(l, Opcode::VPSRLW, VEXOperandCode::G_V_E_ymm, VEXOperandCode::G_V_E_xmm),
        0xd2 => by_l(l, Opcode::VPSRLD, VEXOperandCode::G_V_E_ymm, VEXOperandCode::G_V_E_xmm),
        0xd3 => by_l(l, Opcode::VPSRLQ, VEXOperandCode::G_V_E_ymm, VEXOperandCode::G_V_E_xmm),
        0xd4 => by_l(l, Opcode::VPADDQ, VEXOperandCode::G_V_E_ymm, VEXOperandCode::G_V_E_xmm),
        0xd5 => by_l(l, Opcode::VPMULLW, VEXOperandCode::G_V_E_ymm, VEXOperandCode::G_V_E_xmm),
        0xd6 => xmm_only(l, Opcode::VMOVQ, VEXOperandCode::G_E_xmm),
        0xd7 => by_l(l, Opcode::VPMOVMSKB, VEXOperandCode::U_G_ymm, VEXOperandCode::U_G_xmm),
        0xd8 => by_l(l, Opcode::VPSUBUSB, VEXOperandCode::G_V_E_ymm, VEXOperandCode::G_V_E_xmm),
        0xd9 => by_l(l, Opcode::VPSUBUSW, VEXOperandCode::G_V_E_ymm, VEXOperandCode::G_V_E_xmm),
        0xdb => by_l(l, Opcode::VPAND, VEXOperandCode::G_V_E_ymm, VEXOperandCode::G_V_E_xmm),
        0xdc => ymm_only(l, Opcode::VPADDUSB, VEXOperandCode::G_V_E_ymm),
        0xdd => by_l(l, Opcode::VPADDUSW, VEXOperandCode::G_V_E_ymm, VEXOperandCode::G_V_E_xmm),
        0xdf => by_l(l, Opcode::VPANDN, VEXOperandCode::G_V_E_ymm, VEXOperandCode::G_V_E_xmm),
        0xe0 => by_l(l, Opcode::VPAVGB, VEXOperandCode::G_V_E_ymm, VEXOperandCode::G_V_E_xmm),
        0xe1 => by_l(l, Opcode::VPSRAW, VEXOperandCode::G_V_ymm_E_xmm, VEXOperandCode::G_V_E_xmm),
        0xe2 => by_l(l, Opcode::VPSRAD, VEXOperandCode::G_V_ymm_E_xmm, VEXOperandCode::G_V_E_xmm),
        0xe3 => by_l(l, Opcode::VPAVGW, VEXOperandCode::G_V_E_ymm, VEXOperandCode::G_V_E_xmm),
        0xe4 => by_l(l, Opcode::VPMULHUW, VEXOperandCode::G_V_E_ymm, VEXOperandCode::G_V_E_xmm),
        0xe5 => by_l(l, Opcode::VPMULHW, VEXOperandCode::G_V_E_ymm, VEXOperandCode::G_V_E_xmm),
        0xe6 => by_l(l, Opcode::VCVTTPD2DQ, VEXOperandCode::G_xmm_E_ymm, VEXOperandCode::G_E_xmm),
        0xe7 => by_l(l, Opcode::VMOVNTDQ, VEXOperandCode::M_G_ymm, VEXOperandCode::M_G_xmm),
        0xe8 => by_l(l, Opcode::VPSUBSB, VEXOperandCode::G_V_E_ymm, VEXOperandCode::G_V_E_xmm),
        0xe9 => by_l(l, Opcode::VPSUBSW, VEXOperandCode::G_V_E_ymm, VEXOperandCode::G_V_E_xmm),
        0xeb => by_l(l, Opcode::VPOR, VEXOperandCode::G_V_E_ymm, VEXOperandCode::G_V_E_xmm),
        0xec => by_l(l, Opcode::VPADDSB, VEXOperandCode::G_V_E_ymm, VEXOperandCode::G_V_E_xmm),
        0xed => by_l(l, Opcode::VPADDSW, VEXOperandCode::G_V_E_ymm, VEXOperandCode::G_V_E_xmm),
        0xee => by_l(l, Opcode::VPMAXSW, VEXOperandCode::G_V_E_ymm, VEXOperandCode::G_V_E_xmm),
        0xef => by_l(l, Opcode::VPXOR, VEXOperandCode::G_V_E_ymm, VEXOperandCode::G_V_E_xmm),
        0xf1 => by_l(l, Opcode::VPSLLW, VEXOperandCode::G_V_ymm_E_xmm, VEXOperandCode::G_V_E_xmm),
        0xf2 => by_l(l, Opcode::VPSLLD, VEXOperandCode::G_V_ymm_E_xmm, VEXOperandCode::G_V_E_xmm),
        0xf3 => by_l(l, Opcode::VPSLLQ, VEXOperandCode::G_V_ymm_E_xmm, VEXOperandCode::G_V_E_xmm),
        0xf4 => by_l(l, Opcode::VPMULUDQ, VEXOperandCode::G_V_E_ymm, VEXOperandCode::G_V_E_xmm),
        0xf5 => by_l(l, Opcode::VPMADDWD, VEXOperandCode::G_V_E_ymm, VEXOperandCode::G_V_E_xmm),
        0xf6 => by_l(l, Opcode::VPSADBW, VEXOperandCode::G_V_E_ymm, VEXOperandCode::G_V_E_xmm),
        0xf7 => xmm_only(l, Opcode::VMASKMOVDQU, VEXOperandCode::G_E_xmm),
        0xf8 => by_l(l, Opcode::VPSUBB, VEXOperandCode::G_V_E_ymm, VEXOperandCode::G_V_E_xmm),
        0xf9 => by_l(l, Opcode::VPSUBW, VEXOperandCode::G_V_E_ymm, VEXOperandCode::G_V_E_xmm),
        0xfa => by_l(l, Opcode::VPSUBD, VEXOperandCode::G_V_E_ymm, VEXOperandCode::G_V_E_xmm),
        0xfb => by_l(l, Opcode::VPSUBQ, VEXOperandCode::G_V_E_ymm, VEXOperandCode::G_V_E_xmm),
        0xfc => by_l(l, Opcode::VPADDB, VEXOperandCode::G_V_E_ymm, VEXOperandCode::G_V_E_xmm),
        0xfd => by_l(l, Opcode::VPADDW, VEXOperandCode::G_V_E_ymm, VEXOperandCode::G_V_E_xmm),
        0xfe => by_l(l, Opcode::VPADDD, VEXOperandCode::G_V_E_ymm, VEXOperandCode::G_V_E_xmm),
        _ => None,
    }
}

/// Looks `opc` up in opcode map `0f` with implied `66`.
fn lookup_0f_66(opc: u8, l: bool, w: bool) -> (r: Option<(Opcode, VEXOperandCode)>)
    ensures
        r == map_0f_66(opc, l, w),
{
    reveal(map_0f_66);
    match opc {
        0x0a => any_l(Opcode::VROUNDSS, VEXOperandCode::G_V_E_xmm_imm8),
        0x0b => any_l(Opcode::VROUNDSD, VEXOperandCode::G_V_E_xmm_imm8),
        0x10 => by_l(l, Opcode::VMOVUPD, VEXOperandCode::G_E_ymm, VEXOperandCode::G_E_xmm),
        0x11 => by_l(l, Opcode::VMOVUPD, VEXOperandCode::G_E_ymm, VEXOperandCode::G_E_xmm),
        0x12 => xmm_only(l, Opcode::VMOVLPD, VEXOperandCode::G_V_M_xmm),
        0x13 => xmm_only(l, Opcode::VMOVLPD, VEXOperandCode::M_G_xmm),
        0x14 => by_l(l, Opcode::VUNPCKLPD, VEXOperandCode::G_V_E_ymm, VEXOperandCode::G_V_E_xmm),
        0x15 => by_l(l, Opcode::VUNPCKHPD, VEXOperandCode::G_V_E_ymm, VEXOperandCode::G_V_E_xmm),
        0x16 => xmm_only(l, Opcode::VMOVHPD, VEXOperandCode::G_V_M_xmm),
        0x17 => xmm_only(l, Opcode::VMOVHPD, VEXOperandCode::M_G_xmm),
        0x28 => by_l(l, Opcode::VMOVAPD, VEXOperandCode::G_E_ymm, VEXOperandCode::G_E_xmm),
        0x29 => by_l(l, Opcode::VMOVAPD, VEXOperandCode::E_G_ymm, VEXOperandCode::E_G_xmm),
        0x2b => by_l(l, Opcode::VMOVNTPD, VEXOperandCode::M_G_ymm, VEXOperandCode::M_G_xmm),
        0x2e => any_l(Opcode::VUCOMISD, VEXOperandCode::G_E_xmm),
        0x2f => any_l(Opcode::VCOMISD, VEXOperandCode::G_E_xmm),
        0x50 => by_l(l, Opcode::VMOVMSKPD, VEXOperandCode::G_U_ymm, VEXOperandCode::G_U_xmm),
        0x51 => by_l(l, Opcode::VSQRTPD, VEXOperandCode::G_E_ymm, VEXOperandCode::G_E_xmm),
        0x57 => by_l(l, Opcode::VXORPD, VEXOperandCode::G_V_E_ymm, VEXOperandCode::G_V_E_xmm),
        0x58 => by_l(l, Opcode::VADDPD, VEXOperandCode::G_V_E_ymm, VEXOperandCode::G_V_E_xmm),
        0x59 => by_l(l, Opcode::VMULPD, VEXOperandCode::G_V_E_ymm, VEXOperandCode::G_V_E_xmm),
        0x5a => by_l(l, Opcode::VCVTPD2PS, VEXOperandCode::G_xmm_E_ymm, VEXOperandCode::G_xmm_E_xmm),
        0x5b => by_l(l, Opcode::VCVTPS2DQ, VEXOperandCode::G_E_ymm, VEXOperandCode::G_E_xmm),
        0x5c => by_l(l, Opcode::VSUBPD, VEXOperandCode::G_V_E_ymm, VEXOperandCode::G_V_E_xmm),
        0x5d => by_l(l, Opcode::VMINPD, VEXOperandCode::G_V_E_ymm, VEXOperandCode::G_V_E_xmm),
        0x5e => by_l(l, Opcode::VDIVPD, VEXOperandCode::G_V_E_ymm, VEXOperandCode::G_V_E_xmm),
        0x5f => by_l(l, Opcode::VMAXPD, VEXOperandCode::G_V_E_ymm, VEXOperandCode::G_V_E_xmm),
        0x60 => by_l(l, Opcode::VPUNPCKLBW, VEXOperandCode::G_V_E_ymm, VEXOperandCode::G_V_E_xmm),
        0x61 => by_l(l, Opcode::VPUNPCKLWD, VEXOperandCode::G_V_E_ymm, VEXOperandCode::G_V_E_xmm),
        0x62 => by_l(l, Opcode::VPUNPCKLDQ, VEXOperandCode::G_V_E_ymm, VEXOperandCode::G_V_E_xmm),
        0x63 => by_l(l, Opcode::VPACKSSWB, VEXOperandCode::G_V_E_ymm, VEXOperandCode::G_V_E_xmm),
        0x64 => by_l(l, Opcode::VPCMPGTB, VEXOperandCode::G_V_E_ymm, VEXOperandCode::G_V_E_xmm),
        0x65 => by_l(l, Opcode::VPCMPGTW, VEXOperandCode::G_V_E_ymm, VEXOperandCode::G_V_E_xmm),
        0x66 => by_l(l, Opcode::VPCMPGTD, VEXOperandCode::G_V_E_ymm, VEXOperandCode::G_V_E_xmm),
        0x67 => by_l(l, Opcode::VPACKUSWB, VEXOperandCode::G_V_E_ymm, VEXOperandCode::G_V_E_xmm),
        0x68 => by_l(l, Opcode::VPUNPCKHBW, VEXOperandCode::G_V_E_ymm, VEXOperandCode::G_V_E_xmm),
        0x69 => by_l(l, Opcode::VPUNPCKHWD, VEXOperandCode::G_V_E_ymm, VEXOperandCode::G_V_E_xmm),
        0x6a => by_l(l, Opcode::VPUNPCKHDQ, VEXOperandCode::G_V_E_ymm, VEXOperandCode::G_V_E_xmm),
        0x6b => by_l(l, Opcode::VPACKSSDW, VEXOperandCode::G_V_E_ymm, VEXOperandCode::G_V_E_xmm),
        0x6c => by_l(l, Opcode::VPUNPCKLQDQ, VEXOperandCode::G_V_E_ymm, VEXOperandCode::G_V_E_xmm),
        0x6d => by_l(l, Opcode::VPUNPCKHQDQ, VEXOperandCode::G_V_E_ymm, VEXOperandCode::G_V_E_xmm),
        0x6e => if w { xmm_only(l, Opcode::VMOVQ, VEXOperandCode::G_xmm_Eq) } else { xmm_only(l, Opcode::VMOVD, VEXOperandCode::G_xmm_Ed) },
        0x6f => by_l(l, Opcode::VMOVDQA, VEXOperandCode::G_E_ymm, VEXOperandCode::G_E_xmm),
        0x70 => by_l(l, Opcode::VPSHUFD, VEXOperandCode::G_E_ymm_imm8, VEXOperandCode::G_E_xmm_imm8),
        0x71 => by_l(l, Opcode::Invalid, VEXOperandCode::VPS_71_L, VEXOperandCode::VPS_71),
        0x72 => by_l(l, Opcode::Invalid, VEXOperandCode::VPS_72_L, VEXOperandCode::VPS_72),
        0x73 => by_l(l, Opcode::Invalid, VEXOperandCode::VPS_73_L, VEXOperandCode::VPS_73),
        0x74 => by_l(l, Opcode::VPCMPEQB, VEXOperandCode::G_V_E_ymm, VEXOperandCode::G_V_E_xmm),
        0x75 => by_l(l, Opcode::VPCMPEQW, VEXOperandCode::G_V_E_ymm, VEXOperandCode::G_V_E_xmm),
        0x76 => by_l(l, Opcode::VPCMPEQD, VEXOperandCode::G_V_E_ymm, VEXOperandCode::G_V_E_xmm),
        0x7c => by_l(l, Opcode::VHADDPD, VEXOperandCode::G_V_E_ymm, VEXOperandCode::G_V_E_xmm),
        0x7d => by_l(l, Opcode::VHSUBPD, VEXOperandCode::G_V_E_ymm, VEXOperandCode::G_V_E_xmm),
        0x7e => if w { xmm_only(l, Opcode::VMOVQ, VEXOperandCode::Eq_G_xmm) } else { xmm_only(l, Opcode::VMOVD, VEXOperandCode::Ed_G_xmm) },
        0x7f => by_l(l, Opcode::VMOVDQA, VEXOperandCode::E_G_ymm, VEXOperandCode::E_G_xmm),
        0xc2 => by_l(l, Opcode::VCMPPD, VEXOperandCode::G_V_E_ymm, VEXOperandCode::G_V_E_xmm),
        0xc4 => xmm_only(l, Opcode::VPINSRW, VEXOperandCode::G_V_xmm_Ew_imm8),
        0xc5 => xmm_only(l, Opcode::VPEXTRW, VEXOperandCode::U_G_xmm_imm8),
        0xc6 => by_l(l, Opcode::VSHUFPD, VEXOperandCode::G_V_E_ymm, VEXOperandCode::G_V_E_xmm),
        0xd0 => by_l(l, Opcode::VADDSUBPD, VEXOperandCode::G_V_E_ymm, VEXOperandCode::G_V_E_xmm),
        0xd1 => by_l(l, Opcode::VPSRLW, VEXOperandCode::G_V_E_ymm, VEXOperandCode::G_V_E_xmm),
        0xd2 => by_l(l, Opcode::VPSRLD, VEXOperandCode::G_V_E_ymm, VEXOperandCode::G_V_E_xmm),
        0xd3 => by_l(l, Opcode::VPSRLQ, VEXOperandCode::G_V_E_ymm, VEXOperandCode::G_V_E_xmm),
        0xd4 => by_l(l, Opcode::VPADDQ, VEXOperandCode::G_V_E_ymm, VEXOperandCode::G_V_E_xmm),
        0xd5 => by_l(l, Opcode::VPMULLW, VEXOperandCode::G_V_E_ymm, VEXOperandCode::G_V_E_xmm),
        0xd6 => xmm_only(l, Opcode::VMOVQ, VEXOperandCode::G_E_xmm),
        0xd7 => by_l(l, Opcode::VPMOVMSKB, VEXOperandCode::U_G_ymm, VEXOperandCode::U_G_xmm),
        0xd8 => by_l(l, Opcode::VPSUBUSB, VEXOperandCode::G_V_E_ymm, VEXOperandCode::G_V_E_xmm),
        0xd9 => by_l(l, Opcode::VPSUBUSW, VEXOperandCode::G_V_E_ymm, VEXOperandCode::G_V_E_xmm),
        0xdb => by_l(l, Opcode::VPAND, VEXOperandCode::G_V_E_ymm, VEXOperandCode::G_V_E_xmm),
        0xdc => ymm_only(l, Opcode::VPADDUSB, VEXOperandCode::G_V_E_ymm),
        0xdd => by_l(l, Opcode::VPADDUSW, VEXOperandCode::G_V_E_ymm, VEXOperandCode::G_V_E_xmm),
        0xdf => by_l(l, Opcode::VPANDN, VEXOperandCode::G_V_E_ymm, VEXOperandCode::G_V_E_xmm),
        0xe0 => by_l(l, Opcode::VPAVGB, VEXOperandCode::G_V_E_ymm, VEXOperandCode::G_V_E_xmm),
        0xe1 => by_l(l, Opcode::VPSRAW, VEXOperandCode::G_V_ymm_E_xmm, VEXOperandCode::G_V_E_xmm),
        0xe2 => by_l(l, Opcode::VPSRAD, VEXOperandCode::G_V_ymm_E_xmm, VEXOperandCode::G_V_E_xmm),
        0xe3 => by_l(l, Opcode::VPAVGW, VEXOperandCode::G_V_E_ymm, VEXOperandCode::G_V_E_xmm),
        0xe4 => by_l(l, Opcode::VPMULHUW, VEXOperandCode::G_V_E_ymm, VEXOperandCode::G_V_E_xmm),
        0xe5 => by_l(l, Opcode::VPMULHW, VEXOperandCode::G_V_E_ymm, VEXOperandCode::G_V_E_xmm),
        0xe6 => by_l(l, Opcode::VCVTTPD2DQ, VEXOperandCode::G_xmm_E_ymm, VEXOperandCode::G_E_xmm),
        0xe7 => by_l(l, Opcode::VMOVNTDQ, VEXOperandCode::M_G_ymm, VEXOperandCode::M_G_xmm),
        0xe8 => by_l(l, Opcode::VPSUBSB, VEXOperandCode::G_V_E_ymm, VEXOperandCode::G_V_E_xmm),
        0xe9 => by_l(l, Opcode::VPSUBSW, VEXOperandCode::G_V_E_ymm, VEXOperandCode::G_V_E_xmm),
        0xeb => by_l(l, Opcode::VPOR, VEXOperandCode::G_V_E_ymm, VEXOperandCode::G_V_E_xmm),
        0xec => by_l(l, Opcode::VPADDSB, VEXOperandCode::G_V_E_ymm, VEXOperandCode::G_V_E_xmm),
        0xed => by_l(l, Opcode::VPADDSW, VEXOperandCode::G_V_E_ymm, VEXOperandCode::G_V_E_xmm),
        0xee => by_l(l, Opcode::VPMAXSW, VEXOperandCode::G_V_E_ymm, VEXOperandCode::G_V_E_xmm),
        0xef => by_l(l, Opcode::VPXOR, VEXOperandCode::G_V_E_ymm, VEXOperandCode::G_V_E_xmm),
        0xf1 => by_l(l, Opcode::VPSLLW, VEXOperandCode::G_V_ymm_E_xmm, VEXOperandCode::G_V_E_xmm),
        0xf2 => by_l(l, Opcode::VPSLLD, VEXOperandCode::G_V_ymm_E_xmm, VEXOperandCode::G_V_E_xmm),
        0xf3 => by_l(l, Opcode::VPSLLQ, VEXOperandCode::G_V_ymm_E_xmm, VEXOperandCode::G_V_E_xmm),
        0xf4 => by_l(l, Opcode::VPMULUDQ, VEXOperandCode::G_V_E_ymm, VEXOperandCode::G_V_E_xmm),
        0xf5 => by_l(l, Opcode::VPMADDWD, VEXOperandCode::G_V_E_ymm, VEXOperandCode::G_V_E_xmm),
        0xf6 => by_l(l, Opcode::VPSADBW, VEXOperandCode::G_V_E_ymm, VEXOperandCode::G_V_E_xmm),
        0xf7 => xmm_only(l, Opcode::VMASKMOVDQU, VEXOperandCode::G_E_xmm),
        0xf8 => by_l(l, Opcode::VPSUBB, VEXOperandCode::G_V_E_ymm, VEXOperandCode::G_V_E_xmm),
        0xf9 => by_l(l, Opcode::VPSUBW, VEXOperandCode::G_V_E_ymm, VEXOperandCode::G_V_E_xmm),
        0xfa => by_l(l, Opcode::VPSUBD, VEXOperandCode::G_V_E_ymm, VEXOperandCode::G_V_E_xmm),
        0xfb => by_l(l, Opcode::VPSUBQ, VEXOperandCode::G_V_E_ymm, VEXOperandCode::G_V_E_xmm),
        0xfc => by_l(l, Opcode::VPADDB, VEXOperandCode::G_V_E_ymm, VEXOperandCode::G_V_E_xmm),
        0xfd => by_l(l, Opcode::VPADDW, VEXOperandCode::G_V_E_ymm, VEXOperandCode::G_V_E_xmm),
        0xfe => by_l(l, Opcode::VPADDD, VEXOperandCode::G_V_E_ymm, VEXOperandCode::G_V_E_xmm),
        _ => None,
    }
}

/// Opcode map `0f` with implied `f2`: the mnemonic and operand form of
/// each opcode byte, given VEX.L and VEX.W; `None` where the encoding is invalid.
#[verifier::opaque]
pub open spec fn map_0f_f2(opc: u8, l: bool, w: bool) -> Option<(Opcode, VEXOperandCode)> {
    match opc {
        0x10 => any_l(Opcode::VMOVSD, VEXOperandCode::VMOVSD_10),
        0x11 => any_l(Opcode::VMOVSD, VEXOperandCode::VMOVSD_11),
        0x12 => by_l(l, Opcode::VMOVDDUP, VEXOperandCode::G_E_ymm, VEXOperandCode::G_E_xmm),
        0x2a => any_l(Opcode::VCVTSI2SD, VEXOperandCode::G_V_E_xmm),
        0x2c => any_l(Opcode::VCVTTSD2SI, VEXOperandCode::G_E_xmm),
        0x2d => any_l(Opcode::VCVTSD2SI, VEXOperandCode::G_E_xmm),
        0x51 => any_l(Opcode::VSQRTSD, VEXOperandCode::G_V_E_xmm),
        0x58 => any_l(Opcode::VADDSD, VEXOperandCode::G_V_E_xmm),
        0x59 => any_l(Opcode::VMULSD, VEXOperandCode::G_V_E_xmm),
        0x5a => any_l(Opcode::CVTSD2SS, VEXOperandCode::G_V_E_xmm),
        0x5c => any_l(Opcode::VSUBSD, VEXOperandCode::G_V_E_xmm),
        0x5d => any_l(Opcode::VMINSD, VEXOperandCode::G_V_E_xmm),
        0x5e => any_l(Opcode::VDIVSD, VEXOperandCode::G_V_E_xmm),
        0x5f => any_l(Opcode::VMAXSD, VEXOperandCode::G_V_E_xmm),
        0x70 => by_l(l, Opcode::VPSHUFLW, VEXOperandCode::G_E_ymm_imm8, VEXOperandCode::G_E_xmm_imm8),
        0x7c => by_l(l, Opcode::VHADDPS, VEXOperandCode::G_V_E_ymm, VEXOperandCode::G_V_E_xmm),
        0x7d => by_l(l, Opcode::VHSUBPS, VEXOperandCode::G_V_E_ymm, VEXOperandCode::G_V_E_xmm),
        0xc2 => any_l(Opcode::VCMPSD, VEXOperandCode::G_V_E_xmm_imm8),
        0xd0 => by_l(l, Opcode::VADDSUBPS, VEXOperandCode::G_V_E_ymm, VEXOperandCode::G_V_E_xmm),
        0xe6 => by_l(l, Opcode::VCVTPD2DQ, VEXOperandCode::G_xmm_E_ymm, VEXOperandCode::G_xmm_E_xmm),
        0xf0 => any_l(Opcode::VLDDQU, VEXOperandCode::G_M_ymm),
        _ => None,
    }
}

/// Looks `opc` up in opcode map `0f` with implied `f2`.
fn lookup_0f_f2(opc: u8, l: bool, w: bool) -> (r: Option<(Opcode, VEXOperandCode)>)
    ensures
        r == map_0f_f2(opc, l, w),
{
    reveal(map_0f_f2);
    match opc {
        0x10 => any_l(Opcode::VMOVSD, VEXOperandCode::VMOVSD_10),
        0x11 => any_l(Opcode::VMOVSD, VEXOperandCode::VMOVSD_11),
        0x12 => by_l(l, Opcode::VMOVDDUP, VEXOperandCode::G_E_ymm, VEXOperandCode::G_E_xmm),
        0x2a => any_l(Opcode::VCVTSI2SD, VEXOperandCode::G_V_E_xmm),
        0x2c => any_l(Opcode::VCVTTSD2SI, VEXOperandCode::G_E_xmm),
        0x2d => any_l(Opcode::VCVTSD2SI, VEXOperandCode::G_E_xmm),
        0x51 => any_l(Opcode::VSQRTSD, VEXOperandCode::G_V_E_xmm),
        0x58 => any_l(Opcode::VADDSD, VEXOperandCode::G_V_E_xmm),
        0x59 => any_l(Opcode::VMULSD, VEXOperandCode::G_V_E_xmm),
        0x5a => any_l(Opcode::CVTSD2SS, VEXOperandCode::G_V_E_xmm),
        0x5c => any_l(Opcode::VSUBSD, VEXOperandCode::G_V_E_xmm),
        0x5d => any_l(Opcode::VMINSD, VEXOperandCode::G_V_E_xmm),
        0x5e => any_l(Opcode::VDIVSD, VEXOperandCode::G_V_E_xmm),
        0x5f => any_l(Opcode::VMAXSD, VEXOperandCode::G_V_E_xmm),
        0x70 => by_l(l, Opcode::VPSHUFLW, VEXOperandCode::G_E_ymm_imm8, VEXOperandCode::G_E_xmm_imm8),
        0x7c => by_l(l, Opcode::VHADDPS, VEXOperandCode::G_V_E_ymm, VEXOperandCode::G_V_E_xmm),
        0x7d => by_l(l, Opcode::VHSUBPS, VEXOperandCode::G_V_E_ymm, VEXOperandCode::G_V_E_xmm),
        0xc2 => any_l(Opcode::VCMPSD, VEXOperandCode::G_V_E_xmm_imm8),
        0xd0 => by_l(l, Opcode::VADDSUBPS, VEXOperandCode::G_V_E_ymm, VEXOperandCode::G_V_E_xmm),
        0xe6 => by_l(l, Opcode::VCVTPD2DQ, VEXOperandCode::G_xmm_E_ymm, VEXOperandCode::G_xmm_E_xmm),
        0xf0 => any_l(Opcode::VLDDQU, VEXOperandCode::G_M_ymm),
        _ => None,
    }
}

/// Opcode map `0f` with implied `f3`: the mnemonic and operand form of
/// each opcode byte, given VEX.L and VEX.W; `None` where the encoding is invalid.
#[verifier::opaque]
pub open spec fn map_0f_f3(opc: u8, l: bool, w: bool) -> Option<(Opcode, VEXOperandCode)> {
    match opc {
        0x10 => any_l(Opcode::VMOVSS, VEXOperandCode::VMOVSS_10),
        0x11 => any_l(Opcode::VMOVSS, VEXOperandCode::VMOVSS_11),
        0x12 => by_l(l, Opcode::VMOVSLDUP, VEXOperandCode::G_E_ymm, VEXOperandCode::G_E_xmm),
        0x16 => by_l(l, Opcode::VMOVSHDUP, VEXOperandCode::G_E_ymm, VEXOperandCode::G_E_xmm),
        0x2a => any_l(Opcode::VCVTSI2SS, VEXOperandCode::G_V_E_xmm),
        0x2c => any_l(Opcode::VCVTTSS2SI, VEXOperandCode::G_E_xmm),
        0x2d => any_l(Opcode::VCVTSD2SI, VEXOperandCode::G_E_xmm),
        0x51 => any_l(Opcode::VSQRTSS, VEXOperandCode::G_V_E_xmm),
        0x52 => any_l(Opcode::VRSQRTSS, VEXOperandCode::G_V_E_xmm),
        0x53 => any_l(Opcode::VRCPSS, VEXOperandCode::G_V_E_xmm),
        0x58 => any_l(Opcode::VADDSS, VEXOperandCode::G_V_E_xmm),
        0x59 => any_l(Opcode::VMULSS, VEXOperandCode::G_V_E_xmm),
        0x5a => any_l(Opcode::VCVTSS2SD, VEXOperandCode::G_V_E_xmm),
        0x5b => by_l(l, Opcode::VCVTTPS2DQ, VEXOperandCode::G_ymm_E_ymm, VEXOperandCode::G_xmm_E_xmm),
        0x5c => any_l(Opcode::VSUBSS, VEXOperandCode::G_V_E_xmm),
        0x5d => any_l(Opcode::VMINSS, VEXOperandCode::G_V_E_xmm),
        0x5e => any_l(Opcode::VDIVSS, VEXOperandCode::G_V_E_xmm),
        0x5f => any_l(Opcode::VMAXSS, VEXOperandCode::G_V_E_xmm),
        0x6f => by_l(l, Opcode::VMOVDQU, VEXOperandCode::G_E_ymm, VEXOperandCode::G_E_xmm),
        0x70 => by_l(l, Opcode::VMOVSHDUP, VEXOperandCode::G_E_ymm_imm8, VEXOperandCode::G_E_xmm_imm8),
        0x7e => xmm_only(l, Opcode::VMOVQ, VEXOperandCode::G_E_xmm),
        0x7f => by_l(l, Opcode::VMOVDQU, VEXOperandCode::E_G_ymm, VEXOperandCode::E_G_xmm),
        0xc2 => any_l(Opcode::VCMPSS, VEXOperandCode::G_V_E_xmm_imm8),
        0xe6 => by_l(l, Opcode::VCVTDQ2PD, VEXOperandCode::G_ymm_E_xmm, VEXOperandCode::G_xmm_E_xmm),
        _ => None,
    }
}

/// Looks `opc` up in opcode map `0f` with implied `f3`.
fn lookup_0f_f3(opc: u8, l: bool, w: bool) -> (r: Option<(Opcode, VEXOperandCode)>)
    ensures
        r == map_0f_f3(opc, l, w),
{
    reveal(map_0f_f3);
    match opc {
        0x10 => any_l(Opcode::VMOVSS, VEXOperandCode::VMOVSS_10),
        0x11 => any_l(Opcode::VMOVSS, VEXOperandCode::VMOVSS_11),
        0x12 => by_l(l, Opcode::VMOVSLDUP, VEXOperandCode::G_E_ymm, VEXOperandCode::G_E_xmm),
        0x16 => by_l(l, Opcode::VMOVSHDUP, VEXOperandCode::G_E_ymm, VEXOperandCode::G_E_xmm),
        0x2a => any_l(Opcode::VCVTSI2SS, VEXOperandCode::G_V_E_xmm),
        0x2c => any_l(Opcode::VCVTTSS2SI, VEXOperandCode::G_E_xmm),
        0x2d => any_l(Opcode::VCVTSD2SI, VEXOperandCode::G_E_xmm),
        0x51 => any_l(Opcode::VSQRTSS, VEXOperandCode::G_V_E_xmm),
        0x52 => any_l(Opcode::VRSQRTSS, VEXOperandCode::G_V_E_xmm),
        0x53 => any_l(Opcode::VRCPSS, VEXOperandCode::G_V_E_xmm),
        0x58 => any_l(Opcode::VADDSS, VEXOperandCode::G_V_E_xmm),
        0x59 => any_l(Opcode::VMULSS, VEXOperandCode::G_V_E_xmm),
        0x5a => any_l(Opcode::VCVTSS2SD, VEXOperandCode::G_V_E_xmm),
        0x5b => by_l(l, Opcode::VCVTTPS2DQ, VEXOperandCode::G_ymm_E_ymm, VEXOperandCode::G_xmm_E_xmm),
        0x5c => any_l(Opcode::VSUBSS, VEXOperandCode::G_V_E_xmm),
        0x5d => any_l(Opcode::VMINSS, VEXOperandCode::G_V_E_xmm),
        0x5e => any_l(Opcode::VDIVSS, VEXOperandCode::G_V_E_xmm),
        0x5f => any_l(Opcode::VMAXSS, VEXOperandCode::G_V_E_xmm),
        0x6f => by_l(l, Opcode::VMOVDQU, VEXOperandCode::G_E_ymm, VEXOperandCode::G_E_xmm),
        0x70 => by_l(l, Opcode::VMOVSHDUP, VEXOperandCode::G_E_ymm_imm8, VEXOperandCode::G_E_xmm_imm8),
        0x7e => xmm_only(l, Opcode::VMOVQ, VEXOperandCode::G_E_xmm),
        0x7f => by_l(l, Opcode::VMOVDQU, VEXOperandCode::E_G_ymm, VEXOperandCode::E_G_xmm),
        0xc2 => any_l(Opcode::VCMPSS, VEXOperandCode::G_V_E_xmm_imm8),
        0xe6 => by_l(l, Opcode::VCVTDQ2PD, VEXOperandCode::G_ymm_E_xmm, VEXOperandCode::G_xmm_E_xmm),
        _ => None,
    }
}

/// Opcode map `0f38` with implied `66`: the mnemonic and operand form of
/// each opcode byte, given VEX.L and VEX.W; `None` where the encoding is invalid.
#[verifier::opaque]
pub open spec fn map_0f38_66(opc: u8, l: bool, w: bool) -> Option<(Opcode, VEXOperandCode)> {
    match opc {
        0x00 => by_l(l, Opcode::VPSHUFB, VEXOperandCode::G_V_E_ymm, VEXOperandCode::G_V_E_xmm),
        0x01 => by_l(l, Opcode::VPHADDW, VEXOperandCode::G_V_E_ymm, VEXOperandCode::G_V_E_xmm),
        0x02 => by_l(l, Opcode::VPHADDD, VEXOperandCode::G_V_E_ymm, VEXOperandCode::G_V_E_xmm),
        0x03 => by_l(l, Opcode::VPHADDSW, VEXOperandCode::G_V_E_ymm, VEXOperandCode::G_V_E_xmm),
        0x04 => by_l(l, Opcode::VPHADDUBSW, VEXOperandCode::G_V_E_ymm, VEXOperandCode::G_V_E_xmm),
        0x05 => by_l(l, Opcode::VPHSUBW, VEXOperandCode::G_V_E_ymm, VEXOperandCode::G_V_E_xmm),
        0x06 => by_l(l, Opcode::VPHSUBD, VEXOperandCode::G_V_E_ymm, VEXOperandCode::G_V_E_xmm),
        0x07 => by_l(l, Opcode::VPHSUBSW, VEXOperandCode::G_V_E_ymm, VEXOperandCode::G_V_E_xmm),
        0x08 => by_l(l, Opcode::VPSIGNB, VEXOperandCode::G_V_E_ymm, VEXOperandCode::G_V_E_xmm),
        0x09 => by_l(l, Opcode::VPSIGNW, VEXOperandCode::G_V_E_ymm, VEXOperandCode::G_V_E_xmm),
        0x0a => by_l(l, Opcode::VPSIGND, VEXOperandCode::G_V_E_ymm, VEXOperandCode::G_V_E_xmm),
        0x0b => by_l(l, Opcode::VPMULHRSW, VEXOperandCode::G_V_E_ymm, VEXOperandCode::G_V_E_xmm),
        0x0c => by_l(l, Opcode::VPERMILPS, VEXOperandCode::G_V_E_ymm, VEXOperandCode::G_V_E_xmm),
        0x0d => by_l(l, Opcode::VPERMILPD, VEXOperandCode::G_V_E_ymm, VEXOperandCode::G_V_E_xmm),
        0x0e => by_l(l, Opcode::VTESTPS, VEXOperandCode::G_E_ymm, VEXOperandCode::G_E_xmm),
        0x0f => by_l(l, Opcode::VTESTPD, VEXOperandCode::G_E_ymm, VEXOperandCode::G_E_xmm),
        0x13 => by_l(l, Opcode::VCVTPH2PS, VEXOperandCode::G_E_ymm, VEXOperandCode::G_E_xmm),
        0x16 => ymm_only(l, Opcode::VPERMPS, VEXOperandCode::G_V_E_xmm),
        0x17 => by_l(l, Opcode::VPTEST, VEXOperandCode::G_E_ymm, VEXOperandCode::G_E_xmm),
        0x18 => by_l(l, Opcode::VBROADCASTSS, VEXOperandCode::G_E_ymm, VEXOperandCode::G_E_xmm),
        0x19 => by_l(l, Opcode::VBROADCASTSD, VEXOperandCode::G_E_ymm, VEXOperandCode::G_E_xmm),
        0x1a => ymm_only(l, Opcode::VBROADCASTF128, VEXOperandCode::G_M_ymm),
        0x1c => by_l(l, Opcode::VPABSB, VEXOperandCode::G_E_ymm, VEXOperandCode::G_E_xmm),
        0x1d => by_l(l, Opcode::VPABSW, VEXOperandCode::G_E_ymm, VEXOperandCode::G_E_xmm),
        0x1e => by_l(l, Opcode::VPABSD, VEXOperandCode::G_E_ymm, VEXOperandCode::G_E_xmm),
        0x20 => by_l(l, Opcode::VPMOVSXBW, VEXOperandCode::G_E_ymm, VEXOperandCode::G_E_xmm),
        0x21 => by_l(l, Opcode::VPMOVSXBD, VEXOperandCode::G_E_ymm, VEXOperandCode::G_E_xmm),
        0x22 => by_l(l, Opcode::VPMOVSXBQ, VEXOperandCode::G_E_ymm, VEXOperandCode::G_E_xmm),
        0x23 => by_l(l, Opcode::VPMOVSXWD, VEXOperandCode::G_E_ymm, VEXOperandCode::G_E_xmm),
        0x24 => by_l(l, Opcode::VPMOVSXWQ, VEXOperandCode::G_E_ymm, VEXOperandCode::G_E_xmm),
        0x25 => by_l(l, Opcode::VPMOVSXDQ, VEXOperandCode::G_E_ymm, VEXOperandCode::G_E_xmm),
        0x28 => by_l(l, Opcode::VPMULDQ, VEXOperandCode::G_V_E_ymm, VEXOperandCode::G_V_E_xmm),
        0x29 => by_l(l, Opcode::VPCMPEQQ, VEXOperandCode::G_V_E_ymm, VEXOperandCode::G_V_E_xmm),
        0x2a => by_l(l, Opcode::VMOVNTDQA, VEXOperandCode::G_M_ymm, VEXOperandCode::G_M_xmm),
        0x2c => by_l(l, Opcode::VMASKMOVPS, VEXOperandCode::G_V_M_ymm, VEXOperandCode::G_V_M_xmm),
        0x2d => by_l(l, Opcode::VMASKMOVPD, VEXOperandCode::G_V_M_ymm, VEXOperandCode::G_V_M_xmm),
        0x2e => by_l(l, Opcode::VMASKMOVPS, VEXOperandCode::M_V_G_ymm, VEXOperandCode::M_V_G_xmm),
        0x2f => by_l(l, Opcode::VMASKMOVPD, VEXOperandCode::M_V_G_ymm, VEXOperandCode::M_V_G_xmm),
        0x30 => by_l(l, Opcode::VPMOVZXBW, VEXOperandCode::G_E_ymm, VEXOperandCode::G_E_xmm),
        0x31 => by_l(l, Opcode::VPMOVZXBD, VEXOperandCode::G_E_ymm, VEXOperandCode::G_E_xmm),
        0x32 => by_l(l, Opcode::VPMOVZXBQ, VEXOperandCode::G_E_ymm, VEXOperandCode::G_E_xmm),
        0x33 => by_l(l, Opcode::VPMOVZXWD, VEXOperandCode::G_E_ymm, VEXOperandCode::G_E_xmm),
        0x34 => by_l(l, Opcode::VPMOVZXWQ, VEXOperandCode::G_E_ymm, VEXOperandCode::G_E_xmm),
        0x35 => ymm_only(l, Opcode::VPMOVZXDQ, VEXOperandCode::G_E_ymm),
        0x36 => ymm_only(l, Opcode::VPERMD, VEXOperandCode::G_V_E_ymm),
        0x37 => by_l(l, Opcode::VPCMPGTQ, VEXOperandCode::G_V_E_ymm, VEXOperandCode::G_V_E_xmm),
        0x39 => by_l(l, Opcode::VPMINSD, VEXOperandCode::G_V_E_ymm, VEXOperandCode::G_V_E_xmm),
        0x3b => by_l(l, Opcode::VPMINUD, VEXOperandCode::G_V_E_ymm, VEXOperandCode::G_V_E_xmm),
        0x3c => by_l(l, Opcode::VPMAXSB, VEXOperandCode::G_V_E_ymm, VEXOperandCode::G_V_E_xmm),
        0x3d => by_l(l, Opcode::VPMAXSD, VEXOperandCode::G_V_E_ymm, VEXOperandCode::G_V_E_xmm),
        0x3f => by_l(l, Opcode::VPMAXUD, VEXOperandCode::G_V_E_ymm, VEXOperandCode::G_V_E_xmm),
        0x40 => by_l(l, Opcode::VPMULLD, VEXOperandCode::G_V_E_ymm, VEXOperandCode::G_V_E_xmm),
        0x41 => xmm_only(l, Opcode::VPHMINPOSUW, VEXOperandCode::G_E_xmm),
        0x45 => if w { by_l(l, Opcode::VPSRLVQ, VEXOperandCode::G_V_E_ymm, VEXOperandCode::G_V_E_xmm) } else { by_l(l, Opcode::VPSRLVD, VEXOperandCode::G_V_E_ymm, VEXOperandCode::G_V_E_xmm) },
        0x46 => by_l(l, Opcode::VPSRAVD, VEXOperandCode::G_V_E_ymm, VEXOperandCode::G_V_E_xmm),
        0x47 => if w { by_l(l, Opcode::VPSLLVQ, VEXOperandCode::G_V_E_ymm, VEXOperandCode::G_V_E_xmm) } else { by_l(l, Opcode::VPSLLVD, VEXOperandCode::G_V_E_ymm, VEXOperandCode::G_V_E_xmm) },
        0x58 => by_l(l, Opcode::VPBROADCASTD, VEXOperandCode::G_E_ymm, VEXOperandCode::G_E_xmm),
        0x59 => by_l(l, Opcode::VPBROADCASTQ, VEXOperandCode::G_E_ymm, VEXOperandCode::G_E_xmm),
        0x5a => ymm_only(l, Opcode::VBROADCASTI128, VEXOperandCode::G_E_ymm),
        0x78 => any_l(Opcode::VPBROADCASTB, VEXOperandCode::G_E_ymm),
        0x79 => any_l(Opcode::VPBROADCASTW, VEXOperandCode::G_E_ymm),
        0x8c => if w { any_l(Opcode::VPMASKMOVD, VEXOperandCode::G_V_E_ymm) } else { any_l(Opcode::VPMASKMOVQ, VEXOperandCode::G_V_E_ymm) },
        0x8e => if w { by_l(l, Opcode::VPMASKMOVD, VEXOperandCode::E_V_G_ymm, VEXOperandCode::E_V_G_xmm) } else { by_l(l, Opcode::VPMASKMOVQ, VEXOperandCode::E_V_G_ymm, VEXOperandCode::E_V_G_xmm) },
        0x90 => if w { by_l(l, Opcode::VPGATHERDQ, VEXOperandCode::G_Ey_V_ymm, VEXOperandCode::G_Ex_V_xmm) } else { by_l(l, Opcode::VPGATHERDD, VEXOperandCode::G_Ey_V_ymm, VEXOperandCode::G_Ex_V_xmm) },
        0x91 => if w { by_l(l, Opcode::VPGATHERQQ, VEXOperandCode::G_Ey_V_ymm, VEXOperandCode::G_Ex_V_xmm) } else { by_l(l, Opcode::VPGATHERQD, VEXOperandCode::G_Ey_V_ymm, VEXOperandCode::G_Ex_V_xmm) },
        0x92 => if w { by_l(l, Opcode::VGATHERDPD, VEXOperandCode::G_E_ymm_imm8, VEXOperandCode::G_E_xmm_imm8) } else { by_l(l, Opcode::VGATHERDPS, VEXOperandCode::G_E_ymm_imm8, VEXOperandCode::G_E_xmm_imm8) },
        0x93 => if w { by_l(l, Opcode::VGATHERQPD, VEXOperandCode::G_E_ymm_imm8, VEXOperandCode::G_E_xmm_imm8) } else { by_l(l, Opcode::VGATHERQPS, VEXOperandCode::G_E_ymm_imm8, VEXOperandCode::G_E_xmm_imm8) },
        0x96 => if w { any_l(Opcode::VFMADDSUB132PD, VEXOperandCode::G_V_E_ymm) } else { any_l(Opcode::VFMADDSUB132PS, VEXOperandCode::G_V_E_ymm) },
        0x97 => if w { any_l(Opcode::VFMSUBADD132PD, VEXOperandCode::G_V_E_ymm) } else { any_l(Opcode::VFMSUBADD132PS, VEXOperandCode::G_V_E_ymm) },
        0x98 => if w { any_l(Opcode::VFMADD132PD, VEXOperandCode::G_V_E_ymm) } else { any_l(Opcode::VFMADD132PS, VEXOperandCode::G_V_E_ymm) },
        0x99 => if w { any_l(Opcode::VFMADD132SD, VEXOperandCode::G_V_E_xmm) } else { any_l(Opcode::VFMADD132SS, VEXOperandCode::G_V_E_xmm) },
        0x9a => if w { any_l(Opcode::VFMSUB132PD, VEXOperandCode::G_V_E_ymm) } else { any_l(Opcode::VFMSUB132PS, VEXOperandCode::G_V_E_ymm) },
        0x9b => if w { any_l(Opcode::VFMSUB132SD, VEXOperandCode::G_V_E_xmm) } else { any_l(Opcode::VFMSUB132SS, VEXOperandCode::G_V_E_xmm) },
        0x9c => if w { any_l(Opcode::VFNMADD132PD, VEXOperandCode::G_V_E_ymm) } else { any_l(Opcode::VFNMADD132PS, VEXOperandCode::G_V_E_ymm) },
        0x9d => if w { any_l(Opcode::VFNMADD132SD, VEXOperandCode::G_V_E_xmm) } else { any_l(Opcode::VFNMADD132SS, VEXOperandCode::G_V_E_xmm) },
        0x9e => if w { any_l(Opcode::VFNMSUB132PD, VEXOperandCode::G_V_E_ymm) } else { any_l(Opcode::VFNMSUB132PS, VEXOperandCode::G_V_E_ymm) },
        0x9f => if w { any_l(Opcode::VFNMSUB132SD, VEXOperandCode::G_V_E_xmm) } else { any_l(Opcode::VFNMSUB132SS, VEXOperandCode::G_V_E_xmm) },
        0xa6 => if w { any_l(Opcode::VFMADDSUB213PD, VEXOperandCode::G_V_E_ymm) } else { any_l(Opcode::VFMADDSUB213PS, VEXOperandCode::G_V_E_ymm) },
        0xa7 => if w { any_l(Opcode::VFMSUBADD213PD, VEXOperandCode::G_V_E_ymm) } else { any_l(Opcode::VFMSUBADD213PS, VEXOperandCode::G_V_E_ymm) },
        0xa8 => if w { any_l(Opcode::VFMADD213PD, VEXOperandCode::G_V_E_ymm) } else { any_l(Opcode::VFMADD213PS, VEXOperandCode::G_V_E_ymm) },
        0xa9 => if w { any_l(Opcode::VFMADD231SD, VEXOperandCode::G_V_E_xmm) } else { any_l(Opcode::VFMADD231SS, VEXOperandCode::G_V_E_xmm) },
        0xaa => if w { any_l(Opcode::VFMSUB213PD, VEXOperandCode::G_V_E_ymm) } else { any_l(Opcode::VFMSUB213PS, VEXOperandCode::G_V_E_ymm) },
        0xab => if w { any_l(Opcode::VFMSUB231SD, VEXOperandCode::G_V_E_xmm) } else { any_l(Opcode::VFMSUB231SS, VEXOperandCode::G_V_E_xmm) },
        0xac => if w { any_l(Opcode::VFNMADD213PD, VEXOperandCode::G_V_E_ymm) } else { any_l(Opcode::VFNMADD213PS, VEXOperandCode::G_V_E_ymm) },
        0xad => if w { any_l(Opcode::VFNMADD213SD, VEXOperandCode::G_V_E_xmm) } else { any_l(Opcode::VFNMADD213SS, VEXOperandCode::G_V_E_xmm) },
        0xae => if w { any_l(Opcode::VFNMSUB213PD, VEXOperandCode::G_V_E_ymm) } else { any_l(Opcode::VFNMSUB213PS, VEXOperandCode::G_V_E_ymm) },
        0xaf => if w { any_l(Opcode::VFNMSUB213SD, VEXOperandCode::G_V_E_xmm) } else { any_l(Opcode::VFNMSUB213SS, VEXOperandCode::G_V_E_xmm) },
        0xb6 => if w { any_l(Opcode::VFMADDSUB231PD, VEXOperandCode::G_V_E_ymm) } else { any_l(Opcode::VFMADDSUB231PS, VEXOperandCode::G_V_E_ymm) },
        0xb7 => if w { any_l(Opcode::VFMSUBADD231PD, VEXOperandCode::G_V_E_ymm) } else { any_l(Opcode::VFMSUBADD231PS, VEXOperandCode::G_V_E_ymm) },
        0xb8 => if w { any_l(Opcode::VFMADD231PD, VEXOperandCode::G_V_E_ymm) } else { any_l(Opcode::VFMADD231PS, VEXOperandCode::G_V_E_ymm) },
        0xb9 => if w { any_l(Opcode::VFMADD231SD, VEXOperandCode::G_V_E_xmm) } else { any_l(Opcode::VFMADD231SS, VEXOperandCode::G_V_E_xmm) },
        0xba => if w { any_l(Opcode::VFMSUB231PD, VEXOperandCode::G_V_E_ymm) } else { any_l(Opcode::VFMSUB231PS, VEXOperandCode::G_V_E_ymm) },
        0xbb => if w { any_l(Opcode::VFMSUB231SD, VEXOperandCode::G_V_E_xmm) } else { any_l(Opcode::VFMSUB231SS, VEXOperandCode::G_V_E_xmm) },
        0xbc => if w { any_l(Opcode::VFNMADD231PD, VEXOperandCode::G_V_E_ymm) } else { any_l(Opcode::VFNMADD231PS, VEXOperandCode::G_V_E_ymm) },
        0xbd => if w { any_l(Opcode::VFNMADD231SD, VEXOperandCode::G_V_E_xmm) } else { any_l(Opcode::VFNMADD231SS, VEXOperandCode::G_V_E_xmm) },
        0xbe => if w { any_l(Opcode::VFNMSUB231PD, VEXOperandCode::G_V_E_ymm) } else { any_l(Opcode::VFNMSUB231PS, VEXOperandCode::G_V_E_ymm) },
        0xbf => if w { any_l(Opcode::VFNMSUB231SD, VEXOperandCode::G_V_E_xmm) } else { any_l(Opcode::VFNMSUB231SS, VEXOperandCode::G_V_E_xmm) },
        0xdb => xmm_only(l, Opcode::VAESIMC, VEXOperandCode::G_E_xmm),
        0xdc => xmm_only(l, Opcode::VAESENC, VEXOperandCode::G_V_E_xmm),
        0xdd => xmm_only(l, Opcode::VAESENCLAST, VEXOperandCode::G_V_E_xmm),
        0xde => xmm_only(l, Opcode::VAESDEC, VEXOperandCode::G_V_E_xmm),
        0xdf => xmm_only(l, Opcode::VAESDECLAST, VEXOperandCode::G_V_E_xmm),
        _ => None,
    }
}

/// Looks `opc` up in opcode map `0f38` with implied `66`.
fn lookup_0f38_66(opc: u8, l: bool, w: bool) -> (r: Option<(Opcode, VEXOperandCode)>)
    ensures
        r == map_0f38_66(opc, l, w),
{
    reveal(map_0f38_66);
    match opc {
        0x00 => by_l(l, Opcode::VPSHUFB, VEXOperandCode::G_V_E_ymm, VEXOperandCode::G_V_E_xmm),
        0x01 => by_l(l, Opcode::VPHADDW, VEXOperandCode::G_V_E_ymm, VEXOperandCode::G_V_E_xmm),
        0x02 => by_l(l, Opcode::VPHADDD, VEXOperandCode::G_V_E_ymm, VEXOperandCode::G_V_E_xmm),
        0x03 => by_l(l, Opcode::VPHADDSW, VEXOperandCode::G_V_E_ymm, VEXOperandCode::G_V_E_xmm),
        0x04 => by_l(l, Opcode::VPHADDUBSW, VEXOperandCode::G_V_E_ymm, VEXOperandCode::G_V_E_xmm),
        0x05 => by_l(l, Opcode::VPHSUBW, VEXOperandCode::G_V_E_ymm, VEXOperandCode::G_V_E_xmm),
        0x06 => by_l(l, Opcode::VPHSUBD, VEXOperandCode::G_V_E_ymm, VEXOperandCode::G_V_E_xmm),
        0x07 => by_l(l, Opcode::VPHSUBSW, VEXOperandCode::G_V_E_ymm, VEXOperandCode::G_V_E_xmm),
        0x08 => by_l(l, Opcode::VPSIGNB, VEXOperandCode::G_V_E_ymm, VEXOperandCode::G_V_E_xmm),
        0x09 => by_l(l, Opcode::VPSIGNW, VEXOperandCode::G_V_E_ymm, VEXOperandCode::G_V_E_xmm),
        0x0a => by_l(l, Opcode::VPSIGND, VEXOperandCode::G_V_E_ymm, VEXOperandCode::G_V_E_xmm),
        0x0b => by_l(l, Opcode::VPMULHRSW, VEXOperandCode::G_V_E_ymm, VEXOperandCode::G_V_E_xmm),
        0x0c => by_l(l, Opcode::VPERMILPS, VEXOperandCode::G_V_E_ymm, VEXOperandCode::G_V_E_xmm),
        0x0d => by_l(l, Opcode::VPERMILPD, VEXOperandCode::G_V_E_ymm, VEXOperandCode::G_V_E_xmm),
        0x0e => by_l(l, Opcode::VTESTPS, VEXOperandCode::G_E_ymm, VEXOperandCode::G_E_xmm),
        0x0f => by_l(l, Opcode::VTESTPD, VEXOperandCode::G_E_ymm, VEXOperandCode::G_E_xmm),
        0x13 => by_l(l, Opcode::VCVTPH2PS, VEXOperandCode::G_E_ymm, VEXOperandCode::G_E_xmm),
        0x16 => ymm_only(l, Opcode::VPERMPS, VEXOperandCode::G_V_E_xmm),
        0x17 => by_l(l, Opcode::VPTEST, VEXOperandCode::G_E_ymm, VEXOperandCode::G_E_xmm),
        0x18 => by_l(l, Opcode::VBROADCASTSS, VEXOperandCode::G_E_ymm, VEXOperandCode::G_E_xmm),
        0x19 => by_l(l, Opcode::VBROADCASTSD, VEXOperandCode::G_E_ymm, VEXOperandCode::G_E_xmm),
        0x1a => ymm_only(l, Opcode::VBROADCASTF128, VEXOperandCode::G_M_ymm),
        0x1c => by_l(l, Opcode::VPABSB, VEXOperandCode::G_E_ymm, VEXOperandCode::G_E_xmm),
        0x1d => by_l(l, Opcode::VPABSW, VEXOperandCode::G_E_ymm, VEXOperandCode::G_E_xmm),
        0x1e => by_l(l, Opcode::VPABSD, VEXOperandCode::G_E_ymm, VEXOperandCode::G_E_xmm),
        0x20 => by_l(l, Opcode::VPMOVSXBW, VEXOperandCode::G_E_ymm, VEXOperandCode::G_E_xmm),
        0x21 => by_l(l, Opcode::VPMOVSXBD, VEXOperandCode::G_E_ymm, VEXOperandCode::G_E_xmm),
        0x22 => by_l(l, Opcode::VPMOVSXBQ, VEXOperandCode::G_E_ymm, VEXOperandCode::G_E_xmm),
        0x23 => by_l(l, Opcode::VPMOVSXWD, VEXOperandCode::G_E_ymm, VEXOperandCode::G_E_xmm),
        0x24 => by_l(l, Opcode::VPMOVSXWQ, VEXOperandCode::G_E_ymm, VEXOperandCode::G_E_xmm),
        0x25 => by_l(l, Opcode::VPMOVSXDQ, VEXOperandCode::G_E_ymm, VEXOperandCode::G_E_xmm),
        0x28 => by_l(l, Opcode::VPMULDQ, VEXOperandCode::G_V_E_ymm, VEXOperandCode::G_V_E_xmm),
        0x29 => by_l(l, Opcode::VPCMPEQQ, VEXOperandCode::G_V_E_ymm, VEXOperandCode::G_V_E_xmm),
        0x2a => by_l(l, Opcode::VMOVNTDQA, VEXOperandCode::G_M_ymm, VEXOperandCode::G_M_xmm),
        0x2c => by_l(l, Opcode::VMASKMOVPS, VEXOperandCode::G_V_M_ymm, VEXOperandCode::G_V_M_xmm),
        0x2d => by_l(l, Opcode::VMASKMOVPD, VEXOperandCode::G_V_M_ymm, VEXOperandCode::G_V_M_xmm),
        0x2e => by_l(l, Opcode::VMASKMOVPS, VEXOperandCode::M_V_G_ymm, VEXOperandCode::M_V_G_xmm),
        0x2f => by_l(l, Opcode::VMASKMOVPD, VEXOperandCode::M_V_G_ymm, VEXOperandCode::M_V_G_xmm),
        0x30 => by_l(l, Opcode::VPMOVZXBW, VEXOperandCode::G_E_ymm, VEXOperandCode::G_E_xmm),
        0x31 => by_l(l, Opcode::VPMOVZXBD, VEXOperandCode::G_E_ymm, VEXOperandCode::G_E_xmm),
        0x32 => by_l(l, Opcode::VPMOVZXBQ, VEXOperandCode::G_E_ymm, VEXOperandCode::G_E_xmm),
        0x33 => by_l(l, Opcode::VPMOVZXWD, VEXOperandCode::G_E_ymm, VEXOperandCode::G_E_xmm),
        0x34 => by_l(l, Opcode::VPMOVZXWQ, VEXOperandCode::G_E_ymm, VEXOperandCode::G_E_xmm),
        0x35 => ymm_only(l, Opcode::VPMOVZXDQ, VEXOperandCode::G_E_ymm),
        0x36 => ymm_only(l, Opcode::VPERMD, VEXOperandCode::G_V_E_ymm),
        0x37 => by_l(l, Opcode::VPCMPGTQ, VEXOperandCode::G_V_E_ymm, VEXOperandCode::G_V_E_xmm),
        0x39 => by_l(l, Opcode::VPMINSD, VEXOperandCode::G_V_E_ymm, VEXOperandCode::G_V_E_xmm),
        0x3b => by_l(l, Opcode::VPMINUD, VEXOperandCode::G_V_E_ymm, VEXOperandCode::G_V_E_xmm),
        0x3c => by_l(l, Opcode::VPMAXSB, VEXOperandCode::G_V_E_ymm, VEXOperandCode::G_V_E_xmm),
        0x3d => by_l(l, Opcode::VPMAXSD, VEXOperandCode::G_V_E_ymm, VEXOperandCode::G_V_E_xmm),
        0x3f => by_l(l, Opcode::VPMAXUD, VEXOperandCode::G_V_E_ymm, VEXOperandCode::G_V_E_xmm),
        0x40 => by_l(l, Opcode::VPMULLD, VEXOperandCode::G_V_E_ymm, VEXOperandCode::G_V_E_xmm),
        0x41 => xmm_only(l, Opcode::VPHMINPOSUW, VEXOperandCode::G_E_xmm),
        0x45 => if w { by_l(l, Opcode::VPSRLVQ, VEXOperandCode::G_V_E_ymm, VEXOperandCode::G_V_E_xmm) } else { by_l(l, Opcode::VPSRLVD, VEXOperandCode::G_V_E_ymm, VEXOperandCode::G_V_E_xmm) },
        0x46 => by_l(l, Opcode::VPSRAVD, VEXOperandCode::G_V_E_ymm, VEXOperandCode::G_V_E_xmm),
        0x47 => if w { by_l(l, Opcode::VPSLLVQ, VEXOperandCode::G_V_E_ymm, VEXOperandCode::G_V_E_xmm) } else { by_l(l, Opcode::VPSLLVD, VEXOperandCode::G_V_E_ymm, VEXOperandCode::G_V_E_xmm) },
        0x58 => by_l(l, Opcode::VPBROADCASTD, VEXOperandCode::G_E_ymm, VEXOperandCode::G_E_xmm),
        0x59 => by_l(l, Opcode::VPBROADCASTQ, VEXOperandCode::G_E_ymm, VEXOperandCode::G_E_xmm),
        0x5a => ymm_only(l, Opcode::VBROADCASTI128, VEXOperandCode::G_E_ymm),
        0x78 => any_l(Opcode::VPBROADCASTB, VEXOperandCode::G_E_ymm),
        0x79 => any_l(Opcode::VPBROADCASTW, VEXOperandCode::G_E_ymm),
        0x8c => if w { any_l(Opcode::VPMASKMOVD, VEXOperandCode::G_V_E_ymm) } else { any_l(Opcode::VPMASKMOVQ, VEXOperandCode::G_V_E_ymm) },
        0x8e => if w { by_l(l, Opcode::VPMASKMOVD, VEXOperandCode::E_V_G_ymm, VEXOperandCode::E_V_G_xmm) } else { by_l(l, Opcode::VPMASKMOVQ, VEXOperandCode::E_V_G_ymm, VEXOperandCode::E_V_G_xmm) },
        0x90 => if w { by_l(l, Opcode::VPGATHERDQ, VEXOperandCode::G_Ey_V_ymm, VEXOperandCode::G_Ex_V_xmm) } else { by_l(l, Opcode::VPGATHERDD, VEXOperandCode::G_Ey_V_ymm, VEXOperandCode::G_Ex_V_xmm) },
        0x91 => if w { by_l(l, Opcode::VPGATHERQQ, VEXOperandCode::G_Ey_V_ymm, VEXOperandCode::G_Ex_V_xmm) } else { by_l(l, Opcode::VPGATHERQD, VEXOperandCode::G_Ey_V_ymm, VEXOperandCode::G_Ex_V_xmm) },
        0x92 => if w { by_l(l, Opcode::VGATHERDPD, VEXOperandCode::G_E_ymm_imm8, VEXOperandCode::G_E_xmm_imm8) } else { by_l(l, Opcode::VGATHERDPS, VEXOperandCode::G_E_ymm_imm8, VEXOperandCode::G_E_xmm_imm8) },
        0x93 => if w { by_l(l, Opcode::VGATHERQPD, VEXOperandCode::G_E_ymm_imm8, VEXOperandCode::G_E_xmm_imm8) } else { by_l(l, Opcode::VGATHERQPS, VEXOperandCode::G_E_ymm_imm8, VEXOperandCode::G_E_xmm_imm8) },
        0x96 => if w { any_l(Opcode::VFMADDSUB132PD, VEXOperandCode::G_V_E_ymm) } else { any_l(Opcode::VFMADDSUB132PS, VEXOperandCode::G_V_E_ymm) },
        0x97 => if w { any_l(Opcode::VFMSUBADD132PD, VEXOperandCode::G_V_E_ymm) } else { any_l(Opcode::VFMSUBADD132PS, VEXOperandCode::G_V_E_ymm) },
        0x98 => if w { any_l(Opcode::VFMADD132PD, VEXOperandCode::G_V_E_ymm) } else { any_l(Opcode::VFMADD132PS, VEXOperandCode::G_V_E_ymm) },
        0x99 => if w { any_l(Opcode::VFMADD132SD, VEXOperandCode::G_V_E_xmm) } else { any_l(Opcode::VFMADD132SS, VEXOperandCode::G_V_E_xmm) },
        0x9a => if w { any_l(Opcode::VFMSUB132PD, VEXOperandCode::G_V_E_ymm) } else { any_l(Opcode::VFMSUB132PS, VEXOperandCode::G_V_E_ymm) },
        0x9b => if w { any_l(Opcode::VFMSUB132SD, VEXOperandCode::G_V_E_xmm) } else { any_l(Opcode::VFMSUB132SS, VEXOperandCode::G_V_E_xmm) },
        0x9c => if w { any_l(Opcode::VFNMADD132PD, VEXOperandCode::G_V_E_ymm) } else { any_l(Opcode::VFNMADD132PS, VEXOperandCode::G_V_E_ymm) },
        0x9d => if w { any_l(Opcode::VFNMADD132SD, VEXOperandCode::G_V_E_xmm) } else { any_l(Opcode::VFNMADD132SS, VEXOperandCode::G_V_E_xmm) },
        0x9e => if w { any_l(Opcode::VFNMSUB132PD, VEXOperandCode::G_V_E_ymm) } else { any_l(Opcode::VFNMSUB132PS, VEXOperandCode::G_V_E_ymm) },
        0x9f => if w { any_l(Opcode::VFNMSUB132SD, VEXOperandCode::G_V_E_xmm) } else { any_l(Opcode::VFNMSUB132SS, VEXOperandCode::G_V_E_xmm) },
        0xa6 => if w { any_l(Opcode::VFMADDSUB213PD, VEXOperandCode::G_V_E_ymm) } else { any_l(Opcode::VFMADDSUB213PS, VEXOperandCode::G_V_E_ymm) },
        0xa7 => if w { any_l(Opcode::VFMSUBADD213PD, VEXOperandCode::G_V_E_ymm) } else { any_l(Opcode::VFMSUBADD213PS, VEXOperandCode::G_V_E_ymm) },
        0xa8 => if w { any_l(Opcode::VFMADD213PD, VEXOperandCode::G_V_E_ymm) } else { any_l(Opcode::VFMADD213PS, VEXOperandCode::G_V_E_ymm) },
        0xa9 => if w { any_l(Opcode::VFMADD231SD, VEXOperandCode::G_V_E_xmm) } else { any_l(Opcode::VFMADD231SS, VEXOperandCode::G_V_E_xmm) },
        0xaa => if w { any_l(Opcode::VFMSUB213PD, VEXOperandCode::G_V_E_ymm) } else { any_l(Opcode::VFMSUB213PS, VEXOperandCode::G_V_E_ymm) },
        0xab => if w { any_l(Opcode::VFMSUB231SD, VEXOperandCode::G_V_E_xmm) } else { any_l(Opcode::VFMSUB231SS, VEXOperandCode::G_V_E_xmm) },
        0xac => if w { any_l(Opcode::VFNMADD213PD, VEXOperandCode::G_V_E_ymm) } else { any_l(Opcode::VFNMADD213PS, VEXOperandCode::G_V_E_ymm) },
        0xad => if w { any_l(Opcode::VFNMADD213SD, VEXOperandCode::G_V_E_xmm) } else { any_l(Opcode::VFNMADD213SS, VEXOperandCode::G_V_E_xmm) },
        0xae => if w { any_l(Opcode::VFNMSUB213PD, VEXOperandCode::G_V_E_ymm) } else { any_l(Opcode::VFNMSUB213PS, VEXOperandCode::G_V_E_ymm) },
        0xaf => if w { any_l(Opcode::VFNMSUB213SD, VEXOperandCode::G_V_E_xmm) } else { any_l(Opcode::VFNMSUB213SS, VEXOperandCode::G_V_E_xmm) },
        0xb6 => if w { any_l(Opcode::VFMADDSUB231PD, VEXOperandCode::G_V_E_ymm) } else { any_l(Opcode::VFMADDSUB231PS, VEXOperandCode::G_V_E_ymm) },
        0xb7 => if w { any_l(Opcode::VFMSUBADD231PD, VEXOperandCode::G_V_E_ymm) } else { any_l(Opcode::VFMSUBADD231PS, VEXOperandCode::G_V_E_ymm) },
        0xb8 => if w { any_l(Opcode::VFMADD231PD, VEXOperandCode::G_V_E_ymm) } else { any_l(Opcode::VFMADD231PS, VEXOperandCode::G_V_E_ymm) },
        0xb9 => if w { any_l(Opcode::VFMADD231SD, VEXOperandCode::G_V_E_xmm) } else { any_l(Opcode::VFMADD231SS, VEXOperandCode::G_V_E_xmm) },
        0xba => if w { any_l(Opcode::VFMSUB231PD, VEXOperandCode::G_V_E_ymm) } else { any_l(Opcode::VFMSUB231PS, VEXOperandCode::G_V_E_ymm) },
        0xbb => if w { any_l(Opcode::VFMSUB231SD, VEXOperandCode::G_V_E_xmm) } else { any_l(Opcode::VFMSUB231SS, VEXOperandCode::G_V_E_xmm) },
        0xbc => if w { any_l(Opcode::VFNMADD231PD, VEXOperandCode::G_V_E_ymm) } else { any_l(Opcode::VFNMADD231PS, VEXOperandCode::G_V_E_ymm) },
        0xbd => if w { any_l(Opcode::VFNMADD231SD, VEXOperandCode::G_V_E_xmm) } else { any_l(Opcode::VFNMADD231SS, VEXOperandCode::G_V_E_xmm) },
        0xbe => if w { any_l(Opcode::VFNMSUB231PD, VEXOperandCode::G_V_E_ymm) } else { any_l(Opcode::VFNMSUB231PS, VEXOperandCode::G_V_E_ymm) },
        0xbf => if w { any_l(Opcode::VFNMSUB231SD, VEXOperandCode::G_V_E_xmm) } else { any_l(Opcode::VFNMSUB231SS, VEXOperandCode::G_V_E_xmm) },
        0xdb => xmm_only(l, Opcode::VAESIMC, VEXOperandCode::G_E_xmm),
        0xdc => xmm_only(l, Opcode::VAESENC, VEXOperandCode::G_V_E_xmm),
        0xdd => xmm_only(l, Opcode::VAESENCLAST, VEXOperandCode::G_V_E_xmm),
        0xde => xmm_only(l, Opcode::VAESDEC, VEXOperandCode::G_V_E_xmm),
        0xdf => xmm_only(l, Opcode::VAESDECLAST, VEXOperandCode::G_V_E_xmm),
        _ => None,
    }
}

/// Opcode map `0f3a` with implied `66`: the mnemonic and operand form of
/// each opcode byte, given VEX.L and VEX.W; `None` where the encoding is invalid.
#[verifier::opaque]
pub open spec fn map_0f3a_66(opc: u8, l: bool, w: bool) -> Option<(Opcode, VEXOperandCode)> {
    match opc {
        0x00 => ymm_only(l, Opcode::VPERMQ, VEXOperandCode::G_E_ymm_imm8),
        0x01 => ymm_only(l, Opcode::VPERMPD, VEXOperandCode::G_E_ymm_imm8),
        0x02 => by_l(l, Opcode::VPBLENDD, VEXOperandCode::G_V_E_ymm, VEXOperandCode::G_V_E_xmm),
        0x04 => by_l(l, Opcode::VPERMILPS, VEXOperandCode::G_V_E_ymm, VEXOperandCode::G_V_E_xmm),
        0x05 => by_l(l, Opcode::VPERMILPD, VEXOperandCode::G_V_E_ymm, VEXOperandCode::G_V_E_xmm),
        0x06 => ymm_only(l, Opcode::VPERM2F128, VEXOperandCode::G_V_E_ymm),
        0x08 => by_l(l, Opcode::VROUNDPS, VEXOperandCode::G_E_ymm_imm8, VEXOperandCode::G_E_xmm_imm8),
        0x09 => by_l(l, Opcode::VROUNDPD, VEXOperandCode::G_E_ymm_imm8, VEXOperandCode::G_E_xmm_imm8),
        0x0c => by_l(l, Opcode::VBLENDPS, VEXOperandCode::G_V_E_ymm_imm8, VEXOperandCode::G_V_E_xmm_imm8),
        0x0d => by_l(l, Opcode::VBLENDPD, VEXOperandCode::G_V_E_ymm_imm8, VEXOperandCode::G_V_E_xmm_imm8),
        0x0e => by_l(l, Opcode::VPBLENDW, VEXOperandCode::G_V_E_ymm_imm8, VEXOperandCode::G_V_E_xmm_imm8),
        0x0f => by_l(l, Opcode::VPALIGNR, VEXOperandCode::G_V_E_ymm_imm8, VEXOperandCode::G_V_E_xmm_imm8),
        0x14 => xmm_only_w0(l, w, Opcode::VPEXTRB, VEXOperandCode::Ev_G_xmm_imm8),
        0x15 => xmm_only_w0(l, w, Opcode::VPEXTRW, VEXOperandCode::Ev_G_xmm_imm8),
        0x16 => if w { xmm_only(l, Opcode::VPEXTRQ, VEXOperandCode::G_E_ymm_imm8) } else { xmm_only(l, Opcode::VPEXTRD, VEXOperandCode::Ev_G_xmm_imm8) },
        0x17 => xmm_only(l, Opcode::VEXTRACTPS, VEXOperandCode::G_E_ymm_imm8),
        0x18 => ymm_only(l, Opcode::VINSERTF128, VEXOperandCode::G_V_E_ymm_imm8),
        0x19 => ymm_only(l, Opcode::VEXTRACTF128, VEXOperandCode::E_xmm_G_ymm_imm8),
        0x1d => by_l(l, Opcode::VCVTPS2PH, VEXOperandCode::E_xmm_G_ymm_imm8, VEXOperandCode::E_G_xmm_imm8),
        0x20 => xmm_only(l, Opcode::VPINSRB, VEXOperandCode::G_V_E_xmm_imm8),
        0x21 => xmm_only(l, Opcode::VINSERTPS, VEXOperandCode::G_V_E_xmm_imm8),
        0x22 => if w { xmm_only(l, Opcode::VPINSRQ, VEXOperandCode::G_V_E_xmm_imm8) } else { xmm_only(l, Opcode::VPINSRD, VEXOperandCode::G_V_E_xmm_imm8) },
        0x38 => xmm_only(l, Opcode::VINSERTI128, VEXOperandCode::V_ymm_G_ymm_E_xmm_imm8),
        0x39 => ymm_only(l, Opcode::VEXTRACTI128, VEXOperandCode::V_xmm_G_ymm_E_ymm_imm8),
        0x40 => by_l(l, Opcode::VDPPS, VEXOperandCode::G_V_E_ymm_imm8, VEXOperandCode::G_V_E_xmm_imm8),
        0x41 => xmm_only(l, Opcode::VDPPD, VEXOperandCode::G_V_E_xmm_imm8),
        0x42 => by_l(l, Opcode::VMPSADBW, VEXOperandCode::G_E_ymm_imm8, VEXOperandCode::G_E_xmm_imm8),
        0x44 => xmm_only(l, Opcode::VPCLMULQDQ, VEXOperandCode::G_V_E_xmm_imm8),
        0x46 => ymm_only(l, Opcode::VPERM2I128, VEXOperandCode::G_V_E_ymm_imm8),
        0x4a => by_l(l, Opcode::VBLENDVPS, VEXOperandCode::G_V_E_ymm_ymm4, VEXOperandCode::G_V_E_xmm_xmm4),
        0x4b => by_l(l, Opcode::VBLENDVPD, VEXOperandCode::G_V_E_ymm_ymm4, VEXOperandCode::G_V_E_xmm_xmm4),
        0x4c => by_l(l, Opcode::VPBLENDVB, VEXOperandCode::G_V_E_ymm_ymm4, VEXOperandCode::G_V_E_xmm_xmm4),
        0x62 => xmm_only(l, Opcode::VPCMPISTRM, VEXOperandCode::G_E_xmm_imm8),
        0x63 => xmm_only(l, Opcode::VPCMPISTRI, VEXOperandCode::G_E_xmm_imm8),
        0xdf => xmm_only(l, Opcode::VAESKEYGENASSIST, VEXOperandCode::G_E_xmm_imm8),
        _ => None,
    }
}

/// Looks `opc` up in opcode map `0f3a` with implied `66`.
fn lookup_0f3a_66(opc: u8, l: bool, w: bool) -> (r: Option<(Opcode, VEXOperandCode)>)
    ensures
        r == map_0f3a_66(opc, l, w),
{
    reveal(map_0f3a_66);
    match opc {
        0x00 => ymm_only(l, Opcode::VPERMQ, VEXOperandCode::G_E_ymm_imm8),
        0x01 => ymm_only(l, Opcode::VPERMPD, VEXOperandCode::G_E_ymm_imm8),
        0x02 => by_l(l, Opcode::VPBLENDD, VEXOperandCode::G_V_E_ymm, VEXOperandCode::G_V_E_xmm),
        0x04 => by_l(l, Opcode::VPERMILPS, VEXOperandCode::G_V_E_ymm, VEXOperandCode::G_V_E_xmm),
        0x05 => by_l(l, Opcode::VPERMILPD, VEXOperandCode::G_V_E_ymm, VEXOperandCode::G_V_E_xmm),
        0x06 => ymm_only(l, Opcode::VPERM2F128, VEXOperandCode::G_V_E_ymm),
        0x08 => by_l(l, Opcode::VROUNDPS, VEXOperandCode::G_E_ymm_imm8, VEXOperandCode::G_E_xmm_imm8),
        0x09 => by_l(l, Opcode::VROUNDPD, VEXOperandCode::G_E_ymm_imm8, VEXOperandCode::G_E_xmm_imm8),
        0x0c => by_l(l, Opcode::VBLENDPS, VEXOperandCode::G_V_E_ymm_imm8, VEXOperandCode::G_V_E_xmm_imm8),
        0x0d => by_l(l, Opcode::VBLENDPD, VEXOperandCode::G_V_E_ymm_imm8, VEXOperandCode::G_V_E_xmm_imm8),
        0x0e => by_l(l, Opcode::VPBLENDW, VEXOperandCode::G_V_E_ymm_imm8, VEXOperandCode::G_V_E_xmm_imm8),
        0x0f => by_l(l, Opcode::VPALIGNR, VEXOperandCode::G_V_E_ymm_imm8, VEXOperandCode::G_V_E_xmm_imm8),
        0x14 => xmm_only_w0(l, w, Opcode::VPEXTRB, VEXOperandCode::Ev_G_xmm_imm8),
        0x15 => xmm_only_w0(l, w, Opcode::VPEXTRW, VEXOperandCode::Ev_G_xmm_imm8),
        0x16 => if w { xmm_only(l, Opcode::VPEXTRQ, VEXOperandCode::G_E_ymm_imm8) } else { xmm_only(l, Opcode::VPEXTRD, VEXOperandCode::Ev_G_xmm_imm8) },
        0x17 => xmm_only(l, Opcode::VEXTRACTPS, VEXOperandCode::G_E_ymm_imm8),
        0x18 => ymm_only(l, Opcode::VINSERTF128, VEXOperandCode::G_V_E_ymm_imm8),
        0x19 => ymm_only(l, Opcode::VEXTRACTF128, VEXOperandCode::E_xmm_G_ymm_imm8),
        0x1d => by_l(l, Opcode::VCVTPS2PH, VEXOperandCode::E_xmm_G_ymm_imm8, VEXOperandCode::E_G_xmm_imm8),
        0x20 => xmm_only(l, Opcode::VPINSRB, VEXOperandCode::G_V_E_xmm_imm8),
        0x21 => xmm_only(l, Opcode::VINSERTPS, VEXOperandCode::G_V_E_xmm_imm8),
        0x22 => if w { xmm_only(l, Opcode::VPINSRQ, VEXOperandCode::G_V_E_xmm_imm8) } else { xmm_only(l, Opcode::VPINSRD, VEXOperandCode::G_V_E_xmm_imm8) },
        0x38 => xmm_only(l, Opcode::VINSERTI128, VEXOperandCode::V_ymm_G_ymm_E_xmm_imm8),
        0x39 => ymm_only(l, Opcode::VEXTRACTI128, VEXOperandCode::V_xmm_G_ymm_E_ymm_imm8),
        0x40 => by_l(l, Opcode::VDPPS, VEXOperandCode::G_V_E_ymm_imm8, VEXOperandCode::G_V_E_xmm_imm8),
        0x41 => xmm_only(l, Opcode::VDPPD, VEXOperandCode::G_V_E_xmm_imm8),
        0x42 => by_l(l, Opcode::VMPSADBW, VEXOperandCode::G_E_ymm_imm8, VEXOperandCode::G_E_xmm_imm8),
        0x44 => xmm_only(l, Opcode::VPCLMULQDQ, VEXOperandCode::G_V_E_xmm_imm8),
        0x46 => ymm_only(l, Opcode::VPERM2I128, VEXOperandCode::G_V_E_ymm_imm8),
        0x4a => by_l(l, Opcode::VBLENDVPS, VEXOperandCode::G_V_E_ymm_ymm4, VEXOperandCode::G_V_E_xmm_xmm4),
        0x4b => by_l(l, Opcode::VBLENDVPD, VEXOperandCode::G_V_E_ymm_ymm4, VEXOperandCode::G_V_E_xmm_xmm4),
        0x4c => by_l(l, Opcode::VPBLENDVB, VEXOperandCode::G_V_E_ymm_ymm4, VEXOperandCode::G_V_E_xmm_xmm4),
        0x62 => xmm_only(l, Opcode::VPCMPISTRM, VEXOperandCode::G_E_xmm_imm8),
        0x63 => xmm_only(l, Opcode::VPCMPISTRI, VEXOperandCode::G_E_xmm_imm8),
        0xdf => xmm_only(l, Opcode::VAESKEYGENASSIST, VEXOperandCode::G_E_xmm_imm8),
        _ => None,
    }
}

/// The decode table of VEX-encoded instructions: the mnemonic and operand form
/// for an opcode byte in a map under an implied prefix, given VEX.L and VEX.W,
/// or `None` where no instruction is encoded. Maps `0f38` and `0f3a` hold
/// instructions only under an implied `66`.
#[verifier::opaque]
pub open spec fn vex_table(map: VEXOpcodeMap, p: VEXOpcodePrefix, opc: u8, l: bool, w: bool) -> Option<(Opcode, VEXOperandCode)> {
    match map {
        VEXOpcodeMap::Map0F => match p {
            VEXOpcodePrefix::NoPrefix => map_0f(opc, l, w),
            VEXOpcodePrefix::Prefix66 => map_0f_66(opc, l, w),
            VEXOpcodePrefix::PrefixF2 => map_0f_f2(opc, l, w),
            VEXOpcodePrefix::PrefixF3 => map_0f_f3(opc, l, w),
        },
        VEXOpcodeMap::Map0F38 => match p {
            VEXOpcodePrefix::Prefix66 => map_0f38_66(opc, l, w),
            _ => None,
        },
        VEXOpcodeMap::Map0F3A => match p {
            VEXOpcodePrefix::Prefix66 => map_0f3a_66(opc, l, w),
            _ => None,
        },
    }
}

/// Looks an opcode byte up in the decode table.
pub fn lookup(map: VEXOpcodeMap, p: VEXOpcodePrefix, opc: u8, l: bool, w: bool) -> (r: Option<(Opcode, VEXOperandCode)>)
    ensures
        r == vex_table(map, p, opc, l, w),
{
    reveal(vex_table);
    match map {
        VEXOpcodeMap::Map0F => match p {
            VEXOpcodePrefix::NoPrefix => lookup_0f(opc, l, w),
            VEXOpcodePrefix::Prefix66 => lookup_0f_66(opc, l, w),
            VEXOpcodePrefix::PrefixF2 => lookup_0f_f2(opc, l, w),
            VEXOpcodePrefix::PrefixF3 => lookup_0f_f3(opc, l, w),
        },
        VEXOpcodeMap::Map0F38 => match p {
            VEXOpcodePrefix::Prefix66 => lookup_0f38_66(opc, l, w),
            _ => None,
        },
        VEXOpcodeMap::Map0F3A => match p {
            VEXOpcodePrefix::Prefix66 => lookup_0f3a_66(opc, l, w),
            _ => None,
        },
    }
}

} // verus!
