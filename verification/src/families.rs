use vstd::prelude::*;

use crate::instruction::InstructionView;
use crate::laws::lemma_operands;
use crate::opcode::Opcode;
use crate::prefixes::{lemma_c4_fields, lemma_c5_fields};
use crate::vex::{
    after_c4, after_c5, spec_read_vex_instruction, spec_three_byte_vex, spec_two_byte_vex, vex_map_of, vex_prefix_of,
};
use crate::vex_table::{
    map_0f38_66, map_0f, map_0f_66, map_0f_f2, map_0f_f3, vex_table, VEXOpcodeMap, VEXOpcodePrefix, VEXOperandCode,
};

verus! {

/// The floating-point arithmetic bytes of map `0f`: `51` square root, `58`
/// add, `59` multiply, `5c` subtract, `5d` minimum, `5e` divide, `5f` maximum.
pub open spec fn is_float_arith(opc: u8) -> bool {
    opc == 0x51 || opc == 0x58 || opc == 0x59 || opc == 0x5c || opc == 0x5d || opc == 0x5e || opc == 0x5f
}

/// The mnemonic of a floating-point arithmetic byte: the operation comes from
/// the byte, the data type from the implied prefix (none: packed single, `66`:
/// packed double, `f3`: scalar single, `f2`: scalar double).
pub open spec fn float_arith(opc: u8, p: VEXOpcodePrefix) -> Opcode {
    let (ps, pd, ss, sd) = if opc == 0x51 {
        (Opcode::VSQRTPS, Opcode::VSQRTPD, Opcode::VSQRTSS, Opcode::VSQRTSD)
    } else if opc == 0x58 {
        (Opcode::VADDPS, Opcode::VADDPD, Opcode::VADDSS, Opcode::VADDSD)
    } else if opc == 0x59 {
        (Opcode::VMULPS, Opcode::VMULPD, Opcode::VMULSS, Opcode::VMULSD)
    } else if opc == 0x5c {
        (Opcode::VSUBPS, Opcode::VSUBPD, Opcode::VSUBSS, Opcode::VSUBSD)
    } else if opc == 0x5d {
        (Opcode::VMINPS, Opcode::VMINPD, Opcode::VMINSS, Opcode::VMINSD)
    } else if opc == 0x5e {
        (Opcode::VDIVPS, Opcode::VDIVPD, Opcode::VDIVSS, Opcode::VDIVSD)
    } else {
        (Opcode::VMAXPS, Opcode::VMAXPD, Opcode::VMAXSS, Opcode::VMAXSD)
    };
    match p {
        VEXOpcodePrefix::NoPrefix => ps,
        VEXOpcodePrefix::Prefix66 => pd,
        VEXOpcodePrefix::PrefixF3 => ss,
        VEXOpcodePrefix::PrefixF2 => sd,
    }
}

/// The operand form of a floating-point arithmetic byte: the scalar forms take
/// xmm registers whatever VEX.L holds and a VEX source; the packed forms are
/// 256-bit when VEX.L is set, and all take a VEX source but the packed square
/// roots, which have one source only.
pub open spec fn float_arith_form(opc: u8, p: VEXOpcodePrefix, l: bool) -> VEXOperandCode {
    if p == VEXOpcodePrefix::PrefixF3 || p == VEXOpcodePrefix::PrefixF2 {
        VEXOperandCode::G_V_E_xmm
    } else if opc == 0x51 {
        if l { VEXOperandCode::G_E_ymm } else { VEXOperandCode::G_E_xmm }
    } else {
        if l { VEXOperandCode::G_V_E_ymm } else { VEXOperandCode::G_V_E_xmm }
    }
}

/// In map `0f`, each floating-point arithmetic byte names its operation under
/// every implied prefix, with the data type the prefix selects, whatever VEX.W
/// holds.
pub proof fn float_arithmetic_entries(p: VEXOpcodePrefix, opc: u8, l: bool, w: bool)
    requires
        is_float_arith(opc),
    ensures
        vex_table(VEXOpcodeMap::Map0F, p, opc, l, w) == Some((float_arith(opc, p), float_arith_form(opc, p, l))),
{
    reveal(vex_table);
    reveal(map_0f);
    reveal(map_0f_66);
    reveal(map_0f_f2);
    reveal(map_0f_f3);
}

/// The mnemonic and form the table gives the opcode byte `inp[0]`, if any.
pub open spec fn table_entry(map: VEXOpcodeMap, p: VEXOpcodePrefix, inp: Seq<u8>, l: bool, w: bool) -> Option<(Opcode, VEXOperandCode)> {
    if inp.len() == 0 { None } else { vex_table(map, p, inp[0], l, w) }
}

/// Decoding from the opcode byte on succeeds only on an opcode byte that the
/// table holds, and the decoded mnemonic is the table's.
proof fn lemma_instruction_mnemonic(map: VEXOpcodeMap, inp: Seq<u8>, iv: InstructionView, p: VEXOpcodePrefix)
    ensures
        spec_read_vex_instruction(map, inp, iv, p).res is Ok ==> {
            &&& table_entry(map, p, inp, iv.prefixes.vex().l(), iv.prefixes.vex().w()) is Some
            &&& (table_entry(map, p, inp, iv.prefixes.vex().l(), iv.prefixes.vex().w())->0).0
                == spec_read_vex_instruction(map, inp, iv, p).instr.opcode
        },
{
    if inp.len() > 0 {
        if let Some((op, code)) = vex_table(map, p, inp[0], iv.prefixes.vex().l(), iv.prefixes.vex().w()) {
            lemma_operands(inp.skip(1), Seq::empty(), iv.with_opcode(op), code);
        }
    }
}

/// A decoded instruction's mnemonic is the table entry of its opcode byte:
/// after `c5 b`, the entry in map `0f` of the byte after `b`, under the prefix
/// that `b`'s `pp` field implies, with VEX.L from bit 2 of `b` and VEX.W clear;
/// after `c4 b1 b2`, the entry of the byte after `b2` in the map that `b1`'s
/// `mmmmm` field selects, under the prefix of `b2`'s `pp` field, with VEX.L from
/// bit 2 and VEX.W from bit 7 of `b2`.
pub proof fn decoded_mnemonic(inp: Seq<u8>, iv: InstructionView, length: u8)
    ensures
        spec_two_byte_vex(inp, iv, length).res is Ok ==> {
            &&& inp.len() >= 2
            &&& table_entry(VEXOpcodeMap::Map0F, vex_prefix_of(inp[0]), inp.skip(1), (inp[0] & 4) == 4, false) is Some
            &&& (table_entry(VEXOpcodeMap::Map0F, vex_prefix_of(inp[0]), inp.skip(1), (inp[0] & 4) == 4, false)->0).0
                == spec_two_byte_vex(inp, iv, length).instr.opcode
        },
        spec_three_byte_vex(inp, iv, length).res is Ok ==> {
            &&& inp.len() >= 3
            &&& vex_map_of(inp[0]) is Some
            &&& table_entry(vex_map_of(inp[0])->0, vex_prefix_of(inp[1]), inp.skip(2), (inp[1] & 4) == 4, (inp[1] & 0x80) == 0x80) is Some
            &&& (table_entry(vex_map_of(inp[0])->0, vex_prefix_of(inp[1]), inp.skip(2), (inp[1] & 4) == 4, (inp[1] & 0x80) == 0x80)->0).0
                == spec_three_byte_vex(inp, iv, length).instr.opcode
        },
{
    if inp.len() >= 1 {
        lemma_c5_fields(inp[0]);
        lemma_instruction_mnemonic(VEXOpcodeMap::Map0F, inp.skip(1), after_c5(iv, inp[0]), vex_prefix_of(inp[0]));
    }
    if inp.len() >= 2 {
        lemma_c4_fields(inp[0], inp[1]);
        if let Some(map) = vex_map_of(inp[0]) {
            lemma_instruction_mnemonic(map, inp.skip(2), after_c4(iv, inp[0], inp[1]), vex_prefix_of(inp[1]));
        }
    }
}

/// After a `c5` prefix, a floating-point arithmetic byte of map `0f` decodes to
/// its operation, with the data type that the payload's `pp` field selects.
pub proof fn two_byte_vex_float_arithmetic(inp: Seq<u8>, iv: InstructionView, length: u8)
    requires
        inp.len() >= 2,
        is_float_arith(inp[1]),
    ensures
        spec_two_byte_vex(inp, iv, length).res is Ok ==> spec_two_byte_vex(inp, iv, length).instr.opcode
            == float_arith(inp[1], vex_prefix_of(inp[0])),
{
    decoded_mnemonic(inp, iv, length);
    float_arithmetic_entries(vex_prefix_of(inp[0]), inp[1], (inp[0] & 4) == 4, false);
}

/// The lane-wise integer operations of map `0f` under an implied `66`, by
/// operation (`0` add, `1` subtract, `2` compare for equality, `3` compare for
/// greater) and element width (`0` bytes, `1` words, `2` doublewords, `3`
/// quadwords); the comparisons have no quadword form here.
pub open spec fn int_lane_ok(op: int, width: int) -> bool {
    &&& 0 <= op <= 3
    &&& 0 <= width <= 3
    &&& (op >= 2 ==> width <= 2)
}

/// The opcode byte of a lane-wise integer operation: the element width counts
/// up from the operation's first byte (but a quadword add, which stands apart).
pub open spec fn int_lane_byte(op: int, width: int) -> u8 {
    if op == 0 {
        if width == 3 { 0xd4 } else { (0xfc + width) as u8 }
    } else if op == 1 {
        (0xf8 + width) as u8
    } else if op == 2 {
        (0x74 + width) as u8
    } else {
        (0x64 + width) as u8
    }
}

/// The mnemonic of a lane-wise integer operation.
pub open spec fn int_lane(op: int, width: int) -> Opcode {
    let (b, w, d, q) = if op == 0 {
        (Opcode::VPADDB, Opcode::VPADDW, Opcode::VPADDD, Opcode::VPADDQ)
    } else if op == 1 {
        (Opcode::VPSUBB, Opcode::VPSUBW, Opcode::VPSUBD, Opcode::VPSUBQ)
    } else if op == 2 {
        (Opcode::VPCMPEQB, Opcode::VPCMPEQW, Opcode::VPCMPEQD, Opcode::Invalid)
    } else {
        (Opcode::VPCMPGTB, Opcode::VPCMPGTW, Opcode::VPCMPGTD, Opcode::Invalid)
    };
    if width == 0 { b } else if width == 1 { w } else if width == 2 { d } else { q }
}

/// Each lane-wise integer add, subtract and compare of map `0f` under `66` is
/// found at its byte, with a VEX source, 256-bit when VEX.L is set.
pub proof fn integer_lane_entries(op: int, width: int, l: bool, w: bool)
    requires
        int_lane_ok(op, width),
    ensures
        vex_table(VEXOpcodeMap::Map0F, VEXOpcodePrefix::Prefix66, int_lane_byte(op, width), l, w) == Some(
            (int_lane(op, width), if l { VEXOperandCode::G_V_E_ymm } else { VEXOperandCode::G_V_E_xmm }),
        ),
{
    reveal(vex_table);
    reveal(map_0f_66);
}

/// The bitwise operations of map `0f` under `66`: `db` and, `df` and-not, `eb`
/// or, `ef` exclusive or.
pub open spec fn bitwise(opc: u8) -> Option<Opcode> {
    if opc == 0xdb {
        Some(Opcode::VPAND)
    } else if opc == 0xdf {
        Some(Opcode::VPANDN)
    } else if opc == 0xeb {
        Some(Opcode::VPOR)
    } else if opc == 0xef {
        Some(Opcode::VPXOR)
    } else {
        None
    }
}

/// Each bitwise operation of map `0f` under `66` takes a VEX source and is
/// 256-bit when VEX.L is set.
pub proof fn bitwise_entries(opc: u8, l: bool, w: bool)
    requires
        bitwise(opc) is Some,
    ensures
        vex_table(VEXOpcodeMap::Map0F, VEXOpcodePrefix::Prefix66, opc, l, w) == Some(
            (bitwise(opc)->0, if l { VEXOperandCode::G_V_E_ymm } else { VEXOperandCode::G_V_E_xmm }),
        ),
{
    reveal(vex_table);
    reveal(map_0f_66);
}

/// The register moves of map `0f` that come as a load byte and a store byte:
/// `10`/`11` unaligned and `28`/`29` aligned single-precision moves with no
/// prefix, `28`/`29` aligned double-precision moves under `66`, and `6f`/`7f`
/// aligned integer moves under `66`, unaligned ones under `f3`. The load
/// byte's mnemonic, where there is one.
pub open spec fn move_pair(p: VEXOpcodePrefix, load: u8) -> Option<Opcode> {
    match p {
        VEXOpcodePrefix::NoPrefix => if load == 0x10 {
            Some(Opcode::VMOVUPS)
        } else if load == 0x28 {
            Some(Opcode::VMOVAPS)
        } else {
            None
        },
        VEXOpcodePrefix::Prefix66 => if load == 0x28 {
            Some(Opcode::VMOVAPD)
        } else if load == 0x6f {
            Some(Opcode::VMOVDQA)
        } else {
            None
        },
        VEXOpcodePrefix::PrefixF3 => if load == 0x6f {
            Some(Opcode::VMOVDQU)
        } else {
            None
        },
        VEXOpcodePrefix::PrefixF2 => None,
    }
}

/// The store byte that goes with a load byte.
pub open spec fn store_byte(load: u8) -> u8 {
    if load == 0x6f { 0x7f } else { (load + 1) as u8 }
}

/// A move's load byte reads the register or memory operand into the `rrr`
/// register (`G` first), its store byte writes the `rrr` register to it (`E`
/// first), with the same mnemonic; both are 256-bit when VEX.L is set.
pub proof fn move_load_store_entries(p: VEXOpcodePrefix, load: u8, l: bool, w: bool)
    requires
        move_pair(p, load) is Some,
    ensures
        vex_table(VEXOpcodeMap::Map0F, p, load, l, w) == Some(
            (move_pair(p, load)->0, if l { VEXOperandCode::G_E_ymm } else { VEXOperandCode::G_E_xmm }),
        ),
        vex_table(VEXOpcodeMap::Map0F, p, store_byte(load), l, w) == Some(
            (move_pair(p, load)->0, if l { VEXOperandCode::E_G_ymm } else { VEXOperandCode::E_G_xmm }),
        ),
{
    reveal(vex_table);
    reveal(map_0f);
    reveal(map_0f_66);
    reveal(map_0f_f3);
}

/// The interleaving unpacks of map `0f` under `66`, by half (`0` low, `1`
/// high) and element width (`0` bytes to `3` quadwords): the byte, word and
/// doubleword forms count up from `60` (low) and `68` (high), the quadword
/// forms are `6c` and `6d`.
pub open spec fn unpack_byte(high: int, width: int) -> u8 {
    if width == 3 { (0x6c + high) as u8 } else { (0x60 + 8 * high + width) as u8 }
}

/// The mnemonic of an interleaving unpack.
pub open spec fn unpack(high: int, width: int) -> Opcode {
    let (b, w, d, q) = if high == 0 {
        (Opcode::VPUNPCKLBW, Opcode::VPUNPCKLWD, Opcode::VPUNPCKLDQ, Opcode::VPUNPCKLQDQ)
    } else {
        (Opcode::VPUNPCKHBW, Opcode::VPUNPCKHWD, Opcode::VPUNPCKHDQ, Opcode::VPUNPCKHQDQ)
    };
    if width == 0 { b } else if width == 1 { w } else if width == 2 { d } else { q }
}

/// Each integer unpack of map `0f` under `66` is found at its byte, with a VEX
/// source, 256-bit when VEX.L is set; so are the floating-point unpacks at
/// `14` (low) and `15` (high), single precision with no prefix and double
/// precision under `66`.
pub proof fn unpack_entries(high: int, width: int, l: bool, w: bool)
    requires
        0 <= high <= 1,
        0 <= width <= 3,
    ensures
        vex_table(VEXOpcodeMap::Map0F, VEXOpcodePrefix::Prefix66, unpack_byte(high, width), l, w) == Some(
            (unpack(high, width), if l { VEXOperandCode::G_V_E_ymm } else { VEXOperandCode::G_V_E_xmm }),
        ),
        vex_table(VEXOpcodeMap::Map0F, VEXOpcodePrefix::NoPrefix, (0x14 + high) as u8, l, w) == Some(
            (
                if high == 0 { Opcode::VUNPCKLPS } else { Opcode::VUNPCKHPS },
                if l { VEXOperandCode::G_V_E_ymm } else { VEXOperandCode::G_V_E_xmm },
            ),
        ),
        vex_table(VEXOpcodeMap::Map0F, VEXOpcodePrefix::Prefix66, (0x14 + high) as u8, l, w) == Some(
            (
                if high == 0 { Opcode::VUNPCKLPD } else { Opcode::VUNPCKHPD },
                if l { VEXOperandCode::G_V_E_ymm } else { VEXOperandCode::G_V_E_xmm },
            ),
        ),
{
    reveal(vex_table);
    reveal(map_0f);
    reveal(map_0f_66);
}

/// The shifts by a count held in an xmm register or memory, in map `0f` under
/// `66`, by kind (`0` logical right from `d0`, `1` arithmetic right from `e0`,
/// `2` left from `f0`) and element width (`1` words, `2` doublewords, `3`
/// quadwords; no arithmetic quadword shift here).
pub open spec fn shift_ok(kind: int, width: int) -> bool {
    &&& 0 <= kind <= 2
    &&& 1 <= width <= 3
    &&& (kind == 1 ==> width <= 2)
}

/// The mnemonic of a shift by a register count.
pub open spec fn shift(kind: int, width: int) -> Opcode {
    let (w, d, q) = if kind == 0 {
        (Opcode::VPSRLW, Opcode::VPSRLD, Opcode::VPSRLQ)
    } else if kind == 1 {
        (Opcode::VPSRAW, Opcode::VPSRAD, Opcode::Invalid)
    } else {
        (Opcode::VPSLLW, Opcode::VPSLLD, Opcode::VPSLLQ)
    };
    if width == 1 { w } else if width == 2 { d } else { q }
}

/// Each shift by a register count is found at its kind's first byte plus its
/// width; the 128-bit form takes xmm registers throughout, and the 256-bit
/// form a ymm destination and source with the count in an xmm register or
/// memory, but for the logical right shifts, whose 256-bit form reads a ymm
/// operand.
pub proof fn shift_entries(kind: int, width: int, l: bool, w: bool)
    requires
        shift_ok(kind, width),
    ensures
        vex_table(VEXOpcodeMap::Map0F, VEXOpcodePrefix::Prefix66, (0xd0 + 0x10 * kind + width) as u8, l, w) == Some(
            (
                shift(kind, width),
                if !l {
                    VEXOperandCode::G_V_E_xmm
                } else if kind == 0 {
                    VEXOperandCode::G_V_E_ymm
                } else {
                    VEXOperandCode::G_V_ymm_E_xmm
                },
            ),
        ),
{
    reveal(vex_table);
    reveal(map_0f_66);
}

/// The integer widening moves of map `0f38` under `66`: sign-extending from
/// `20`, zero-extending from `30`, in the order bytes to words, bytes to
/// doublewords, bytes to quadwords, words to doublewords, words to quadwords,
/// doublewords to quadwords.
pub open spec fn widen(zero: bool, k: int) -> Opcode {
    let (bw, bd, bq, wd, wq, dq) = if zero {
        (Opcode::VPMOVZXBW, Opcode::VPMOVZXBD, Opcode::VPMOVZXBQ, Opcode::VPMOVZXWD, Opcode::VPMOVZXWQ, Opcode::VPMOVZXDQ)
    } else {
        (Opcode::VPMOVSXBW, Opcode::VPMOVSXBD, Opcode::VPMOVSXBQ, Opcode::VPMOVSXWD, Opcode::VPMOVSXWQ, Opcode::VPMOVSXDQ)
    };
    if k == 0 { bw } else if k == 1 { bd } else if k == 2 { bq } else if k == 3 { wd } else if k == 4 { wq } else { dq }
}

/// Each widening move reads the register or memory operand into the `rrr`
/// register and is 256-bit when VEX.L is set; the zero-extending doubleword
/// to quadword move has only its 256-bit form.
pub proof fn widening_entries(zero: bool, k: int, l: bool, w: bool)
    requires
        0 <= k <= 5,
    ensures
        vex_table(VEXOpcodeMap::Map0F38, VEXOpcodePrefix::Prefix66, (0x20 + (if zero { 0x10int } else { 0 }) + k) as u8, l, w)
            == if zero && k == 5 && !l {
            None
        } else {
            Some((widen(zero, k), if l { VEXOperandCode::G_E_ymm } else { VEXOperandCode::G_E_xmm }))
        },
{
    reveal(vex_table);
    reveal(map_0f38_66);
}

/// The integer gathers of map `0f38` under `66`: `90` with doubleword
/// indices, `91` with quadword indices; VEX.W picks quadword elements.
pub open spec fn gather(qword_index: bool, w: bool) -> Opcode {
    match (qword_index, w) {
        (false, false) => Opcode::VPGATHERDD,
        (false, true) => Opcode::VPGATHERDQ,
        (true, false) => Opcode::VPGATHERQD,
        (true, true) => Opcode::VPGATHERQQ,
    }
}

/// Each integer gather takes a vector-indexed memory operand, whose index
/// registers are ymm when VEX.L is set and xmm when it is clear.
pub proof fn gather_entries(qword_index: bool, l: bool, w: bool)
    ensures
        vex_table(VEXOpcodeMap::Map0F38, VEXOpcodePrefix::Prefix66, if qword_index { 0x91u8 } else { 0x90u8 }, l, w)
            == Some((gather(qword_index, w), if l { VEXOperandCode::G_Ey_V_ymm } else { VEXOperandCode::G_Ex_V_xmm })),
{
    reveal(vex_table);
    reveal(map_0f38_66);
}

} // verus!
