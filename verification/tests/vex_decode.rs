use lib::instruction::{DecodeError, Instruction, OperandSpec};
use lib::opcode::Opcode;
use lib::prefixes::Prefixes;
use lib::regs::{RegSpec, RegisterBank};
use lib::stream::ByteStream;
use lib::vex::{read_vex_instruction, three_byte_vex, two_byte_vex};
use lib::vex_table::{VEXOpcodeMap, VEXOpcodePrefix};

fn reg(num: u8, bank: RegisterBank) -> RegSpec {
    RegSpec { num, bank }
}

/// Decodes the bytes after a `c5` byte; the `c5` byte itself counts toward the length.
fn decode_c5(payload: &[u8]) -> (Result<(), DecodeError>, Instruction, usize) {
    let mut bytes = ByteStream::new(payload.to_vec());
    let mut instr = Instruction::invalid();
    let r = two_byte_vex(&mut bytes, &mut instr, 1);
    (r, instr, bytes.pos)
}

/// Decodes the bytes after a `c4` byte; the `c4` byte itself counts toward the length.
fn decode_c4(payload: &[u8]) -> (Result<(), DecodeError>, Instruction, usize) {
    let mut bytes = ByteStream::new(payload.to_vec());
    let mut instr = Instruction::invalid();
    let r = three_byte_vex(&mut bytes, &mut instr, 1);
    (r, instr, bytes.pos)
}

#[test]
fn vaddps_xmm_registers() {
    // c5 f8 58 c1: vaddps xmm0, xmm0, xmm1
    let (r, i, used) = decode_c5(&[0xf8, 0x58, 0xc1]);
    assert_eq!(r, Ok(()));
    assert_eq!(i.opcode, Opcode::VADDPS);
    assert_eq!(i.length, 4);
    assert_eq!(used, 3);
    assert_eq!(i.modrm_rrr, reg(0, RegisterBank::X));
    assert_eq!(i.vex_reg, reg(0, RegisterBank::X));
    assert_eq!(i.modrm_mmm, reg(1, RegisterBank::X));
    assert_eq!(
        i.operands,
        [OperandSpec::RegRRR, OperandSpec::RegVex, OperandSpec::RegMMM, OperandSpec::Nothing]
    );
}

#[test]
fn vaddps_ymm_registers() {
    // c5 fc 58 c1: vaddps ymm0, ymm0, ymm1 (VEX.L set)
    let (r, i, _) = decode_c5(&[0xfc, 0x58, 0xc1]);
    assert_eq!(r, Ok(()));
    assert_eq!(i.opcode, Opcode::VADDPS);
    assert_eq!(i.modrm_rrr, reg(0, RegisterBank::Y));
    assert_eq!(i.vex_reg, reg(0, RegisterBank::Y));
    assert_eq!(i.modrm_mmm, reg(1, RegisterBank::Y));
    assert_eq!(i.prefixes.rex.bits, 0x90);
}

#[test]
fn vex_r_and_vvvv_extend_registers() {
    // c5 48 58 c1: R clear in the encoding (so rrr + 8), vvvv = 1001 -> register 6
    let (r, i, _) = decode_c5(&[0x48, 0x58, 0xc1]);
    assert_eq!(r, Ok(()));
    assert_eq!(i.modrm_rrr, reg(8, RegisterBank::X));
    assert_eq!(i.vex_reg, reg(6, RegisterBank::X));
    assert!(i.prefixes.vex().r());
}

#[test]
fn two_byte_form_abbreviates_three_byte_form() {
    // c5 f8 58 c1 and c4 e1 78 58 c1 encode the same instruction
    let (r2, i2, u2) = decode_c5(&[0xf8, 0x58, 0xc1]);
    let (r3, i3, u3) = decode_c4(&[0xe1, 0x78, 0x58, 0xc1]);
    assert_eq!(r2, r3);
    assert_eq!(u3, u2 + 1);
    assert_eq!(i3.length, i2.length + 1);
    assert_eq!(i3.opcode, i2.opcode);
    assert_eq!(i3.operands, i2.operands);
    assert_eq!(i3.modrm_rrr, i2.modrm_rrr);
    assert_eq!(i3.modrm_mmm, i2.modrm_mmm);
    assert_eq!(i3.vex_reg, i2.vex_reg);
    assert_eq!(i3.prefixes, i2.prefixes);
}

#[test]
fn trailing_bytes_change_nothing() {
    let (r1, i1, u1) = decode_c5(&[0xf8, 0x58, 0xc1]);
    let (r2, i2, u2) = decode_c5(&[0xf8, 0x58, 0xc1, 0x90, 0x90, 0xc3]);
    assert_eq!(r1, r2);
    assert_eq!(u1, u2);
    assert_eq!(i1.length, i2.length);
    assert_eq!(i1.opcode, i2.opcode);
    assert_eq!(i1.operands, i2.operands);
    assert_eq!(i1.modrm_mmm, i2.modrm_mmm);
}

#[test]
fn memory_operand_without_displacement() {
    // c5 f8 58 00: vaddps xmm0, xmm0, [rax]
    let (r, i, used) = decode_c5(&[0xf8, 0x58, 0x00]);
    assert_eq!(r, Ok(()));
    assert_eq!(used, 3);
    assert_eq!(i.operands[2], OperandSpec::Deref);
    assert_eq!(i.modrm_mmm, reg(0, RegisterBank::Q));
}

#[test]
fn memory_operand_with_disp8() {
    // c5 f8 58 40 10: [rax + 0x10]
    let (r, i, used) = decode_c5(&[0xf8, 0x58, 0x40, 0x10]);
    assert_eq!(r, Ok(()));
    assert_eq!(used, 4);
    assert_eq!(i.length, 5);
    assert_eq!(i.operands[2], OperandSpec::RegDisp);
    assert_eq!(i.disp, 0x10);
}

#[test]
fn negative_disp8_is_sign_extended() {
    // c5 f8 58 40 f0: [rax - 0x10]
    let (r, i, _) = decode_c5(&[0xf8, 0x58, 0x40, 0xf0]);
    assert_eq!(r, Ok(()));
    assert_eq!(i.operands[2], OperandSpec::RegDisp);
    assert_eq!(i.disp, 0xffff_ffff_ffff_fff0);
}

#[test]
fn zero_disp8_is_a_plain_dereference() {
    // c5 f8 58 40 00: [rax + 0]
    let (r, i, used) = decode_c5(&[0xf8, 0x58, 0x40, 0x00]);
    assert_eq!(r, Ok(()));
    assert_eq!(used, 4);
    assert_eq!(i.operands[2], OperandSpec::Deref);
}

#[test]
fn rip_relative_operand() {
    // c5 f8 58 05 78 56 34 12: [rip + 0x12345678]
    let (r, i, used) = decode_c5(&[0xf8, 0x58, 0x05, 0x78, 0x56, 0x34, 0x12]);
    assert_eq!(r, Ok(()));
    assert_eq!(used, 7);
    assert_eq!(i.length, 8);
    assert_eq!(i.operands[2], OperandSpec::RegDisp);
    assert_eq!(i.modrm_mmm, RegSpec::rip());
    assert_eq!(i.disp, 0x12345678);
}

#[test]
fn sib_base_only() {
    // c5 f8 58 04 24: [rsp]
    let (r, i, used) = decode_c5(&[0xf8, 0x58, 0x04, 0x24]);
    assert_eq!(r, Ok(()));
    assert_eq!(used, 4);
    assert_eq!(i.operands[2], OperandSpec::Deref);
    assert_eq!(i.modrm_mmm, reg(4, RegisterBank::Q));
}

#[test]
fn sib_base_index_scale() {
    // c5 f8 58 04 88: [rax + rcx*4]
    let (r, i, _) = decode_c5(&[0xf8, 0x58, 0x04, 0x88]);
    assert_eq!(r, Ok(()));
    assert_eq!(i.operands[2], OperandSpec::RegIndexBaseScale);
    assert_eq!(i.modrm_mmm, reg(0, RegisterBank::Q));
    assert_eq!(i.sib_index, reg(1, RegisterBank::Q));
    assert_eq!(i.scale, 4);
}

#[test]
fn sib_index_scale_disp32_without_base() {
    // c5 f8 58 04 cd 00 01 00 00: [rcx*8 + 0x100]
    let (r, i, used) = decode_c5(&[0xf8, 0x58, 0x04, 0xcd, 0x00, 0x01, 0x00, 0x00]);
    assert_eq!(r, Ok(()));
    assert_eq!(used, 8);
    assert_eq!(i.length, 9);
    assert_eq!(i.operands[2], OperandSpec::RegScaleDisp);
    assert_eq!(i.sib_index, reg(1, RegisterBank::Q));
    assert_eq!(i.scale, 8);
    assert_eq!(i.disp, 0x100);
}

#[test]
fn sib_absolute_disp32() {
    // c5 f8 58 04 25 00 10 00 00: [0x1000]
    let (r, i, _) = decode_c5(&[0xf8, 0x58, 0x04, 0x25, 0x00, 0x10, 0x00, 0x00]);
    assert_eq!(r, Ok(()));
    assert_eq!(i.operands[2], OperandSpec::DispU32);
    assert_eq!(i.disp, 0x1000);
}

#[test]
fn vmovss_register_merge_and_load() {
    // c5 fa 10 c1: vmovss xmm0, xmm0, xmm1
    let (r, i, _) = decode_c5(&[0xfa, 0x10, 0xc1]);
    assert_eq!(r, Ok(()));
    assert_eq!(i.opcode, Opcode::VMOVSS);
    assert_eq!(
        i.operands,
        [OperandSpec::RegRRR, OperandSpec::RegVex, OperandSpec::RegMMM, OperandSpec::Nothing]
    );
    // c5 fa 10 00: vmovss xmm0, [rax]
    let (r, i, _) = decode_c5(&[0xfa, 0x10, 0x00]);
    assert_eq!(r, Ok(()));
    assert_eq!(
        i.operands,
        [OperandSpec::RegRRR, OperandSpec::Deref, OperandSpec::Nothing, OperandSpec::Nothing]
    );
}

#[test]
fn vmovsd_store_to_memory() {
    // c5 fb 11 00: vmovsd [rax], xmm0
    let (r, i, _) = decode_c5(&[0xfb, 0x11, 0x00]);
    assert_eq!(r, Ok(()));
    assert_eq!(i.opcode, Opcode::VMOVSD);
    assert_eq!(
        i.operands,
        [OperandSpec::Deref, OperandSpec::RegRRR, OperandSpec::Nothing, OperandSpec::Nothing]
    );
}

#[test]
fn vpextrb_with_immediate() {
    // c4 e3 79 14 c0 05: vpextrb rax, xmm0, 5
    let (r, i, used) = decode_c4(&[0xe3, 0x79, 0x14, 0xc0, 0x05]);
    assert_eq!(r, Ok(()));
    assert_eq!(used, 5);
    assert_eq!(i.length, 6);
    assert_eq!(i.opcode, Opcode::VPEXTRB);
    assert_eq!(i.modrm_mmm, reg(0, RegisterBank::Q));
    assert_eq!(i.imm, 5);
    assert_eq!(
        i.operands,
        [OperandSpec::RegMMM, OperandSpec::RegRRR, OperandSpec::ImmU8, OperandSpec::Nothing]
    );
}

#[test]
fn vpextrb_rejects_vex_w() {
    // c4 e3 f9 14 c0 05: W set
    let (r, i, used) = decode_c4(&[0xe3, 0xf9, 0x14, 0xc0, 0x05]);
    assert_eq!(r, Err(DecodeError::InvalidOpcode));
    assert_eq!(used, 3);
    assert_eq!(i.opcode, Opcode::Invalid);
}

#[test]
fn gather_uses_vector_index() {
    // c4 e2 69 90 04 88: vpgatherdd xmm0, [rax + xmm1*4], xmm2
    let (r, i, used) = decode_c4(&[0xe2, 0x69, 0x90, 0x04, 0x88]);
    assert_eq!(r, Ok(()));
    assert_eq!(used, 5);
    assert_eq!(i.opcode, Opcode::VPGATHERDD);
    assert_eq!(i.sib_index, reg(1, RegisterBank::X));
    assert_eq!(i.vex_reg, reg(2, RegisterBank::X));
    assert_eq!(i.scale, 4);
    assert_eq!(
        i.operands,
        [OperandSpec::RegRRR, OperandSpec::RegIndexBaseScale, OperandSpec::RegVex, OperandSpec::Nothing]
    );
}

#[test]
fn exhausted_before_payload() {
    let (r, _, used) = decode_c5(&[]);
    assert_eq!(r, Err(DecodeError::ExhaustedInput));
    assert_eq!(used, 0);
    let (r, _, used) = decode_c4(&[0xe1]);
    assert_eq!(r, Err(DecodeError::ExhaustedInput));
    assert_eq!(used, 1);
}

#[test]
fn exhausted_before_modrm() {
    let (r, i, used) = decode_c5(&[0xf8, 0x58]);
    assert_eq!(r, Err(DecodeError::ExhaustedInput));
    assert_eq!(used, 2);
    assert_eq!(i.length, 0);
}

#[test]
fn exhausted_inside_displacement() {
    let (r, _, used) = decode_c5(&[0xf8, 0x58, 0x05, 0x78, 0x56]);
    assert_eq!(r, Err(DecodeError::ExhaustedInput));
    assert_eq!(used, 5);
}

#[test]
fn unknown_opcode_is_invalid() {
    // c5 f8 00: nothing at 0f 00 under VEX
    let (r, i, used) = decode_c5(&[0xf8, 0x00, 0xc1]);
    assert_eq!(r, Err(DecodeError::InvalidOpcode));
    assert_eq!(used, 2);
    assert_eq!(i.opcode, Opcode::Invalid);
}

#[test]
fn xmm_only_instruction_rejects_vex_l() {
    // c5 fc 13 00: vmovlps has no 256-bit form
    let (r, i, _) = decode_c5(&[0xfc, 0x13, 0x00]);
    assert_eq!(r, Err(DecodeError::InvalidOpcode));
    assert_eq!(i.opcode, Opcode::Invalid);
}

#[test]
fn unknown_map_is_invalid() {
    // c4 e0 78 58 c1: map select 0
    let (r, i, used) = decode_c4(&[0xe0, 0x78, 0x58, 0xc1]);
    assert_eq!(r, Err(DecodeError::InvalidOpcode));
    assert_eq!(used, 2);
    assert_eq!(i.opcode, Opcode::Invalid);
}

#[test]
fn map_0f38_needs_66() {
    // c4 e2 78 00 c1: map 0f38 with pp = 00
    let (r, _, used) = decode_c4(&[0xe2, 0x78, 0x00, 0xc1]);
    assert_eq!(r, Err(DecodeError::InvalidOpcode));
    assert_eq!(used, 3);
    // c4 e2 79 00 c1: vpshufb xmm0, xmm0, xmm1
    let (r, i, _) = decode_c4(&[0xe2, 0x79, 0x00, 0xc1]);
    assert_eq!(r, Ok(()));
    assert_eq!(i.opcode, Opcode::VPSHUFB);
}

#[test]
fn vvvv_must_be_unused_for_two_operand_forms() {
    // c5 f0 10 c1: vmovups with vvvv naming xmm1
    let (r, i, used) = decode_c5(&[0xf0, 0x10, 0xc1]);
    assert_eq!(r, Err(DecodeError::InvalidOperand));
    assert_eq!(used, 2);
    assert_eq!(i.opcode, Opcode::Invalid);
}

#[test]
fn unhandled_operand_form_is_incomplete() {
    // c5 f9 6e c1: vmovd xmm0, ecx
    let (r, i, used) = decode_c5(&[0xf9, 0x6e, 0xc1]);
    assert_eq!(r, Err(DecodeError::IncompleteDecoder));
    assert_eq!(used, 2);
    assert_eq!(i.opcode, Opcode::VMOVD);
}

#[test]
fn shift_group_names_mnemonic_by_modrm() {
    // c5 f9 71 d1 05: vpsrlw xmm0, xmm1, 5 (operands not decoded)
    let (r, i, used) = decode_c5(&[0xf9, 0x71, 0xd1, 0x05]);
    assert_eq!(r, Err(DecodeError::IncompleteDecoder));
    assert_eq!(used, 3);
    assert_eq!(i.opcode, Opcode::VPSRLW);
    // c5 f9 71 c1: rrr = 0 names nothing
    let (r, i, _) = decode_c5(&[0xf9, 0x71, 0xc1, 0x05]);
    assert_eq!(r, Err(DecodeError::InvalidOpcode));
    assert_eq!(i.opcode, Opcode::Invalid);
    // c5 fd 73 d9 05: vpsrldq (256-bit group)
    let (r, i, _) = decode_c5(&[0xfd, 0x73, 0xd9, 0x05]);
    assert_eq!(r, Err(DecodeError::IncompleteDecoder));
    assert_eq!(i.opcode, Opcode::VPSRLDQ);
}

#[test]
fn vzeroupper_has_no_operands() {
    // c5 f8 77
    let (r, i, used) = decode_c5(&[0xf8, 0x77]);
    assert_eq!(r, Ok(()));
    assert_eq!(used, 2);
    assert_eq!(i.length, 3);
    assert_eq!(i.opcode, Opcode::VZEROUPPER);
}

#[test]
fn read_vex_instruction_from_opcode_byte() {
    let mut bytes = ByteStream::new(vec![0x58, 0xc1]);
    let mut instr = Instruction::invalid();
    let mut length = 2u8;
    let r = read_vex_instruction(
        VEXOpcodeMap::Map0F,
        &mut bytes,
        &mut instr,
        &mut length,
        VEXOpcodePrefix::Prefix66,
    );
    assert_eq!(r, Ok(()));
    assert_eq!(instr.opcode, Opcode::VADDPD);
    assert_eq!(length, 4);
    assert_eq!(bytes.pos, 2);
}

#[test]
fn c5_payload_bits() {
    let mut p = Prefixes { address_size: false, rex: lib::prefixes::PrefixRex { bits: 0 } };
    p.vex_from_c5(0x7c);
    assert!(p.vex().r());
    assert!(p.vex().l());
    assert!(!p.vex().w());
    assert!(!p.rex().present());
}

#[test]
fn c4_payload_bits() {
    let mut p = Prefixes { address_size: true, rex: lib::prefixes::PrefixRex { bits: 0 } };
    p.vex_from_c4(0x02, 0x84);
    assert!(p.vex().r());
    assert!(p.vex().x());
    assert!(p.vex().b());
    assert!(p.vex().w());
    assert!(p.vex().l());
    assert!(p.address_size);
    assert!(!p.rex().present());
}

#[test]
fn address_size_override_uses_32_bit_registers() {
    let mut bytes = ByteStream::new(vec![0xf8, 0x58, 0x00]);
    let mut instr = Instruction::invalid();
    instr.prefixes.address_size = true;
    let r = two_byte_vex(&mut bytes, &mut instr, 2);
    assert_eq!(r, Ok(()));
    assert_eq!(instr.modrm_mmm, reg(0, RegisterBank::D));
    assert_eq!(instr.length, 5);
}

#[test]
fn load_and_store_forms_mirror_each_other() {
    // c4 e2 71 2c 00: vmaskmovps xmm0, xmm1, [rax]
    let (r1, i1, u1) = decode_c4(&[0xe2, 0x71, 0x2c, 0x00]);
    // c4 e2 71 2e 00: vmaskmovps [rax], xmm1, xmm0
    let (r2, i2, u2) = decode_c4(&[0xe2, 0x71, 0x2e, 0x00]);
    assert_eq!(r1, Ok(()));
    assert_eq!(r2, Ok(()));
    assert_eq!(u1, u2);
    assert_eq!(i1.opcode, Opcode::VMASKMOVPS);
    assert_eq!(i2.opcode, Opcode::VMASKMOVPS);
    assert_eq!(
        i1.operands,
        [OperandSpec::RegRRR, OperandSpec::RegVex, OperandSpec::Deref, OperandSpec::Nothing]
    );
    assert_eq!(
        i2.operands,
        [OperandSpec::Deref, OperandSpec::RegVex, OperandSpec::RegRRR, OperandSpec::Nothing]
    );
    assert_eq!(i1.vex_reg, reg(1, RegisterBank::X));
    assert_eq!(i2.vex_reg, i1.vex_reg);
    assert_eq!(i2.modrm_rrr, i1.modrm_rrr);
}

#[test]
fn known_map_without_opcode_runs_out() {
    // c4 e1 78: map 0f, but no opcode byte follows
    let (r, _, used) = decode_c4(&[0xe1, 0x78]);
    assert_eq!(r, Err(DecodeError::ExhaustedInput));
    assert_eq!(used, 2);
}

#[test]
fn failed_decode_keeps_length_and_payload() {
    let mut bytes = ByteStream::new(vec![0x3c, 0x00]);
    let mut instr = Instruction::invalid();
    instr.length = 7;
    let r = two_byte_vex(&mut bytes, &mut instr, 1);
    assert_eq!(r, Err(DecodeError::InvalidOpcode));
    assert_eq!(instr.length, 7);
    // payload 0x3c: R clear in the encoding, vvvv = 0111 -> register 8, L set
    assert_eq!(instr.vex_reg.num, 8);
    assert!(instr.prefixes.vex().r());
    assert!(instr.prefixes.vex().l());
    assert!(!instr.prefixes.vex().w());
}
