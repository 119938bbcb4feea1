# VEX instruction decoding for x86-64, verified with Verus

Decodes the part of an x86-64 instruction that follows a VEX prefix
(`c4` or `c5`): the prefix payload, the opcode byte and the operands.

Every executable function states its effect exactly, as a pure function of
the bytes that remain in the input and of the instruction decoded so far
(`Step`: result, resulting instruction, bytes read).

Layout of `src/`:

- `regs.rs`, `prefixes.rs`, `opcode.rs`, `instruction.rs`: registers, prefix
  bits, mnemonics, operands and the instruction being decoded (with its
  mathematical view `InstructionView`).
- `stream.rs`: the input (`ByteStream`), single bytes, little-endian numbers,
  immediates and displacements.
- `modrm.rs`: ModRM and SIB operands (registers, memory, RIP-relative).
- `vex_table.rs`: the decode table from (map, implied prefix, opcode, L, W) to
  mnemonic and operand form.
- `vex.rs`: `two_byte_vex`, `three_byte_vex`, `read_vex_instruction`,
  `read_vex_operands`.
- `laws.rs`: properties proved of the decoder as a whole: bounded consumption
  and exact length accounting, no look-ahead past the bytes read, the two-byte
  form as an abbreviation of the three-byte form, the opcode verdict on
  rejection and success, the VEX fields recorded from the payload and kept by
  later steps, the length kept on failure, the `rrr` and VEX register banks of
  each operand form, the mirrored `G,V,E`/`E,V,G` forms, and map/prefix
  rejection.
