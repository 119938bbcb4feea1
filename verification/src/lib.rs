pub mod regs;
pub mod prefixes;
pub mod opcode;
pub mod instruction;
pub mod stream;
pub mod modrm;
pub mod vex_table;
pub mod vex;
pub mod laws;
pub mod encoding;
pub mod families;
