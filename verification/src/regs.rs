use vstd::prelude::*;

verus! {

/// The register file that a register number refers to.
#[allow(non_camel_case_types)]
#[derive(Clone, Copy, Debug, PartialEq, Eq, Structural)]
pub enum RegisterBank {
    /// 64-bit general purpose registers.
    Q,
    /// 32-bit general purpose registers.
    D,
    /// 16-bit general purpose registers.
    W,
    /// 8-bit general purpose registers without a REX prefix (al..bh).
    B,
    /// 8-bit general purpose registers with a REX prefix (al..r15b).
    rB,
    /// 128-bit vector registers (xmm).
    X,
    /// 256-bit vector registers (ymm).
    Y,
    /// The 64-bit instruction pointer.
    RIP,
    /// The 32-bit instruction pointer.
    EIP,
}

/// A register: a number within a bank.
#[derive(Clone, Copy, Debug, PartialEq, Eq, Structural)]
pub struct RegSpec {
    pub num: u8,
    pub bank: RegisterBank,
}

impl RegSpec {
    /// Builds a register from a three-bit field of an encoding and the
    /// extension bit (REX or VEX) that selects the upper eight registers.
    #[verifier::allow_in_spec]
    pub fn from_parts(num: u8, extended: bool, bank: RegisterBank) -> RegSpec
        requires
            num < 8,
        returns
            (RegSpec { num: (num + if extended { 8int } else { 0int }) as u8, bank: bank }),
    {
        RegSpec { num: num + if extended { 8 } else { 0 }, bank }
    }

    /// The 64-bit instruction pointer, the base of RIP-relative addressing.
    #[verifier::allow_in_spec]
    pub fn rip() -> RegSpec
        returns
            (RegSpec { num: 0, bank: RegisterBank::RIP }),
    {
        RegSpec { num: 0, bank: RegisterBank::RIP }
    }

    /// The 32-bit instruction pointer, the base of EIP-relative addressing.
    #[verifier::allow_in_spec]
    pub fn eip() -> RegSpec
        returns
            (RegSpec { num: 0, bank: RegisterBank::EIP }),
    {
        RegSpec { num: 0, bank: RegisterBank::EIP }
    }
}

} // verus!
