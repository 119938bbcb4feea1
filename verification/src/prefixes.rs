use vstd::prelude::*;

verus! {

/// The bits of a REX prefix, or of the REX-equivalent bits that a VEX prefix carries.
///
/// Bit 0 is B, bit 1 is X, bit 2 is R, bit 3 is W. A real REX prefix has the
/// pattern `0100_wrxb`; the bits a VEX prefix supplies additionally carry L in
/// bit 4 and are marked by bit 7, so they never read as a present REX prefix.
#[derive(Clone, Copy, Debug, PartialEq, Eq, Structural)]
pub struct PrefixRex {
    pub bits: u8,
}

impl PrefixRex {
    /// Whether these bits come from a real REX prefix.
    #[verifier::allow_in_spec]
    pub fn present(&self) -> bool
        returns
            (self.bits & 0xc0) == 0x40,
    {
        (self.bits & 0xc0) == 0x40
    }

    /// The B bit: extends the ModRM `mmm` field or the SIB base.
    #[verifier::allow_in_spec]
    pub fn b(&self) -> bool
        returns
            (self.bits & 0x01) == 0x01,
    {
        (self.bits & 0x01) == 0x01
    }

    /// The X bit: extends the SIB index.
    #[verifier::allow_in_spec]
    pub fn x(&self) -> bool
        returns
            (self.bits & 0x02) == 0x02,
    {
        (self.bits & 0x02) == 0x02
    }

    /// The R bit: extends the ModRM `rrr` field.
    #[verifier::allow_in_spec]
    pub fn r(&self) -> bool
        returns
            (self.bits & 0x04) == 0x04,
    {
        (self.bits & 0x04) == 0x04
    }

    /// The W bit: selects 64-bit operands.
    #[verifier::allow_in_spec]
    pub fn w(&self) -> bool
        returns
            (self.bits & 0x08) == 0x08,
    {
        (self.bits & 0x08) == 0x08
    }
}

/// A view of the REX-equivalent bits as the fields of a VEX prefix.
#[derive(Clone, Copy, Debug, PartialEq, Eq, Structural)]
pub struct PrefixVex {
    pub bits: u8,
}

impl PrefixVex {
    /// VEX.B, already inverted from its encoded form.
    #[verifier::allow_in_spec]
    pub fn b(&self) -> bool
        returns
            (self.bits & 0x01) == 0x01,
    {
        (self.bits & 0x01) == 0x01
    }

    /// VEX.X, already inverted from its encoded form.
    #[verifier::allow_in_spec]
    pub fn x(&self) -> bool
        returns
            (self.bits & 0x02) == 0x02,
    {
        (self.bits & 0x02) == 0x02
    }

    /// VEX.R, already inverted from its encoded form.
    #[verifier::allow_in_spec]
    pub fn r(&self) -> bool
        returns
            (self.bits & 0x04) == 0x04,
    {
        (self.bits & 0x04) == 0x04
    }

    /// VEX.W.
    #[verifier::allow_in_spec]
    pub fn w(&self) -> bool
        returns
            (self.bits & 0x08) == 0x08,
    {
        (self.bits & 0x08) == 0x08
    }

    /// VEX.L: 256-bit vector length when set.
    #[verifier::allow_in_spec]
    pub fn l(&self) -> bool
        returns
            (self.bits & 0x10) == 0x10,
    {
        (self.bits & 0x10) == 0x10
    }
}

/// The REX-equivalent bits that the two-byte VEX prefix (`c5`) encodes in its one payload byte.
pub open spec fn c5_rex_bits(bits: u8) -> u8 {
    ((((bits & 0x80) >> 5) ^ 0x04) | ((bits & 0x04) << 2) | 0x80) as u8
}

/// The REX-equivalent bits that the three-byte VEX prefix (`c4`) encodes in its two payload bytes.
pub open spec fn c4_rex_bits(high: u8, low: u8) -> u8 {
    ((((high >> 5) ^ 0x07) | ((low & 0x80) >> 4)) | ((low & 0x04) << 2) | 0x80) as u8
}

/// What the REX-equivalent bits of a two-byte VEX payload mean: R inverted from
/// bit 7, L from bit 2, W, X and B clear, and no REX prefix.
pub proof fn lemma_c5_fields(bits: u8)
    ensures
        (PrefixVex { bits: c5_rex_bits(bits) }).r() == ((bits & 0x80) == 0),
        (PrefixVex { bits: c5_rex_bits(bits) }).l() == ((bits & 0x04) == 0x04),
        !(PrefixVex { bits: c5_rex_bits(bits) }).w(),
        !(PrefixVex { bits: c5_rex_bits(bits) }).x(),
        !(PrefixVex { bits: c5_rex_bits(bits) }).b(),
        !(PrefixRex { bits: c5_rex_bits(bits) }).present(),
{
    let v = c5_rex_bits(bits);
    assert(((v & 0x04 == 0x04) <==> (bits & 0x80) == 0) && ((v & 0x10 == 0x10) <==> (bits & 0x04) == 0x04)
        && v & 0x08 != 0x08 && v & 0x02 != 0x02 && v & 0x01 != 0x01 && v & 0xc0 != 0x40) by (bit_vector)
        requires
            v == ((((bits & 0x80) >> 5) ^ 0x04) | ((bits & 0x04) << 2) | 0x80),
    ;
}

/// What the REX-equivalent bits of a three-byte VEX payload mean: R, X and B
/// inverted from bits 7, 6 and 5 of the first byte, W from bit 7 and L from
/// bit 2 of the second, and no REX prefix.
pub proof fn lemma_c4_fields(high: u8, low: u8)
    ensures
        (PrefixVex { bits: c4_rex_bits(high, low) }).r() == ((high & 0x80) == 0),
        (PrefixVex { bits: c4_rex_bits(high, low) }).x() == ((high & 0x40) == 0),
        (PrefixVex { bits: c4_rex_bits(high, low) }).b() == ((high & 0x20) == 0),
        (PrefixVex { bits: c4_rex_bits(high, low) }).w() == ((low & 0x80) == 0x80),
        (PrefixVex { bits: c4_rex_bits(high, low) }).l() == ((low & 0x04) == 0x04),
        !(PrefixRex { bits: c4_rex_bits(high, low) }).present(),
{
    let v = c4_rex_bits(high, low);
    assert(((v & 0x04 == 0x04) <==> (high & 0x80) == 0) && ((v & 0x02 == 0x02) <==> (high & 0x40) == 0)
        && ((v & 0x01 == 0x01) <==> (high & 0x20) == 0) && ((v & 0x08 == 0x08) <==> (low & 0x80) == 0x80)
        && ((v & 0x10 == 0x10) <==> (low & 0x04) == 0x04) && v & 0xc0 != 0x40) by (bit_vector)
        requires
            v == ((((high >> 5) ^ 0x07) | ((low & 0x80) >> 4)) | ((low & 0x04) << 2) | 0x80),
    ;
}

/// The prefixes of an instruction that the VEX decoder reads or writes.
#[derive(Clone, Copy, Debug, PartialEq, Eq, Structural)]
pub struct Prefixes {
    /// An address-size override (`67`) was seen: memory operands use 32-bit addresses.
    pub address_size: bool,
    /// REX bits, or the REX-equivalent bits of a VEX prefix.
    pub rex: PrefixRex,
}

impl Prefixes {
    /// Whether memory operands use 32-bit addresses.
    #[verifier::allow_in_spec]
    pub fn address_size(&self) -> bool
        returns
            self.address_size,
    {
        self.address_size
    }

    /// The REX bits.
    #[verifier::allow_in_spec]
    pub fn rex(&self) -> PrefixRex
        returns
            self.rex,
    {
        self.rex
    }

    /// The same bits read as the fields of a VEX prefix.
    #[verifier::allow_in_spec]
    pub fn vex(&self) -> PrefixVex
        returns
            (PrefixVex { bits: self.rex.bits }),
    {
        PrefixVex { bits: self.rex.bits }
    }

    /// Records the payload byte of a two-byte VEX prefix (`c5 RvvvvLpp`).
    ///
    /// The two-byte form encodes R (inverted) and L; X and B read as clear, W as
    /// zero, and the bits are never taken for a REX prefix.
    pub fn vex_from_c5(&mut self, bits: u8)
        ensures
            final(self).address_size == old(self).address_size,
            final(self).rex.bits == c5_rex_bits(bits),
            final(self).vex().r() == ((bits & 0x80) == 0),
            final(self).vex().l() == ((bits & 0x04) == 0x04),
            !final(self).vex().w(),
            !final(self).vex().x(),
            !final(self).vex().b(),
            !final(self).rex().present(),
    {
        let r = bits & 0x80;
        let wrxb = (r >> 5) ^ 0x04;
        let l = (bits & 0x04) << 2;
        let synthetic_rex = wrxb | l | 0x80;
        self.rex = PrefixRex { bits: synthetic_rex };
        proof {
            lemma_c5_fields(bits);
        }
    }

    /// Records the payload bytes of a three-byte VEX prefix (`c4 RXBmmmmm WvvvvLpp`).
    ///
    /// R, X and B are encoded inverted; W and L are taken as they stand. The bits
    /// are never taken for a REX prefix.
    pub fn vex_from_c4(&mut self, high: u8, low: u8)
        ensures
            final(self).address_size == old(self).address_size,
            final(self).rex.bits == c4_rex_bits(high, low),
            final(self).vex().r() == ((high & 0x80) == 0),
            final(self).vex().x() == ((high & 0x40) == 0),
            final(self).vex().b() == ((high & 0x20) == 0),
            final(self).vex().w() == ((low & 0x80) == 0x80),
            final(self).vex().l() == ((low & 0x04) == 0x04),
            !final(self).rex().present(),
    {
        let w = low & 0x80;
        let rxb = (high >> 5) ^ 0x07;
        let wrxb = rxb | (w >> 4);
        let l = (low & 0x04) << 2;
        let synthetic_rex = wrxb | l | 0x80;
        self.rex = PrefixRex { bits: synthetic_rex };
        proof {
            lemma_c4_fields(high, low);
        }
    }
}

} // verus!
