//! The processor status register.

use vstd::prelude::*;

verus! {

/// The seven status flags of the 6502.
///
/// In the packed byte the flags take bits 0 to 7 in the order
/// `C Z I D B - V N`; bit 5 has no flag behind it and always reads as one.
#[derive(Clone, Copy, Debug, PartialEq, Eq, Structural)]
pub struct P6502Flags {
    /// Carry flag
    pub c: bool,
    /// Zero flag
    pub z: bool,
    /// Interrupt mask
    pub i: bool,
    /// Decimal flag
    pub d: bool,
    /// Break flag
    pub b: bool,
    /// Overflow flag
    pub v: bool,
    /// Negative flag
    pub n: bool,
}

/// The contribution of one flag to the packed byte.
pub open spec fn weight(flag: bool, value: int) -> int {
    if flag {
        value
    } else {
        0
    }
}

impl P6502Flags {
    /// The packed byte that stands for these flags.
    pub open spec fn packed(self) -> u8 {
        (weight(self.c, 0x01) + weight(self.z, 0x02) + weight(self.i, 0x04) + weight(self.d, 0x08)
            + weight(self.b, 0x10) + 0x20 + weight(self.v, 0x40) + weight(self.n, 0x80)) as u8
    }

    /// The flags that a packed byte stands for.
    pub open spec fn unpacked(value: u8) -> P6502Flags {
        P6502Flags {
            c: value % 2 == 1,
            z: (value / 0x02) % 2 == 1,
            i: (value / 0x04) % 2 == 1,
            d: (value / 0x08) % 2 == 1,
            b: (value / 0x10) % 2 == 1,
            v: (value / 0x40) % 2 == 1,
            n: (value / 0x80) % 2 == 1,
        }
    }

    /// All flags clear.
    pub open spec fn cleared() -> P6502Flags {
        P6502Flags { c: false, z: false, i: false, d: false, b: false, v: false, n: false }
    }

    /// Returns the 8-bit representation of the seven flags. Bit 5 of it is
    /// always set.
    pub fn as_binary(&self) -> (representation: u8)
        ensures
            representation == self.packed(),
            representation & 0x20 == 0x20,
            Self::unpacked(representation) == *self,
    {
        proof {
            lemma_pack_unpack(*self);
        }
        let mut representation: u8 = 0x20;
        if self.c {
            representation += 0x01;
        }
        if self.z {
            representation += 0x02;
        }
        if self.i {
            representation += 0x04;
        }
        if self.d {
            representation += 0x08;
        }
        if self.b {
            representation += 0x10;
        }
        if self.v {
            representation += 0x40;
        }
        if self.n {
            representation += 0x80;
        }
        representation
    }

    /// Reads the flags back from an 8-bit number. Bit 5 is not kept.
    pub fn from_binary(value: u8) -> (flags: Self)
        ensures
            flags == Self::unpacked(value),
    {
        proof {
            lemma_masks(value);
        }
        Self {
            c: (value & 0b0000_0001) != 0,
            z: (value & 0b0000_0010) != 0,
            i: (value & 0b0000_0100) != 0,
            d: (value & 0b0000_1000) != 0,
            b: (value & 0b0001_0000) != 0,
            v: (value & 0b0100_0000) != 0,
            n: (value & 0b1000_0000) != 0,
        }
    }
}

impl Default for P6502Flags {
    fn default() -> (flags: Self)
        ensures
            flags == Self::cleared(),
    {
        Self { c: false, z: false, i: false, d: false, b: false, v: false, n: false }
    }
}

/// Testing a single-bit mask agrees with the arithmetic reading of that bit.
pub proof fn lemma_masks(value: u8)
    by (bit_vector)
    ensures
        (value & 0x01 != 0) == (value % 2 == 1),
        (value & 0x02 != 0) == ((value / 0x02) % 2 == 1),
        (value & 0x04 != 0) == ((value / 0x04) % 2 == 1),
        (value & 0x08 != 0) == ((value / 0x08) % 2 == 1),
        (value & 0x10 != 0) == ((value / 0x10) % 2 == 1),
        (value & 0x20 != 0) == ((value / 0x20) % 2 == 1),
        (value & 0x40 != 0) == ((value / 0x40) % 2 == 1),
        (value & 0x80 != 0) == ((value / 0x80) % 2 == 1),
{
}

/// Packing and then unpacking gives the same seven flags back, and the
/// packed byte always has bit 5 set.
pub proof fn lemma_pack_unpack(flags: P6502Flags)
    ensures
        P6502Flags::unpacked(flags.packed()) == flags,
        (flags.packed() / 0x20) % 2 == 1,
        flags.packed() & 0x20 == 0x20,
{
    let p = flags.packed();
    lemma_masks(p);
    assert(p & 0x20 != 0 ==> p & 0x20 == 0x20) by (bit_vector);
}

/// Unpacking and then packing gives the same byte back but for bit 5, which
/// comes back set.
pub proof fn lemma_unpack_pack(value: u8)
    ensures
        P6502Flags::unpacked(value).packed() == value | 0x20,
        P6502Flags::unpacked(value).packed() == if (value / 0x20) % 2 == 1 {
            value as int
        } else {
            value + 0x20
        },
{
    assert(value == (value % 2) + 0x02 * ((value / 0x02) % 2) + 0x04 * ((value / 0x04) % 2) + 0x08
        * ((value / 0x08) % 2) + 0x10 * ((value / 0x10) % 2) + 0x20 * ((value / 0x20) % 2) + 0x40
        * ((value / 0x40) % 2) + 0x80 * ((value / 0x80) % 2)) by (bit_vector);
    assert(value | 0x20 == if (value / 0x20) % 2 == 1 {
        value as int
    } else {
        value + 0x20
    }) by (bit_vector);
}

} // verus!
