use vstd::prelude::*;

verus! {

/// The four flags kept in the upper nibble of register F.
#[derive(Clone, Copy, Debug, PartialEq, Eq, Structural)]
pub struct FlagsRegister {
    pub zero: bool,
    pub subtract: bool,
    pub half_carry: bool,
    pub carry: bool,
}

/// Bit positions of the flags inside the F register.
pub const ZERO_FLAG_BYTE_POSITION: u8 = 7;
pub const SUBTRACT_FLAG_BYTE_POSITION: u8 = 6;
pub const HALF_CARRY_FLAG_BYTE_POSITION: u8 = 5;
pub const CARRY_FLAG_BYTE_POSITION: u8 = 4;

/// The byte that encodes the flags: Z is bit 7, N bit 6, H bit 5, C bit 4,
/// the low nibble is zero.
pub open spec fn flags_byte(f: FlagsRegister) -> u8 {
    ((if f.zero { 128int } else { 0 }) + (if f.subtract { 64int } else { 0 }) + (if f.half_carry {
        32int
    } else {
        0
    }) + (if f.carry { 16int } else { 0 })) as u8
}

/// The flags that a byte encodes: each flag is the bit at its position.
pub open spec fn flags_of_byte(b: u8) -> FlagsRegister {
    FlagsRegister {
        zero: b & 0x80 == 0x80,
        subtract: b & 0x40 == 0x40,
        half_carry: b & 0x20 == 0x20,
        carry: b & 0x10 == 0x10,
    }
}

impl FlagsRegister {
    pub fn new() -> (r: FlagsRegister)
        ensures
            r == (FlagsRegister { zero: false, subtract: false, half_carry: false, carry: false }),
    {
        FlagsRegister { zero: false, subtract: false, half_carry: false, carry: false }
    }

    /// Encodes the flags as the F register byte.
    pub fn to_byte(&self) -> (r: u8)
        ensures
            r == flags_byte(*self),
    {
        let z: u8 = if self.zero { 1 } else { 0 };
        let n: u8 = if self.subtract { 1 } else { 0 };
        let h: u8 = if self.half_carry { 1 } else { 0 };
        let c: u8 = if self.carry { 1 } else { 0 };
        let r: u8 = (z << ZERO_FLAG_BYTE_POSITION) | (n << SUBTRACT_FLAG_BYTE_POSITION) | (h
            << HALF_CARRY_FLAG_BYTE_POSITION) | (c << CARRY_FLAG_BYTE_POSITION);
        assert(r == z * 128 + n * 64 + h * 32 + c * 16) by (bit_vector)
            requires
                z <= 1,
                n <= 1,
                h <= 1,
                c <= 1,
                r == (z << 7u8) | (n << 6u8) | (h << 5u8) | (c << 4u8),
        ;
        r
    }

    /// Decodes the F register byte; the low nibble is ignored.
    pub fn from_byte(byte: u8) -> (r: FlagsRegister)
        ensures
            r == flags_of_byte(byte),
    {
        let zero = ((byte >> ZERO_FLAG_BYTE_POSITION) & 0b1) != 0;
        let subtract = ((byte >> SUBTRACT_FLAG_BYTE_POSITION) & 0b1) != 0;
        let half_carry = ((byte >> HALF_CARRY_FLAG_BYTE_POSITION) & 0b1) != 0;
        let carry = ((byte >> CARRY_FLAG_BYTE_POSITION) & 0b1) != 0;
        assert(((byte >> 7u8) & 1 != 0) == (byte & 0x80 == 0x80) && ((byte >> 6u8) & 1 != 0) == (
        byte & 0x40 == 0x40) && ((byte >> 5u8) & 1 != 0) == (byte & 0x20 == 0x20) && ((byte >> 4u8)
            & 1 != 0) == (byte & 0x10 == 0x10)) by (bit_vector);
        FlagsRegister { zero, subtract, half_carry, carry }
    }
}

/// Decoding the encoding of the flags gives the flags back.
pub proof fn lemma_flags_byte_roundtrip(f: FlagsRegister)
    ensures
        flags_of_byte(flags_byte(f)) == f,
{
    let b = flags_byte(f);
    assert(forall|x: u8|
        #![auto]
        (x == 0 || x == 16 || x == 32 || x == 48 || x == 64 || x == 80 || x == 96 || x == 112 || x
            == 128 || x == 144 || x == 160 || x == 176 || x == 192 || x == 208 || x == 224 || x
            == 240) ==> ((x & 0x80 == 0x80) == (x >= 128) && (x & 0x40 == 0x40) == (x % 128 >= 64)
            && (x & 0x20 == 0x20) == (x % 64 >= 32) && (x & 0x10 == 0x10) == (x % 32 >= 16)))
        by (bit_vector);
}

/// Encoding decoded flags keeps exactly the upper nibble of the byte.
pub proof fn lemma_byte_flags_roundtrip(b: u8)
    ensures
        flags_byte(flags_of_byte(b)) == b & 0xF0,
{
    assert(b & 0xF0 == (if b & 0x80 == 0x80 { 128u8 } else { 0 }) + (if b & 0x40 == 0x40 {
        64u8
    } else {
        0
    }) + (if b & 0x20 == 0x20 { 32u8 } else { 0 }) + (if b & 0x10 == 0x10 { 16u8 } else { 0 }))
        by (bit_vector);
}


/// The eight-bit registers of the CPU; F is kept decoded as flags.
#[derive(Clone, Copy, Debug, PartialEq, Eq, Structural)]
pub struct Registers {
    pub a: u8,
    pub b: u8,
    pub c: u8,
    pub d: u8,
    pub e: u8,
    pub flags: FlagsRegister,
    pub h: u8,
    pub l: u8,
}

/// The sixteen-bit value of a register pair: high byte first.
pub open spec fn pair(hi: u8, lo: u8) -> u16 {
    (hi as int * 256 + lo as int) as u16
}

impl Registers {
    pub open spec fn bc(self) -> u16 {
        pair(self.b, self.c)
    }

    pub open spec fn de(self) -> u16 {
        pair(self.d, self.e)
    }

    pub open spec fn hl(self) -> u16 {
        pair(self.h, self.l)
    }

    pub open spec fn af(self) -> u16 {
        pair(self.a, flags_byte(self.flags))
    }

    pub open spec fn with_bc(self, v: u16) -> Registers {
        Registers { b: (v / 256) as u8, c: (v % 256) as u8, ..self }
    }

    pub open spec fn with_de(self, v: u16) -> Registers {
        Registers { d: (v / 256) as u8, e: (v % 256) as u8, ..self }
    }

    pub open spec fn with_hl(self, v: u16) -> Registers {
        Registers { h: (v / 256) as u8, l: (v % 256) as u8, ..self }
    }

    pub open spec fn with_af(self, v: u16) -> Registers {
        Registers { a: (v / 256) as u8, flags: flags_of_byte((v % 256) as u8), ..self }
    }

    /// All registers zero and all flags clear.
    pub open spec fn new_spec() -> Registers {
        Registers {
            a: 0,
            b: 0,
            c: 0,
            d: 0,
            e: 0,
            flags: FlagsRegister { zero: false, subtract: false, half_carry: false, carry: false },
            h: 0,
            l: 0,
        }
    }

    pub fn new() -> (r: Registers)
        ensures
            r == Registers::new_spec(),
    {
        Registers { a: 0, b: 0, c: 0, d: 0, e: 0, flags: FlagsRegister::new(), h: 0, l: 0 }
    }

    pub fn get_bc(&self) -> (r: u16)
        ensures
            r == self.bc(),
    {
        join(self.b, self.c)
    }

    pub fn set_bc(&mut self, value: u16)
        ensures
            *final(self) == old(self).with_bc(value),
    {
        let (hi, lo) = split(value);
        self.b = hi;
        self.c = lo;
    }

    pub fn get_de(&self) -> (r: u16)
        ensures
            r == self.de(),
    {
        join(self.d, self.e)
    }

    pub fn set_de(&mut self, value: u16)
        ensures
            *final(self) == old(self).with_de(value),
    {
        let (hi, lo) = split(value);
        self.d = hi;
        self.e = lo;
    }

    pub fn get_hl(&self) -> (r: u16)
        ensures
            r == self.hl(),
    {
        join(self.h, self.l)
    }

    pub fn set_hl(&mut self, value: u16)
        ensures
            *final(self) == old(self).with_hl(value),
    {
        let (hi, lo) = split(value);
        self.h = hi;
        self.l = lo;
    }

    pub fn get_af(&self) -> (r: u16)
        ensures
            r == self.af(),
    {
        join(self.a, self.flags.to_byte())
    }

    pub fn set_af(&mut self, value: u16)
        ensures
            *final(self) == old(self).with_af(value),
    {
        let (hi, lo) = split(value);
        self.a = hi;
        self.flags = FlagsRegister::from_byte(lo);
    }
}

/// Joins a high and a low byte into a word.
pub fn join(hi: u8, lo: u8) -> (r: u16)
    ensures
        r == pair(hi, lo),
{
    let r: u16 = ((hi as u16) << 8) | (lo as u16);
    assert(r == hi as u16 * 256 + lo as u16) by (bit_vector)
        requires
            r == ((hi as u16) << 8u16) | (lo as u16),
    ;
    r
}

/// Splits a word into its high and its low byte.
pub fn split(value: u16) -> (r: (u8, u8))
    ensures
        r.0 == value / 256,
        r.1 == value % 256,
{
    let hi: u8 = ((value & 0xFF00) >> 8) as u8;
    let lo: u8 = (value & 0xFF) as u8;
    assert(((value & 0xFF00) >> 8u16) == value / 256 && (value & 0xFF) == value % 256)
        by (bit_vector);
    (hi, lo)
}

/// Writing a register pair and reading it back gives the written value.
pub proof fn lemma_pair_write_read(r: Registers, v: u16)
    ensures
        r.with_bc(v).bc() == v,
        r.with_de(v).de() == v,
        r.with_hl(v).hl() == v,
{
}

/// Writing AF and reading it back keeps all bits but the low nibble of F.
pub proof fn lemma_af_write_read(r: Registers, v: u16)
    ensures
        r.with_af(v).af() == v - v % 16,
{
    let lo = (v % 256) as u8;
    lemma_byte_flags_roundtrip(lo);
    assert(lo & 0xF0 == lo - lo % 16) by (bit_vector);
}

/// Writing back the value just read leaves the registers unchanged.
pub proof fn lemma_pair_read_write(r: Registers)
    ensures
        r.with_bc(r.bc()) == r,
        r.with_de(r.de()) == r,
        r.with_hl(r.hl()) == r,
        r.with_af(r.af()) == r,
{
    lemma_flags_byte_roundtrip(r.flags);
}

/// Writing one pair leaves the other pairs unchanged.
pub proof fn lemma_pairs_independent(r: Registers, v: u16)
    ensures
        r.with_bc(v).de() == r.de() && r.with_bc(v).hl() == r.hl() && r.with_bc(v).af() == r.af(),
        r.with_de(v).bc() == r.bc() && r.with_de(v).hl() == r.hl() && r.with_de(v).af() == r.af(),
        r.with_hl(v).bc() == r.bc() && r.with_hl(v).de() == r.de() && r.with_hl(v).af() == r.af(),
        r.with_af(v).bc() == r.bc() && r.with_af(v).de() == r.de() && r.with_af(v).hl() == r.hl(),
{
}

} // verus!
