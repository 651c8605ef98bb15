//! The borrow and carry of the byte and word arithmetic, and the flags of
//! the logic operations.
use vstd::prelude::*;
use crate::alu::{add8_spec, adc8_spec, sub8_spec, sbc8_spec, and8_spec, or8_spec, xor8_spec, inc8_spec, dec8_spec, add16_spec, add_sp_spec};
use crate::registers::FlagsRegister;

verus! {

// --------------------------------------------------- carries and borrows

/// The byte arithmetic is exact up to its carry: ADD and ADC give the sum
/// less 256 when the carry is set, SUB and SBC the difference plus 256 when
/// it is set (the carry is the borrow, the incoming carry counted in for
/// SBC).
pub proof fn lemma_carry_is_the_overflow(a: u8, v: u8, c: bool)
    ensures
        add8_spec(a, v).0 + 256 * (if add8_spec(a, v).1.carry { 1int } else { 0int }) == a + v,
        adc8_spec(a, v, c).0 + 256 * (if adc8_spec(a, v, c).1.carry { 1int } else { 0int }) == a + v + (if c {
            1int
        } else {
            0int
        }),
        sub8_spec(a, v).0 - 256 * (if sub8_spec(a, v).1.carry { 1int } else { 0int }) == a - v,
        sbc8_spec(a, v, c).0 - 256 * (if sbc8_spec(a, v, c).1.carry { 1int } else { 0int }) == a - v - (if c {
            1int
        } else {
            0int
        }),
{
}

/// How a sum splits at a nibble: the low nibbles of two bytes (and an
/// incoming carry) add to the low nibble of their sum modulo 256, plus 16
/// when they carry out of it.
proof fn lemma_nibble_sum(x: u8, y: u8, k: u8)
    by (bit_vector)
    requires
        k <= 1,
    ensures
        x % 16 + y % 16 + k > 15 ==> x % 16 + y % 16 + k == ((x + y + k) % 256) % 16 + 16,
        x % 16 + y % 16 + k <= 15 ==> x % 16 + y % 16 + k == ((x + y + k) % 256) % 16,
{
}

/// How a difference splits at a nibble: the low nibble of the minuend less
/// that of the subtrahend (and a borrow) is the low nibble of the
/// difference modulo 256, less 16 when it borrows from it.
proof fn lemma_nibble_difference(x: u8, y: u8, k: u8)
    by (bit_vector)
    requires
        k <= 1,
    ensures
        x % 16 < y % 16 + k ==> x % 16 + 16 == ((x + 512 - y - k) % 256) % 16 + y % 16 + k,
        x % 16 >= y % 16 + k ==> x % 16 == ((x + 512 - y - k) % 256) % 16 + y % 16 + k,
{
}

proof fn lemma_add_nibble(a: u8, v: u8)
    ensures
        ({
            let (r, g) = add8_spec(a, v);
            &&& a % 16 + v % 16 == r % 16 + 16 * (if g.half_carry { 1int } else { 0int })
            &&& g.zero == (r == 0) && !g.subtract
        }),
{
    lemma_nibble_sum(a, v, 0);
}

proof fn lemma_adc_nibble(a: u8, v: u8, c: bool)
    ensures
        ({
            let (r, g) = adc8_spec(a, v, c);
            &&& a % 16 + v % 16 + (if c { 1int } else { 0int }) == r % 16 + 16 * (if g.half_carry { 1int } else { 0int })
            &&& g.zero == (r == 0) && !g.subtract
        }),
{
    let k: u8 = if c { 1 } else { 0 };
    lemma_nibble_sum(a, v, k);
}

proof fn lemma_sub_nibble(a: u8, v: u8)
    ensures
        ({
            let (r, g) = sub8_spec(a, v);
            &&& a % 16 - v % 16 == r % 16 - 16 * (if g.half_carry { 1int } else { 0int })
            &&& g.zero == (r == 0) && g.subtract
        }),
{
    lemma_nibble_difference(a, v, 0);
    assert((a - v + 256) % 256 == (a + 512 - v - 0) % 256);
}

proof fn lemma_inc_nibble(a: u8, f: FlagsRegister)
    ensures
        ({
            let (r, g) = inc8_spec(a, f);
            &&& r + 256 * (if a == 255 { 1int } else { 0int }) == a + 1
            &&& a % 16 + 1 == r % 16 + 16 * (if g.half_carry { 1int } else { 0int })
            &&& g.zero == (r == 0) && !g.subtract && g.carry == f.carry
        }),
{
    lemma_nibble_sum(a, 0, 1);
}

proof fn lemma_dec_nibble(a: u8, f: FlagsRegister)
    ensures
        ({
            let (r, g) = dec8_spec(a, f);
            &&& r - 256 * (if a == 0 { 1int } else { 0int }) == a - 1
            &&& a % 16 - 1 == r % 16 - 16 * (if g.half_carry { 1int } else { 0int })
            &&& g.zero == (r == 0) && g.subtract && g.carry == f.carry
        }),
{
    lemma_nibble_difference(a, 0, 1);
    assert((a + 255) % 256 == (a + 512 - 0 - 1) % 256);
}

/// The half carry is the carry out of (or the borrow into) the low nibble,
/// and the zero and subtract flags say whether the result is zero and
/// whether the operation subtracted: for ADD, ADC, SUB, INC and DEC on
/// bytes. INC and DEC keep the carry flag.
pub proof fn lemma_nibble_carries(a: u8, v: u8, c: bool, f: FlagsRegister)
    ensures
        ({
            let (r, g) = add8_spec(a, v);
            &&& a % 16 + v % 16 == r % 16 + 16 * (if g.half_carry { 1int } else { 0int })
            &&& g.zero == (r == 0) && !g.subtract
        }),
        ({
            let (r, g) = adc8_spec(a, v, c);
            &&& a % 16 + v % 16 + (if c { 1int } else { 0int }) == r % 16 + 16 * (if g.half_carry { 1int } else { 0int })
            &&& g.zero == (r == 0) && !g.subtract
        }),
        ({
            let (r, g) = sub8_spec(a, v);
            &&& a % 16 - v % 16 == r % 16 - 16 * (if g.half_carry { 1int } else { 0int })
            &&& g.zero == (r == 0) && g.subtract
        }),
        ({
            let (r, g) = sbc8_spec(a, v, c);
            g.zero == (r == 0) && g.subtract
        }),
        ({
            let (r, g) = inc8_spec(a, f);
            &&& r + 256 * (if a == 255 { 1int } else { 0int }) == a + 1
            &&& a % 16 + 1 == r % 16 + 16 * (if g.half_carry { 1int } else { 0int })
            &&& g.zero == (r == 0) && !g.subtract && g.carry == f.carry
        }),
        ({
            let (r, g) = dec8_spec(a, f);
            &&& r - 256 * (if a == 0 { 1int } else { 0int }) == a - 1
            &&& a % 16 - 1 == r % 16 - 16 * (if g.half_carry { 1int } else { 0int })
            &&& g.zero == (r == 0) && g.subtract && g.carry == f.carry
        }),
{
    lemma_add_nibble(a, v);
    lemma_adc_nibble(a, v, c);
    lemma_sub_nibble(a, v);
    lemma_inc_nibble(a, f);
    lemma_dec_nibble(a, f);
}

/// AND, OR and XOR combine the bits and clear the carry; AND sets the half
/// carry, OR and XOR clear it; Z says whether the result is zero.
pub proof fn lemma_logic_flags(a: u8, v: u8)
    ensures
        and8_spec(a, v) == (a & v, FlagsRegister { zero: a & v == 0, subtract: false, half_carry: true, carry: false }),
        or8_spec(a, v) == (a | v, FlagsRegister { zero: a | v == 0, subtract: false, half_carry: false, carry: false }),
        xor8_spec(a, v) == (a ^ v, FlagsRegister { zero: a ^ v == 0, subtract: false, half_carry: false, carry: false }),
{
}

/// How a 16-bit sum splits at bit 12: the low twelve bits of two words add
/// to the low twelve bits of their sum modulo 65536, plus 4096 when they
/// carry out of them.
proof fn lemma_twelve_bit_sum(x: u16, y: u16)
    by (bit_vector)
    ensures
        x % 4096 + y % 4096 > 4095 ==> x % 4096 + y % 4096 == ((x + y) % 65536) % 4096 + 4096,
        x % 4096 + y % 4096 <= 4095 ==> x % 4096 + y % 4096 == ((x + y) % 65536) % 4096,
{
}

proof fn lemma_add16_bits(hl: u16, v: u16, f: FlagsRegister)
    ensures
        ({
            let (r, g) = add16_spec(hl, v, f);
            &&& r + 65536 * (if g.carry { 1int } else { 0int }) == hl + v
            &&& hl % 4096 + v % 4096 == r % 4096 + 4096 * (if g.half_carry { 1int } else { 0int })
            &&& g.zero == f.zero && !g.subtract
        }),
{
    lemma_twelve_bit_sum(hl, v);
}

/// How a word and a byte add at bit 4 and at bit 8.
proof fn lemma_low_byte_sums(x: u16, d: u16)
    requires
        d < 256,
    ensures
        x % 16 + d % 16 > 15 ==> x % 16 + d % 16 == (x + d) % 16 + 16,
        x % 16 + d % 16 <= 15 ==> x % 16 + d % 16 == (x + d) % 16,
        x % 256 + d > 255 ==> x % 256 + d == (x + d) % 256 + 256,
        x % 256 + d <= 255 ==> x % 256 + d == (x + d) % 256,
{
    assert(x == 16 * (x / 16) + x % 16);
    assert(d == 16 * (d / 16) + d % 16);
    assert(x == 256 * (x / 256) + x % 256);
}

proof fn lemma_add_sp_bits(sp: u16, d: u8)
    ensures
        ({
            let (r, g) = add_sp_spec(sp, d);
            &&& r == (sp + (if d < 128 { d as int } else { d - 256 })) % 65536
            &&& sp % 16 + d % 16 == (sp + d) % 16 + 16 * (if g.half_carry { 1int } else { 0int })
            &&& sp % 256 + d == (sp + d) % 256 + 256 * (if g.carry { 1int } else { 0int })
            &&& !g.zero && !g.subtract
        }),
{
    lemma_low_byte_sums(sp, d as u16);
    let e: int = if d < 128 { d as int } else { d - 256 };
    assert((sp + e + 65536) % 65536 == (sp + e) % 65536);
}

/// ADD HL,rr is exact up to its carry out of bit 15, its half carry is the
/// carry out of bit 11, and it keeps the zero flag. ADD SP,e adds the
/// signed byte, and takes H and C from the carries out of bits 3 and 7 of
/// the unsigned low byte sum.
pub proof fn lemma_word_carries(hl: u16, v: u16, f: FlagsRegister, sp: u16, d: u8)
    ensures
        ({
            let (r, g) = add16_spec(hl, v, f);
            &&& r + 65536 * (if g.carry { 1int } else { 0int }) == hl + v
            &&& hl % 4096 + v % 4096 == r % 4096 + 4096 * (if g.half_carry { 1int } else { 0int })
            &&& g.zero == f.zero && !g.subtract
        }),
        ({
            let (r, g) = add_sp_spec(sp, d);
            &&& r == (sp + (if d < 128 { d as int } else { d - 256 })) % 65536
            &&& sp % 16 + d % 16 == (sp + d) % 16 + 16 * (if g.half_carry { 1int } else { 0int })
            &&& sp % 256 + d == (sp + d) % 256 + 256 * (if g.carry { 1int } else { 0int })
            &&& !g.zero && !g.subtract
        }),
{
    lemma_add16_bits(hl, v, f);
    lemma_add_sp_bits(sp, d);
}

} // verus!
