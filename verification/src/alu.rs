//! The arithmetic and logic unit: pure functions from operands and flags to
//! a result and the new flags.
use vstd::prelude::*;
use crate::registers::FlagsRegister;

verus! {

pub open spec fn fl(zero: bool, subtract: bool, half_carry: bool, carry: bool) -> FlagsRegister {
    FlagsRegister { zero, subtract, half_carry, carry }
}

pub open spec fn bit_int(b: bool) -> int {
    if b { 1 } else { 0 }
}

pub proof fn lemma_masks_u8(x: u8)
    ensures
        x & 0xF == x % 16,
        x & 0xF0 == x - x % 16,
        x & 0x80 == 0x80 <==> x >= 128,
        x & 1 == 1 <==> x % 2 == 1,
        x >> 1u8 == x / 2,
        x >> 4u8 == x / 16,
{
    assert(x & 0xF == x % 16 && x & 0xF0 == x - x % 16 && (x & 0x80 == 0x80 <==> x >= 128) && (x
        & 1 == 1 <==> x % 2 == 1) && x >> 1u8 == x / 2 && x >> 4u8 == x / 16) by (bit_vector);
}

pub proof fn lemma_masks_u16(x: u16)
    ensures
        x & 0xF == x % 16,
        x & 0xFF == x % 256,
        x & 0xFFF == x % 4096,
{
    assert(x & 0xF == x % 16 && x & 0xFF == x % 256 && x & 0xFFF == x % 4096) by (bit_vector);
}

// ---------------------------------------------------------------- 8-bit adds

/// ADD: the sum modulo 256; H on a carry out of bit 3, C on a carry out of bit 7.
pub open spec fn add8_spec(a: u8, v: u8) -> (u8, FlagsRegister) {
    let r = ((a + v) % 256) as u8;
    (r, fl(r == 0, false, a % 16 + v % 16 > 15, a + v > 255))
}

pub fn add8(a: u8, v: u8) -> (r: (u8, FlagsRegister))
    ensures
        r == add8_spec(a, v),
{
    proof {
        lemma_masks_u8(a);
        lemma_masks_u8(v);
    }
    let sum: u16 = a as u16 + v as u16;
    let new_value: u8 = (sum % 256) as u8;
    let half_carry = (a & 0xF) + (v & 0xF) > 0xF;
    (new_value, FlagsRegister { zero: new_value == 0, subtract: false, half_carry, carry: sum > 255 })
}

/// ADC: adds the operand and the carry flag.
pub open spec fn adc8_spec(a: u8, v: u8, c: bool) -> (u8, FlagsRegister) {
    let r = ((a + v + bit_int(c)) % 256) as u8;
    (r, fl(r == 0, false, a % 16 + v % 16 + bit_int(c) > 15, a + v + bit_int(c) > 255))
}

pub fn adc8(a: u8, v: u8, carry: bool) -> (r: (u8, FlagsRegister))
    ensures
        r == adc8_spec(a, v, carry),
{
    proof {
        lemma_masks_u8(a);
        lemma_masks_u8(v);
    }
    let c: u8 = if carry { 1 } else { 0 };
    let first: u8 = ((a as u16 + v as u16) % 256) as u8;
    let sum: u16 = a as u16 + v as u16 + c as u16;
    let new_value: u8 = (sum % 256) as u8;
    proof {
        lemma_masks_u8(first);
    }
    let half_carry = ((a & 0xF) + (v & 0xF) > 0xF) || ((first & 0xF) + c > 0xF);
    (new_value, FlagsRegister { zero: new_value == 0, subtract: false, half_carry, carry: sum > 255 })
}

// ---------------------------------------------------------- 8-bit subtracts

/// SUB: the difference modulo 256; H on a borrow from bit 4, C on a borrow.
pub open spec fn sub8_spec(a: u8, v: u8) -> (u8, FlagsRegister) {
    let r = ((a - v + 256) % 256) as u8;
    (r, fl(r == 0, true, a % 16 < v % 16, a < v))
}

pub fn sub8(a: u8, v: u8) -> (r: (u8, FlagsRegister))
    ensures
        r == sub8_spec(a, v),
{
    proof {
        lemma_masks_u8(a);
        lemma_masks_u8(v);
    }
    let new_value: u8 = a.wrapping_sub(v);
    let low: u8 = (a & 0xF).wrapping_sub(v & 0xF);
    let half_carry = (low & 0x10) == 0x10;
    let al = a & 0xF;
    let vl = v & 0xF;
    assert(((al as int - vl as int + 256) % 256) as u8 & 0x10 == 0x10 <==> al < vl) by (bit_vector)
        requires
            al < 16,
            vl < 16,
    ;
    (new_value, FlagsRegister { zero: new_value == 0, subtract: true, half_carry, carry: a < v })
}

/// SBC: subtracts the operand and the carry flag; H compares the low nibble
/// of the result with the low nibble of the operand.
pub open spec fn sbc8_spec(a: u8, v: u8, c: bool) -> (u8, FlagsRegister) {
    let r = ((a - v - bit_int(c) + 512) % 256) as u8;
    (r, fl(r == 0, true, r % 16 < v % 16, a < v + bit_int(c)))
}

pub fn sbc8(a: u8, v: u8, carry: bool) -> (r: (u8, FlagsRegister))
    ensures
        r == sbc8_spec(a, v, carry),
{
    let c: u8 = if carry { 1 } else { 0 };
    let first: u8 = a.wrapping_sub(c);
    let new_value: u8 = first.wrapping_sub(v);
    assert(first == if a >= c { a - c } else { a - c + 256 });
    assert(new_value == if first >= v { first - v } else { first - v + 256 });
    assert(new_value == (a - v - c + 512) % 256);
    proof {
        lemma_masks_u8(new_value);
        lemma_masks_u8(v);
    }
    let rl = new_value & 0xF;
    let vl = v & 0xF;
    let low: u8 = rl.wrapping_sub(vl);
    let half_carry = (low & 0x10) == 0x10;
    assert(((rl as int - vl as int + 256) % 256) as u8 & 0x10 == 0x10 <==> rl < vl) by (bit_vector)
        requires
            rl < 16,
            vl < 16,
    ;
    let borrow = a < c || first < v;
    (new_value, FlagsRegister { zero: new_value == 0, subtract: true, half_carry, carry: borrow })
}

/// CP: the flags of a subtraction, without keeping the difference.
pub fn cp8(a: u8, v: u8) -> (r: FlagsRegister)
    ensures
        r == sub8_spec(a, v).1,
{
    let (_, f) = sub8(a, v);
    f
}

// ------------------------------------------------------------------- logic

pub open spec fn and8_spec(a: u8, v: u8) -> (u8, FlagsRegister) {
    (a & v, fl(a & v == 0, false, true, false))
}

pub open spec fn or8_spec(a: u8, v: u8) -> (u8, FlagsRegister) {
    (a | v, fl(a | v == 0, false, false, false))
}

pub open spec fn xor8_spec(a: u8, v: u8) -> (u8, FlagsRegister) {
    (a ^ v, fl(a ^ v == 0, false, false, false))
}

pub fn and8(a: u8, v: u8) -> (r: (u8, FlagsRegister))
    ensures
        r == and8_spec(a, v),
{
    let x = a & v;
    (x, FlagsRegister { zero: x == 0, subtract: false, half_carry: true, carry: false })
}

pub fn or8(a: u8, v: u8) -> (r: (u8, FlagsRegister))
    ensures
        r == or8_spec(a, v),
{
    let x = a | v;
    (x, FlagsRegister { zero: x == 0, subtract: false, half_carry: false, carry: false })
}

pub fn xor8(a: u8, v: u8) -> (r: (u8, FlagsRegister))
    ensures
        r == xor8_spec(a, v),
{
    let x = a ^ v;
    (x, FlagsRegister { zero: x == 0, subtract: false, half_carry: false, carry: false })
}

// ------------------------------------------------------- increment/decrement

/// INC: adds one; the carry flag is kept.
pub open spec fn inc8_spec(x: u8, f: FlagsRegister) -> (u8, FlagsRegister) {
    let r = ((x + 1) % 256) as u8;
    (r, fl(r == 0, false, x % 16 == 15, f.carry))
}

/// DEC: subtracts one; H when the low nibble was zero; the carry flag is kept.
pub open spec fn dec8_spec(x: u8, f: FlagsRegister) -> (u8, FlagsRegister) {
    let r = ((x + 255) % 256) as u8;
    (r, fl(r == 0, true, x % 16 == 0, f.carry))
}

pub fn inc8(x: u8, f: FlagsRegister) -> (r: (u8, FlagsRegister))
    ensures
        r == inc8_spec(x, f),
{
    proof {
        lemma_masks_u8(x);
        assert(1u8 & 0xF == 1) by (bit_vector);
    }
    let half_carry = (x & 0xF).wrapping_add(0b1 & 0xF) > 0xF;
    let nv = x.wrapping_add(1);
    (nv, FlagsRegister { zero: nv == 0, subtract: false, half_carry, carry: f.carry })
}

pub fn dec8(x: u8, f: FlagsRegister) -> (r: (u8, FlagsRegister))
    ensures
        r == dec8_spec(x, f),
{
    proof {
        lemma_masks_u8(x);
        assert(1u8 & 0xF == 1) by (bit_vector);
    }
    let half_carry = (x & 0xF).wrapping_sub(0b1 & 0xF) > 0xF;
    let nv = x.wrapping_sub(1);
    (nv, FlagsRegister { zero: nv == 0, subtract: true, half_carry, carry: f.carry })
}

// ------------------------------------------------------------- 16-bit adds

/// ADD HL,rr: the sum modulo 65536; H on a carry out of bit 11, C out of bit
/// 15; the zero flag is kept.
pub open spec fn add16_spec(hl: u16, v: u16, f: FlagsRegister) -> (u16, FlagsRegister) {
    ((((hl + v) % 65536) as u16), fl(f.zero, false, hl % 4096 + v % 4096 > 4095, hl + v > 65535))
}

pub fn add16(hl: u16, v: u16, f: FlagsRegister) -> (r: (u16, FlagsRegister))
    ensures
        r == add16_spec(hl, v, f),
{
    proof {
        lemma_masks_u16(hl);
        lemma_masks_u16(v);
    }
    let sum: u32 = hl as u32 + v as u32;
    let nv: u16 = (sum % 65536) as u16;
    let half_carry = (hl & 0xfff) + (v & 0xfff) > 0xfff;
    (nv, FlagsRegister { zero: f.zero, subtract: false, half_carry, carry: sum > 65535 })
}

/// The signed value of a byte.
pub open spec fn signed(d: u8) -> int {
    if d < 128 { d as int } else { d as int - 256 }
}

/// SP plus a signed byte (ADD SP,e and LD HL,SP+e): Z and N clear, H and C
/// from the unsigned addition of the low nibble and the low byte.
pub open spec fn add_sp_spec(sp: u16, d: u8) -> (u16, FlagsRegister) {
    ((((sp + signed(d) + 65536) % 65536) as u16), fl(false, false, sp % 16 + d % 16 > 15, sp % 256 + d > 255))
}

pub fn add_sp(sp: u16, d: u8) -> (r: (u16, FlagsRegister))
    ensures
        r == add_sp_spec(sp, d),
{
    proof {
        lemma_masks_u16(sp);
        lemma_masks_u8(d);
    }
    let value: u16 = if d < 128 { d as u16 } else { 0xFF00u16 + d as u16 };
    let nv: u16 = sp.wrapping_add(value);
    proof {
        lemma_masks_u16(value);
    }
    assert(value % 256 == d as int && value % 16 == d % 16);
    let carry = (sp & 0xFF) + (value & 0xFF) > 0xFF;
    let half_carry = (sp & 0xF) + (value & 0xF) > 0xF;
    (nv, FlagsRegister { zero: false, subtract: false, half_carry, carry })
}


// ----------------------------------------------------------------- rotates

/// Rotate left: every bit moves up one place; bit 7 goes to the carry, and
/// bit 0 takes the old bit 7 (RLC) or the old carry (RL).
pub open spec fn rotate_left_spec(x: u8, carry: bool, is_rc: bool) -> (u8, bool) {
    let in_bit = if is_rc { x >= 128 } else { carry };
    ((((x * 2) % 256) + bit_int(in_bit)) as u8, x >= 128)
}

/// Rotate right: every bit moves down one place; bit 0 goes to the carry,
/// and bit 7 takes the old bit 0 (RRC) or the old carry (RR).
pub open spec fn rotate_right_spec(x: u8, carry: bool, is_rc: bool) -> (u8, bool) {
    let in_bit = if is_rc { x % 2 == 1 } else { carry };
    ((x / 2 + 128 * bit_int(in_bit)) as u8, x % 2 == 1)
}

pub fn rotate_left(x: u8, carry: bool, is_rc: bool) -> (r: (u8, bool))
    ensures
        r == rotate_left_spec(x, carry, is_rc),
{
    let prev_bit7 = get_bit_val(7, x);
    let new_bit0 = if is_rc { prev_bit7 } else { carry };
    let b: u8 = if new_bit0 { 1 } else { 0 };
    let shifted: u8 = x << 1u8;
    assert(shifted == (x * 2) % 256 && shifted % 2 == 0) by (bit_vector)
        requires
            shifted == x << 1u8,
    ;
    assert(((x >> 7u8) & 1 == 1) == (x >= 128)) by (bit_vector);
    (shifted.wrapping_add(b), prev_bit7)
}

pub fn rotate_right(x: u8, carry: bool, is_rc: bool) -> (r: (u8, bool))
    ensures
        r == rotate_right_spec(x, carry, is_rc),
{
    let prev_bit0 = get_bit_val(0, x);
    let new_bit7 = if is_rc { prev_bit0 } else { carry };
    let b: u8 = if new_bit7 { 1 } else { 0 };
    let shifted: u8 = x >> 1u8;
    let top: u8 = b << 7u8;
    assert(shifted == x / 2 && shifted < 128) by (bit_vector)
        requires
            shifted == x >> 1u8,
    ;
    assert(top == 128 * b) by (bit_vector)
        requires
            top == b << 7u8,
            b <= 1,
    ;
    assert(((x >> 0u8) & 1 == 1) == (x % 2 == 1)) by (bit_vector);
    (shifted.wrapping_add(top), prev_bit0)
}

/// SWAP: exchanges the two nibbles.
pub open spec fn swap_spec(x: u8) -> u8 {
    ((x % 16) * 16 + x / 16) as u8
}

pub fn swap_nibbles(value: u8) -> (r: u8)
    ensures
        r == swap_spec(value),
{
    let low = value & 0x0F;
    let high = value & 0xF0;
    let lo4: u8 = low << 4u8;
    let hi4: u8 = high >> 4u8;
    assert(lo4 as int + hi4 as int == (value % 16) * 16 + value / 16) by (bit_vector)
        requires
            lo4 == (value & 0x0F) << 4u8,
            hi4 == (value & 0xF0) >> 4u8,
    ;
    lo4.wrapping_add(hi4)
}

// -------------------------------------------------------------------- bits

/// Bit `p` of `v`, counting from the least significant bit.
pub open spec fn bit_of(v: u8, p: u8) -> bool {
    (v >> p) & 1 == 1
}

/// Tells whether bit `position` of `value` is set.
pub fn get_bit_val(position: usize, value: u8) -> (r: bool)
    requires
        position < 8,
    ensures
        r == bit_of(value, position as u8),
{
    let p: u8 = position as u8;
    let mask: u8 = 1u8 << p;
    assert((mask & value) > 0 <==> (value >> p) & 1 == 1) by (bit_vector)
        requires
            mask == 1u8 << p,
            p < 8,
    ;
    (mask & value) > 0
}

/// `v` with bit `p` set to `b`.
pub open spec fn set_bit_spec(v: u8, p: u8, b: bool) -> u8 {
    if b {
        v | ((1u8 << p) as u8)
    } else {
        v & !((1u8 << p) as u8)
    }
}

/// Sets bit `position` of `source` to `switch`, keeping the other bits.
pub fn set_bit_val(position: usize, switch: bool, source: u8) -> (r: u8)
    requires
        position < 8,
    ensures
        r == set_bit_spec(source, position as u8, switch),
        forall|q: u8| q < 8 ==> bit_of(r, q) == if q == position as u8 { switch } else { bit_of(source, q) },
{
    let p: u8 = position as u8;
    let mask: u8 = 1u8 << p;
    if switch {
        let r = source | mask;
        assert(forall|q: u8| q < 8 ==> ((r >> q) & 1 == 1) == if q == p { true } else { (source >> q) & 1 == 1 }) by (bit_vector)
            requires
                mask == 1u8 << p,
                p < 8,
                r == source | mask,
        ;
        r
    } else {
        let r = source & !mask;
        assert(forall|q: u8| q < 8 ==> ((r >> q) & 1 == 1) == if q == p { false } else { (source >> q) & 1 == 1 }) by (bit_vector)
            requires
                mask == 1u8 << p,
                p < 8,
                r == source & !mask,
        ;
        r
    }
}

/// BIT: Z is set when the tested bit is clear; N clear, H set, C kept.
pub open spec fn bit_test_flags(v: u8, p: u8, f: FlagsRegister) -> FlagsRegister {
    fl(!bit_of(v, p), false, true, f.carry)
}

// --------------------------------------------------------------------- DAA

/// DAA: corrects A to binary-coded decimal after an addition or a
/// subtraction, from the N, H and C flags.
pub open spec fn daa_spec(a: u8, f: FlagsRegister) -> (u8, FlagsRegister) {
    if !f.subtract {
        let c1 = f.carry || a > 0x99;
        let a1 = if c1 { (a + 0x60) % 256 } else { a as int };
        let a2 = if f.half_carry || a1 % 16 > 9 { (a1 + 6) % 256 } else { a1 };
        (a2 as u8, fl(a2 == 0, false, false, c1))
    } else {
        let a1 = if f.carry { (a - 0x60 + 256) % 256 } else { a as int };
        let a2 = if f.half_carry { (a1 - 6 + 256) % 256 } else { a1 };
        (a2 as u8, fl(a2 == 0, true, false, f.carry))
    }
}

#[verifier::rlimit(30)]
pub fn daa(a: u8, f: FlagsRegister) -> (r: (u8, FlagsRegister))
    ensures
        r == daa_spec(a, f),
{
    if !f.subtract {
        // after an addition, adjust if a (half-)carry occurred or the result is out of bounds
        let carry = f.carry || a > 0x99;
        let a1: u8 = if carry { a.wrapping_add(0x60) } else { a };
        proof {
            lemma_masks_u8(a1);
        }
        let a2: u8 = if f.half_carry || (a1 & 0x0f) > 0x09 { a1.wrapping_add(0x6) } else { a1 };
        (a2, FlagsRegister { zero: a2 == 0, subtract: false, half_carry: false, carry })
    } else {
        // after a subtraction, only adjust if a (half-)carry occurred
        let a1: u8 = if f.carry { a.wrapping_sub(0x60) } else { a };
        let a2: u8 = if f.half_carry { a1.wrapping_sub(0x06) } else { a1 };
        (a2, FlagsRegister { zero: a2 == 0, subtract: true, half_carry: false, carry: f.carry })
    }
}


// -------------------------------------------------------------------- laws

/// Subtracting what was added gives the first operand back, and CP sets the
/// same flags as SUB.
pub proof fn lemma_add_then_sub(a: u8, v: u8)
    ensures
        sub8_spec(add8_spec(a, v).0, v).0 == a,
        add8_spec(sub8_spec(a, v).0, v).0 == a,
{
    let s = (a + v) % 256;
    assert(s == if a + v > 255 { a + v - 256 } else { a + v });
    let t = (a - v + 256) % 256;
    assert(t == if a >= v { a - v } else { a - v + 256 });
}

/// The carry of an addition tells whether the unbounded sum exceeds a byte,
/// and the result is the sum without its ninth bit.
pub proof fn lemma_add_carry_is_overflow(a: u8, v: u8)
    ensures
        add8_spec(a, v).0 + 256 * bit_int(add8_spec(a, v).1.carry) == a + v,
        adc8_spec(a, v, false) == add8_spec(a, v),
{
}

/// RLC undone by RRC, RRC undone by RLC, and RL undone by RR through the
/// carry (and the other way round).
pub proof fn lemma_rotate_inverse(x: u8, c: bool)
    ensures
        rotate_right_spec(rotate_left_spec(x, c, true).0, c, true).0 == x,
        rotate_left_spec(rotate_right_spec(x, c, true).0, c, true).0 == x,
        ({
            let (y, c1) = rotate_left_spec(x, c, false);
            rotate_right_spec(y, c1, false) == (x, c)
        }),
        ({
            let (y, c1) = rotate_right_spec(x, c, false);
            rotate_left_spec(y, c1, false) == (x, c)
        }),
{
}

/// Swapping the nibbles twice gives the byte back.
pub proof fn lemma_swap_involution(x: u8)
    ensures
        swap_spec(swap_spec(x)) == x,
{
}

/// A byte in binary-coded decimal: both nibbles at most nine.
pub open spec fn is_bcd(x: u8) -> bool {
    x / 16 <= 9 && x % 16 <= 9
}

/// The number a BCD byte stands for.
pub open spec fn bcd_value(x: u8) -> int {
    (x / 16) * 10 + x % 16
}

proof fn lemma_nibbles(x: int, y: int)
    requires
        0 <= x,
        0 <= y < 16,
    ensures
        (16 * x + y) / 16 == x,
        (16 * x + y) % 16 == y,
{
    assert((16 * x + y) / 16 == x && (16 * x + y) % 16 == y) by (nonlinear_arith)
        requires
            0 <= x,
            0 <= y < 16,
    ;
}

/// The value and carry of DAA after ADD, by how the nibble sums compare to ten.
#[verifier::rlimit(80)]
proof fn lemma_daa_after_add_cases(a: u8, b: u8) -> (r: (int, int))
    requires
        is_bcd(a),
        is_bcd(b),
    ensures
        0 <= r.0 <= 9,
        0 <= r.1 <= 9,
        daa_spec(add8_spec(a, b).0, add8_spec(a, b).1).0 == 16 * r.0 + r.1,
        10 * r.0 + r.1 == (bcd_value(a) + bcd_value(b)) % 100,
        daa_spec(add8_spec(a, b).0, add8_spec(a, b).1).1.carry == (bcd_value(a) + bcd_value(b) >= 100),
{
    let ah = a / 16;
    let al = a % 16;
    let bh = b / 16;
    let bl = b % 16;
    assert(a == 16 * ah + al && b == 16 * bh + bl);
    let sum = a + b;
    let n = bcd_value(a) + bcd_value(b);
    assert(n == 10 * (ah + bh) + al + bl);
    if al + bl <= 9 {
        if ah + bh <= 9 {
            lemma_nibbles(ah + bh, al + bl);
            assert(n % 100 == n);
            (ah + bh, al + bl)
        } else {
            lemma_nibbles(ah + bh - 10, al + bl);
            assert(n % 100 == n - 100);
            (ah + bh - 10, al + bl)
        }
    } else {
        if ah + bh <= 8 {
            lemma_nibbles(ah + bh + 1, al + bl - 10);
            assert(n % 100 == n);
            assert(sum % 16 == if al + bl >= 16 { al + bl - 16 } else { al + bl }) by {
                if al + bl >= 16 {
                    lemma_nibbles(ah + bh + 1, al + bl - 16);
                } else {
                    lemma_nibbles(ah + bh, al + bl);
                }
            }
            (ah + bh + 1, al + bl - 10)
        } else {
            assert(sum >= 0x9A);
            let a1 = (sum % 256 + 0x60) % 256;
            let k = if sum >= 160 { ah + bh - 10 } else { ah + bh + 6 };
            assert(a1 == 16 * k + al + bl);
            assert(a1 % 16 == if al + bl >= 16 { al + bl - 16 } else { al + bl }) by {
                if al + bl >= 16 {
                    lemma_nibbles(k + 1, al + bl - 16);
                } else {
                    lemma_nibbles(k, al + bl);
                }
            }
            assert((a1 + 6) % 256 == sum + 102 - 256);
            lemma_nibbles(ah + bh - 9, al + bl - 10);
            assert(n % 100 == n - 100);
            (ah + bh - 9, al + bl - 10)
        }
    }
}

/// ADD followed by DAA adds two BCD bytes in decimal: the result is the BCD
/// of the sum modulo 100 and the carry tells whether the sum reached 100.
pub proof fn lemma_daa_after_add(a: u8, b: u8)
    requires
        is_bcd(a),
        is_bcd(b),
    ensures
        ({
            let (s, f) = add8_spec(a, b);
            let (d, g) = daa_spec(s, f);
            is_bcd(d) && bcd_value(d) == (bcd_value(a) + bcd_value(b)) % 100 && g.carry == (
            bcd_value(a) + bcd_value(b) >= 100) && g.zero == (d == 0) && !g.half_carry && !g.subtract
        }),
{
    let (x, y) = lemma_daa_after_add_cases(a, b);
    lemma_nibbles(x, y);
}

/// The value and carry of DAA after SUB, by how the nibbles compare.
#[verifier::rlimit(80)]
proof fn lemma_daa_after_sub_cases(a: u8, b: u8) -> (r: (int, int))
    requires
        is_bcd(a),
        is_bcd(b),
    ensures
        0 <= r.0 <= 9,
        0 <= r.1 <= 9,
        daa_spec(sub8_spec(a, b).0, sub8_spec(a, b).1).0 == 16 * r.0 + r.1,
        10 * r.0 + r.1 == (bcd_value(a) - bcd_value(b) + 100) % 100,
        daa_spec(sub8_spec(a, b).0, sub8_spec(a, b).1).1.carry == (bcd_value(a) < bcd_value(b)),
{
    let ah = a / 16;
    let al = a % 16;
    let bh = b / 16;
    let bl = b % 16;
    assert(a == 16 * ah + al && b == 16 * bh + bl);
    let n = bcd_value(a) - bcd_value(b);
    assert(n == 10 * (ah - bh) + al - bl);
    assert((a < b) == (n < 0));
    let s = sub8_spec(a, b).0;
    if al >= bl {
        if ah >= bh {
            assert(s == 16 * (ah - bh) + al - bl);
            lemma_nibbles(ah - bh, al - bl);
            assert((n + 100) % 100 == n);
            (ah - bh, al - bl)
        } else {
            assert(s == 16 * (ah - bh + 16) + al - bl);
            assert((s - 0x60 + 256) % 256 == 16 * (ah - bh + 10) + al - bl);
            lemma_nibbles(ah - bh + 10, al - bl);
            assert((n + 100) % 100 == n + 100);
            (ah - bh + 10, al - bl)
        }
    } else {
        if ah > bh {
            assert(s == 16 * (ah - bh - 1) + 16 + al - bl);
            lemma_nibbles(ah - bh - 1, 16 + al - bl);
            lemma_nibbles(ah - bh - 1, 10 + al - bl);
            assert((n + 100) % 100 == n);
            (ah - bh - 1, 10 + al - bl)
        } else {
            assert(s == 16 * (ah - bh + 15) + 16 + al - bl);
            let a1 = (s - 0x60 + 256) % 256;
            assert(a1 == 16 * (ah - bh + 9) + 16 + al - bl);
            lemma_nibbles(ah - bh + 9, 16 + al - bl);
            lemma_nibbles(ah - bh + 9, 10 + al - bl);
            assert((n + 100) % 100 == n + 100);
            (ah - bh + 9, 10 + al - bl)
        }
    }
}

/// SUB followed by DAA subtracts two BCD bytes in decimal: the result is
/// the BCD of the difference modulo 100, and the carry tells whether the
/// second was the larger.
pub proof fn lemma_daa_after_sub(a: u8, b: u8)
    requires
        is_bcd(a),
        is_bcd(b),
    ensures
        ({
            let (s, f) = sub8_spec(a, b);
            let (d, g) = daa_spec(s, f);
            is_bcd(d) && bcd_value(d) == (bcd_value(a) - bcd_value(b) + 100) % 100 && g.carry == (
            bcd_value(a) < bcd_value(b)) && g.zero == (d == 0) && !g.half_carry && g.subtract
        }),
{
    let (x, y) = lemma_daa_after_sub_cases(a, b);
    lemma_nibbles(x, y);
}

} // verus!
