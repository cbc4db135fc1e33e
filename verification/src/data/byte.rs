//! An 8-bit value.

use core::ops::{Add, BitAnd, BitOr, BitXor, Shl, Shr, Sub};
use vstd::prelude::*;
use vstd::std_specs::convert::FromSpecImpl;
use vstd::std_specs::ops::{
    AddSpecImpl, BitAndSpecImpl, BitOrSpecImpl, BitXorSpecImpl, ShlSpecImpl, ShrSpecImpl,
    SubSpecImpl,
};

verus! {

/// One byte of machine state: a register's content, a memory cell, an
/// instruction's literal operand.
#[derive(Clone, Copy, Debug, PartialEq, Eq, PartialOrd, Ord, Structural, Hash)]
pub struct Byte(u8);

impl View for Byte {
    type V = u8;

    closed spec fn view(&self) -> u8 {
        self.0
    }
}

/// The values of a run of bytes.
pub open spec fn values(bytes: Seq<Byte>) -> Seq<u8> {
    bytes.map_values(|byte: Byte| byte@)
}

/// The sum of two bytes, reduced to eight bits.
pub open spec fn wrapped_sum(a: u8, b: u8) -> u8 {
    ((a + b) % 256) as u8
}

/// The difference of two bytes, reduced to eight bits.
pub open spec fn wrapped_difference(a: u8, b: u8) -> u8 {
    ((a - b) % 256) as u8
}

proof fn lemma_low_and_high_bit(x: u8)
    by (bit_vector)
    ensures
        x & 0b0000_0001 == x % 2,
        (x & 0b1000_0000) >> 7 == x / 128,
{
}

impl Byte {
    /// The byte whose value is `raw`.
    pub closed spec fn of(raw: u8) -> Byte {
        Byte(raw)
    }

    /// The value of `of(raw)` is `raw`.
    pub proof fn lemma_of(raw: u8)
        ensures
            Byte::of(raw)@ == raw,
    {
    }

    pub fn new(raw: u8) -> (byte: Byte)
        ensures
            byte == Byte::of(raw),
            byte@ == raw,
    {
        Byte(raw)
    }

    pub fn get_raw(&self) -> (raw: u8)
        ensures
            raw == self@,
    {
        self.0
    }

    /// Returns the least significant bit.
    pub fn get_lsb(&self) -> (bit: u8)
        ensures
            bit == self@ % 2,
    {
        proof {
            lemma_low_and_high_bit(self.0);
        }
        self.0 & 0b0000_0001
    }

    /// Returns the most significant bit.
    pub fn get_msb(&self) -> (bit: u8)
        ensures
            bit == self@ / 128,
    {
        proof {
            lemma_low_and_high_bit(self.0);
        }
        (self.0 & 0b1000_0000) >> 7
    }

    /// Returns the three decimal digits of the value: hundreds, tens, ones.
    pub fn get_bcd_rep(&self) -> (digits: (u8, u8, u8))
        ensures
            digits.0 == self@ / 100,
            digits.1 == (self@ / 10) % 10,
            digits.2 == self@ % 10,
            digits.0 * 100 + digits.1 * 10 + digits.2 == self@,
            digits.0 <= 2,
            digits.1 <= 9,
            digits.2 <= 9,
    {
        let x = self.0;
        let hundreds = x / 100;
        let x = x % 100;
        let tens = x / 10;
        let ones = x % 10;
        (hundreds, tens, ones)
    }

    /// Addition modulo 256.
    pub fn wrapping_add(self, rhs: Byte) -> (sum: Byte)
        ensures
            sum@ == wrapped_sum(self@, rhs@),
    {
        Byte(self.0.wrapping_add(rhs.0))
    }

    /// Subtraction modulo 256.
    pub fn wrapping_sub(self, rhs: Byte) -> (difference: Byte)
        ensures
            difference@ == wrapped_difference(self@, rhs@),
    {
        Byte(self.0.wrapping_sub(rhs.0))
    }
}

impl Default for Byte {
    fn default() -> (byte: Byte)
        ensures
            byte@ == 0,
    {
        Byte(0)
    }
}

impl From<u8> for Byte {
    fn from(value: u8) -> (byte: Byte) {
        Byte(value)
    }
}

impl FromSpecImpl<u8> for Byte {
    open spec fn obeys_from_spec() -> bool {
        true
    }

    open spec fn from_spec(value: u8) -> Byte {
        Byte::of(value)
    }
}

impl From<Byte> for u8 {
    fn from(value: Byte) -> (raw: u8) {
        value.0
    }
}

impl FromSpecImpl<Byte> for u8 {
    open spec fn obeys_from_spec() -> bool {
        true
    }

    open spec fn from_spec(value: Byte) -> u8 {
        value@
    }
}

impl BitOr for Byte {
    type Output = Byte;

    fn bitor(self, rhs: Byte) -> (r: Byte) {
        Byte(self.0 | rhs.0)
    }
}

impl BitOrSpecImpl for Byte {
    open spec fn obeys_bitor_spec() -> bool {
        true
    }

    open spec fn bitor_req(self, rhs: Byte) -> bool {
        true
    }

    open spec fn bitor_spec(self, rhs: Byte) -> Byte {
        Byte::of(self@ | rhs@)
    }
}

impl BitAnd for Byte {
    type Output = Byte;

    fn bitand(self, rhs: Byte) -> (r: Byte) {
        Byte(self.0 & rhs.0)
    }
}

impl BitAndSpecImpl for Byte {
    open spec fn obeys_bitand_spec() -> bool {
        true
    }

    open spec fn bitand_req(self, rhs: Byte) -> bool {
        true
    }

    open spec fn bitand_spec(self, rhs: Byte) -> Byte {
        Byte::of(self@ & rhs@)
    }
}

impl BitXor for Byte {
    type Output = Byte;

    fn bitxor(self, rhs: Byte) -> (r: Byte) {
        Byte(self.0 ^ rhs.0)
    }
}

impl BitXorSpecImpl for Byte {
    open spec fn obeys_bitxor_spec() -> bool {
        true
    }

    open spec fn bitxor_req(self, rhs: Byte) -> bool {
        true
    }

    open spec fn bitxor_spec(self, rhs: Byte) -> Byte {
        Byte::of(self@ ^ rhs@)
    }
}

impl Add for Byte {
    type Output = Byte;

    fn add(self, rhs: Byte) -> (r: Byte) {
        Byte(self.0.wrapping_add(rhs.0))
    }
}

impl AddSpecImpl for Byte {
    open spec fn obeys_add_spec() -> bool {
        true
    }

    open spec fn add_req(self, rhs: Byte) -> bool {
        true
    }

    open spec fn add_spec(self, rhs: Byte) -> Byte {
        Byte::of(wrapped_sum(self@, rhs@))
    }
}

impl Sub for Byte {
    type Output = Byte;

    fn sub(self, rhs: Byte) -> (r: Byte) {
        Byte(self.0.wrapping_sub(rhs.0))
    }
}

impl SubSpecImpl for Byte {
    open spec fn obeys_sub_spec() -> bool {
        true
    }

    open spec fn sub_req(self, rhs: Byte) -> bool {
        true
    }

    open spec fn sub_spec(self, rhs: Byte) -> Byte {
        Byte::of(wrapped_difference(self@, rhs@))
    }
}

impl Shr<usize> for Byte {
    type Output = Byte;

    fn shr(self, rhs: usize) -> (r: Byte) {
        Byte(self.0 >> rhs)
    }
}

impl ShrSpecImpl<usize> for Byte {
    open spec fn obeys_shr_spec() -> bool {
        true
    }

    open spec fn shr_req(self, rhs: usize) -> bool {
        rhs < 8
    }

    open spec fn shr_spec(self, rhs: usize) -> Byte {
        Byte::of(self@ >> (rhs as u8))
    }
}

impl Shl<usize> for Byte {
    type Output = Byte;

    fn shl(self, rhs: usize) -> (r: Byte) {
        Byte(self.0 << rhs)
    }
}

impl ShlSpecImpl<usize> for Byte {
    open spec fn obeys_shl_spec() -> bool {
        true
    }

    open spec fn shl_req(self, rhs: usize) -> bool {
        rhs < 8
    }

    open spec fn shl_spec(self, rhs: usize) -> Byte {
        Byte::of(self@ << (rhs as u8))
    }
}

} // verus!
