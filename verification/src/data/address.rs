//! A 12-bit memory address.

use core::ops::{Add, AddAssign};
use vstd::prelude::*;
use vstd::std_specs::convert::FromSpecImpl;
use vstd::std_specs::ops::AddSpecImpl;

use super::byte::Byte;

verus! {

/// A location in memory. Its value never leaves `0x000..=0xFFF`: every
/// constructor and every arithmetic operation reduces modulo 4096.
#[derive(Clone, Copy, Debug, PartialEq, Eq, PartialOrd, Ord, Structural, Hash)]
pub struct Address(u16);

impl View for Address {
    type V = u16;

    closed spec fn view(&self) -> u16 {
        self.0
    }
}

/// `n` reduced into the address space.
pub open spec fn wrapped_address(n: int) -> u16 {
    (n % 4096) as u16
}

proof fn lemma_mask_is_remainder(x: u16)
    by (bit_vector)
    ensures
        x & 0x0FFF == x % 4096,
{
}

impl Address {
    #[verifier::type_invariant]
    spec fn in_range(self) -> bool {
        self.0 <= 0x0FFF
    }

    /// The address that `raw` is reduced to.
    pub closed spec fn of(raw: u16) -> Address {
        Address(wrapped_address(raw as int))
    }

    /// The value of `of(raw)` is `raw` modulo 4096.
    pub proof fn lemma_of(raw: u16)
        ensures
            Address::of(raw)@ == wrapped_address(raw as int),
            Address::of(raw)@ <= 0x0FFF,
    {
    }

    /// Builds an address from `raw`, keeping its low twelve bits.
    pub fn new(raw: u16) -> (address: Address)
        ensures
            address == Address::of(raw),
            address@ == wrapped_address(raw as int),
            address@ <= 0x0FFF,
    {
        proof {
            lemma_mask_is_remainder(raw);
        }
        Address(raw & 0x0FFF)
    }

    pub fn get_raw(&self) -> (raw: u16)
        ensures
            raw == self@,
            raw <= 0x0FFF,
    {
        proof {
            use_type_invariant(self);
        }
        self.0
    }
}

impl Default for Address {
    fn default() -> (address: Address)
        ensures
            address@ == 0,
    {
        Address(0)
    }
}

impl From<u16> for Address {
    fn from(value: u16) -> (address: Address) {
        Address::new(value)
    }
}

impl FromSpecImpl<u16> for Address {
    open spec fn obeys_from_spec() -> bool {
        true
    }

    open spec fn from_spec(value: u16) -> Address {
        Address::of(value)
    }
}

impl From<Address> for u16 {
    fn from(value: Address) -> (raw: u16) {
        value.0
    }
}

impl FromSpecImpl<Address> for u16 {
    open spec fn obeys_from_spec() -> bool {
        true
    }

    open spec fn from_spec(value: Address) -> u16 {
        value@
    }
}

impl Add<Byte> for Address {
    type Output = Address;

    /// The address `rhs` cells further on, wrapping past `0xFFF` to `0x000`.
    fn add(self, rhs: Byte) -> (sum: Address)
        ensures
            sum@ == wrapped_address(self@ + rhs@),
            sum@ <= 0x0FFF,
    {
        proof {
            use_type_invariant(self);
        }
        Address((self.0 + rhs.get_raw() as u16) % 4096)
    }
}

impl AddSpecImpl<Byte> for Address {
    open spec fn obeys_add_spec() -> bool {
        true
    }

    open spec fn add_req(self, rhs: Byte) -> bool {
        true
    }

    open spec fn add_spec(self, rhs: Byte) -> Address {
        Address::of(wrapped_address(self@ + rhs@))
    }
}

impl Add<u16> for Address {
    type Output = Address;

    /// The address `rhs` cells further on, wrapping past `0xFFF` to `0x000`.
    fn add(self, rhs: u16) -> (sum: Address)
        ensures
            sum@ == wrapped_address(self@ + rhs),
            sum@ <= 0x0FFF,
    {
        proof {
            use_type_invariant(self);
        }
        Address((self.0 + rhs % 4096) % 4096)
    }
}

impl AddSpecImpl<u16> for Address {
    open spec fn obeys_add_spec() -> bool {
        true
    }

    open spec fn add_req(self, rhs: u16) -> bool {
        true
    }

    open spec fn add_spec(self, rhs: u16) -> Address {
        Address::of(wrapped_address(self@ + rhs))
    }
}

impl AddAssign for Address {
    /// Moves the address on by `rhs`, wrapping past `0xFFF` to `0x000`.
    fn add_assign(&mut self, rhs: Address)
        ensures
            final(self)@ == wrapped_address(old(self)@ + rhs@),
            final(self)@ <= 0x0FFF,
    {
        proof {
            use_type_invariant(&*self);
            use_type_invariant(rhs);
        }
        self.0 = (self.0 + rhs.0) % 4096;
    }
}

} // verus!
