//! A 4-bit value.

use vstd::prelude::*;
use vstd::std_specs::convert::FromSpecImpl;

verus! {

/// Half a byte: a sprite's height or the name of a key. Its value never
/// leaves `0x0..=0xF`.
#[derive(Clone, Copy, Debug, PartialEq, Eq, PartialOrd, Ord, Structural, Hash)]
pub struct Nibble(u8);

impl View for Nibble {
    type V = u8;

    closed spec fn view(&self) -> u8 {
        self.0
    }
}

proof fn lemma_mask_is_remainder(x: u8)
    by (bit_vector)
    ensures
        x & 0x0F == x % 16,
{
}

impl Nibble {
    #[verifier::type_invariant]
    spec fn in_range(self) -> bool {
        self.0 <= 0x0F
    }

    /// The nibble that `raw` is reduced to.
    pub closed spec fn of(raw: u8) -> Nibble {
        Nibble(raw % 16)
    }

    /// The value of `of(raw)` is `raw` modulo 16.
    pub proof fn lemma_of(raw: u8)
        ensures
            Nibble::of(raw)@ == raw % 16,
    {
    }

    /// Builds a nibble from `raw`, keeping its low four bits.
    pub fn new(raw: u8) -> (nibble: Nibble)
        ensures
            nibble == Nibble::of(raw),
            nibble@ == raw % 16,
    {
        proof {
            lemma_mask_is_remainder(raw);
        }
        Nibble(raw & 0x0F)
    }

    pub fn get_raw(&self) -> (raw: u8)
        ensures
            raw == self@,
            raw <= 0x0F,
    {
        proof {
            use_type_invariant(self);
        }
        self.0
    }
}

impl Default for Nibble {
    fn default() -> (nibble: Nibble)
        ensures
            nibble@ == 0,
    {
        Nibble(0)
    }
}

impl From<u8> for Nibble {
    fn from(value: u8) -> (nibble: Nibble) {
        Nibble::new(value)
    }
}

impl FromSpecImpl<u8> for Nibble {
    open spec fn obeys_from_spec() -> bool {
        true
    }

    open spec fn from_spec(value: u8) -> Nibble {
        Nibble::of(value)
    }
}

impl From<Nibble> for u8 {
    fn from(value: Nibble) -> (raw: u8) {
        value.0
    }
}

impl FromSpecImpl<Nibble> for u8 {
    open spec fn obeys_from_spec() -> bool {
        true
    }

    open spec fn from_spec(value: Nibble) -> u8 {
        value@
    }
}

} // verus!
