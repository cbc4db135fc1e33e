//! The names of the sixteen general purpose registers.

use vstd::prelude::*;
use vstd::std_specs::convert::FromSpecImpl;

verus! {

/// The general purpose registers, `V0` to `VF`. `VF` doubles as the flag that
/// arithmetic and drawing report carry, borrow and collision in.
#[derive(Clone, Copy, Debug, PartialEq, Eq, Structural, Hash)]
pub enum Register {
    V0,
    V1,
    V2,
    V3,
    V4,
    V5,
    V6,
    V7,
    V8,
    V9,
    VA,
    VB,
    VC,
    VD,
    VE,
    VF,
}

/// The registers from `V0` up to and including `last`, in ascending order.
pub open spec fn registers_through(last: Register) -> Seq<Register> {
    Seq::new((last.ordinal() + 1) as nat, |k: int| Register::at(k))
}

impl Register {
    /// The position of the register in the bank, `0` for `V0` to `15` for `VF`.
    pub open spec fn ordinal(self) -> int {
        match self {
            Register::V0 => 0,
            Register::V1 => 1,
            Register::V2 => 2,
            Register::V3 => 3,
            Register::V4 => 4,
            Register::V5 => 5,
            Register::V6 => 6,
            Register::V7 => 7,
            Register::V8 => 8,
            Register::V9 => 9,
            Register::VA => 10,
            Register::VB => 11,
            Register::VC => 12,
            Register::VD => 13,
            Register::VE => 14,
            Register::VF => 15,
        }
    }

    /// The register at position `n`; meaningful for `0 <= n < 16`.
    pub open spec fn at(n: int) -> Register {
        if n == 0 {
            Register::V0
        } else if n == 1 {
            Register::V1
        } else if n == 2 {
            Register::V2
        } else if n == 3 {
            Register::V3
        } else if n == 4 {
            Register::V4
        } else if n == 5 {
            Register::V5
        } else if n == 6 {
            Register::V6
        } else if n == 7 {
            Register::V7
        } else if n == 8 {
            Register::V8
        } else if n == 9 {
            Register::V9
        } else if n == 10 {
            Register::VA
        } else if n == 11 {
            Register::VB
        } else if n == 12 {
            Register::VC
        } else if n == 13 {
            Register::VD
        } else if n == 14 {
            Register::VE
        } else {
            Register::VF
        }
    }

    /// Every register sits at a position below 16, and `at` finds it there.
    pub proof fn lemma_ordinal(self)
        ensures
            0 <= self.ordinal() < 16,
            Register::at(self.ordinal()) == self,
    {
    }

    /// Every position below 16 holds a register of that ordinal.
    pub proof fn lemma_at(n: int)
        requires
            0 <= n < 16,
        ensures
            Register::at(n).ordinal() == n,
    {
    }

    /// The position of the register in the bank.
    pub fn index(self) -> (i: usize)
        ensures
            i == self.ordinal(),
    {
        match self {
            Register::V0 => 0,
            Register::V1 => 1,
            Register::V2 => 2,
            Register::V3 => 3,
            Register::V4 => 4,
            Register::V5 => 5,
            Register::V6 => 6,
            Register::V7 => 7,
            Register::V8 => 8,
            Register::V9 => 9,
            Register::VA => 10,
            Register::VB => 11,
            Register::VC => 12,
            Register::VD => 13,
            Register::VE => 14,
            Register::VF => 15,
        }
    }

    /// Compares the register to another by position: `-1` if it comes
    /// before `reg`, `0` if it is `reg`, `1` if it comes after.
    pub fn compare(&self, reg: Register) -> (order: i8)
        ensures
            self.ordinal() < reg.ordinal() ==> order == -1,
            self.ordinal() == reg.ordinal() ==> order == 0,
            self.ordinal() > reg.ordinal() ==> order == 1,
    {
        let left = self.index();
        let right = reg.index();
        if left < right {
            -1
        } else if left == right {
            0
        } else {
            1
        }
    }

    /// Creates an iterator over the registers from `V0` to `to`.
    ///
    /// It visits `to.ordinal() + 1` registers, starting at `V0`, each one
    /// at the position that it is visited at.
    pub fn iter_to(to: Register) -> (iter: RegisterIterator)
        ensures
            iter@ == registers_through(to),
            iter@.len() == to.ordinal() + 1,
            iter@[0] == Register::V0,
            forall|k: int| 0 <= k < iter@.len() ==> (#[trigger] iter@[k]).ordinal() == k,
    {
        RegisterIterator::new(to)
    }

    /// Gets the register at position `byte`, which has to be below 16.
    pub fn new(byte: u8) -> (found: Result<Register, String>)
        ensures
            match found {
                Ok(register) => byte < 16 && register == Register::at(byte as int),
                Err(message) => byte >= 16 && message@ == "Invalid register"@,
            },
    {
        match byte {
            0x0 => Ok(Register::V0),
            0x1 => Ok(Register::V1),
            0x2 => Ok(Register::V2),
            0x3 => Ok(Register::V3),
            0x4 => Ok(Register::V4),
            0x5 => Ok(Register::V5),
            0x6 => Ok(Register::V6),
            0x7 => Ok(Register::V7),
            0x8 => Ok(Register::V8),
            0x9 => Ok(Register::V9),
            0xA => Ok(Register::VA),
            0xB => Ok(Register::VB),
            0xC => Ok(Register::VC),
            0xD => Ok(Register::VD),
            0xE => Ok(Register::VE),
            0xF => Ok(Register::VF),
            _ => Err("Invalid register".to_string()),
        }
    }
}

impl From<Register> for usize {
    fn from(register: Register) -> (i: usize) {
        register.index()
    }
}

impl FromSpecImpl<Register> for usize {
    open spec fn obeys_from_spec() -> bool {
        true
    }

    open spec fn from_spec(register: Register) -> usize {
        register.ordinal() as usize
    }
}

/// Walks the registers upwards from `V0` to a last one.
pub struct RegisterIterator {
    last: Register,
    /// The position of the register that comes next; one past `last` when
    /// the walk is over.
    position: u8,
}

impl View for RegisterIterator {
    type V = Seq<Register>;

    /// The registers that are still to come, in the order of their coming.
    closed spec fn view(&self) -> Seq<Register> {
        Seq::new(
            (self.last.ordinal() + 1 - self.position) as nat,
            |k: int| Register::at(self.position + k),
        )
    }
}

impl RegisterIterator {
    #[verifier::type_invariant]
    spec fn in_range(self) -> bool {
        self.position <= self.last.ordinal() + 1
    }

    /// Creates an iterator over the registers from `V0` to `last`.
    pub fn new(last: Register) -> (iter: RegisterIterator)
        ensures
            iter@ == registers_through(last),
            iter@.len() == last.ordinal() + 1,
            iter@[0] == Register::V0,
            forall|k: int| 0 <= k < iter@.len() ==> (#[trigger] iter@[k]).ordinal() == k,
    {
        RegisterIterator { last, position: 0 }
    }

    /// Hands out the next register, or `None` once `last` has been handed
    /// out.
    pub fn next(&mut self) -> (item: Option<Register>)
        ensures
            match item {
                Some(register) => old(self)@.len() > 0 && register == old(self)@[0]
                    && final(self)@ == old(self)@.skip(1),
                None => old(self)@.len() == 0 && final(self)@ == old(self)@,
            },
    {
        proof {
            use_type_invariant(&*self);
        }
        if self.position as usize > self.last.index() {
            None
        } else {
            match Register::new(self.position) {
                Ok(register) => {
                    self.position = self.position + 1;
                    Some(register)
                },
                // A position up to that of `last` always names a register.
                Err(_) => None,
            }
        }
    }
}

} // verus!
