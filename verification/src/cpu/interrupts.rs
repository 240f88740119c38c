//! The four ways into the interrupt sequence.

use vstd::prelude::*;

verus! {

/// A request to enter the interrupt sequence. Each variant carries the cycle
/// count at which it was raised, which serves diagnostics only.
#[allow(non_camel_case_types)]
#[derive(Debug, Copy, Clone, PartialEq, Eq, Structural)]
pub enum Interrupt {
    /// The non-maskable interrupt line.
    NMI(u32),
    /// The interrupt request line.
    IRQ(u32),
    /// The `BRK` instruction, which shares the vector of `IRQ`.
    IRQ_BRK(u32),
    /// The reset line.
    RESET(u32),
}

impl Interrupt {
    /// The address of the low byte of the vector: `0xFFFA` for `NMI`,
    /// `0xFFFC` for `RESET`, `0xFFFE` for `IRQ` and `BRK`. The high byte
    /// follows at the next address.
    pub open spec fn vector(&self) -> u16 {
        match *self {
            Interrupt::NMI(_) => 0xFFFA,
            Interrupt::RESET(_) => 0xFFFC,
            Interrupt::IRQ(_) | Interrupt::IRQ_BRK(_) => 0xFFFE,
        }
    }

    /// The rank of the interrupt when two compete for the one pending slot:
    /// `RESET` over `NMI` over `IRQ` over `BRK`.
    pub open spec fn rank(self) -> nat {
        match self {
            Interrupt::IRQ_BRK(_) => 0,
            Interrupt::IRQ(_) => 1,
            Interrupt::NMI(_) => 2,
            Interrupt::RESET(_) => 3,
        }
    }

    /// Whether the interrupt is the `BRK` instruction.
    pub open spec fn is_break(self) -> bool {
        self is IRQ_BRK
    }

    /// The interrupt whose vector is fetched when `self` is being entered and
    /// `polled` is pending at the moment the status byte is pushed. An entry
    /// by `IRQ` or `BRK` is taken over by whatever is pending; an entry by
    /// `NMI` or `RESET` stays what it is.
    pub open spec fn hijacked_by(self, polled: Option<Interrupt>) -> Interrupt {
        match (self, polled) {
            (Interrupt::IRQ(_), Some(other)) | (Interrupt::IRQ_BRK(_), Some(other)) => other,
            _ => self,
        }
    }

    /// The address of the low byte of the interrupt's vector.
    #[verifier::when_used_as_spec(vector)]
    pub fn offset(&self) -> (address: u16)
        ensures
            address == self.vector(),
    {
        match self {
            Interrupt::NMI(_) => 0xFFFA,
            Interrupt::IRQ(_) => 0xFFFE,
            Interrupt::IRQ_BRK(_) => 0xFFFE,
            Interrupt::RESET(_) => 0xFFFC,
        }
    }

    /// Whether `self` takes the pending slot from `pending`: only an
    /// interrupt of strictly higher rank does.
    pub fn outranks(&self, pending: &Interrupt) -> (higher: bool)
        ensures
            higher == (self.rank() > pending.rank()),
    {
        match (self, pending) {
            (Interrupt::RESET(_), Interrupt::RESET(_)) => false,
            (Interrupt::RESET(_), _) => true,
            (Interrupt::NMI(_), Interrupt::IRQ(_)) => true,
            (Interrupt::NMI(_), Interrupt::IRQ_BRK(_)) => true,
            (Interrupt::IRQ(_), Interrupt::IRQ_BRK(_)) => true,
            _ => false,
        }
    }

    /// The interrupt that is served when `self` is being entered and
    /// `polled` is pending as the status byte is pushed.
    pub fn hijack(self, polled: Option<Interrupt>) -> (served: Interrupt)
        ensures
            served == self.hijacked_by(polled),
    {
        match (self, polled) {
            (_, None) => self,
            (Interrupt::NMI(_), _) => self,
            (Interrupt::RESET(_), _) => self,
            (Interrupt::IRQ_BRK(_), Some(interrupt)) => interrupt,
            (Interrupt::IRQ(_), Some(interrupt)) => interrupt,
        }
    }

    /// Whether the interrupt is the `BRK` instruction.
    pub fn is_brk(&self) -> (brk: bool)
        ensures
            brk == self.is_break(),
    {
        match self {
            Interrupt::IRQ_BRK(_) => true,
            _ => false,
        }
    }
}

} // verus!
