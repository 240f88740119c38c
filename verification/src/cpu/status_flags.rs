//! The processor status register.
//!
//! [`StatusFlags`] is the byte as the processor keeps it; its view, [`Flags`],
//! is the same information as eight named booleans. All contracts speak of the
//! view, so that callers never reason about masks.

use vstd::prelude::*;

verus! {

/// One of the eight positions of the status byte.
#[derive(Clone, Copy, Debug, PartialEq, Eq, Structural)]
pub enum Flag {
    /// Bit 0.
    Carry,
    /// Bit 1.
    Zero,
    /// Bit 2.
    InterruptDisable,
    /// Bit 3.
    Decimal,
    /// Bit 4. Exists only in the byte pushed to the stack.
    Break,
    /// Bit 5. Exists only in the byte pushed to the stack.
    Unused,
    /// Bit 6.
    Overflow,
    /// Bit 7.
    Negative,
}

impl Flag {
    /// The byte in which only this flag's bit is set.
    pub open spec fn spec_mask(self) -> u8 {
        match self {
            Flag::Carry => 0x01,
            Flag::Zero => 0x02,
            Flag::InterruptDisable => 0x04,
            Flag::Decimal => 0x08,
            Flag::Break => 0x10,
            Flag::Unused => 0x20,
            Flag::Overflow => 0x40,
            Flag::Negative => 0x80,
        }
    }

    /// The byte in which only this flag's bit is set.
    #[verifier::when_used_as_spec(spec_mask)]
    pub fn mask(self) -> (mask: u8)
        ensures
            mask == self.spec_mask(),
    {
        match self {
            Flag::Carry => 0b0000_0001,
            Flag::Zero => 0b0000_0010,
            Flag::InterruptDisable => 0b0000_0100,
            Flag::Decimal => 0b0000_1000,
            Flag::Break => 0b0001_0000,
            Flag::Unused => 0b0010_0000,
            Flag::Overflow => 0b0100_0000,
            Flag::Negative => 0b1000_0000,
        }
    }
}

/// The status register as the set of flags it holds.
pub struct Flags {
    pub carry: bool,
    pub zero: bool,
    pub interrupt_disable: bool,
    pub decimal: bool,
    pub break_flag: bool,
    pub unused: bool,
    pub overflow: bool,
    pub negative: bool,
}

impl Flags {
    /// No flag set.
    pub open spec fn empty() -> Flags {
        Flags {
            carry: false,
            zero: false,
            interrupt_disable: false,
            decimal: false,
            break_flag: false,
            unused: false,
            overflow: false,
            negative: false,
        }
    }

    /// Whether `flag` is set.
    pub open spec fn get(self, flag: Flag) -> bool {
        match flag {
            Flag::Carry => self.carry,
            Flag::Zero => self.zero,
            Flag::InterruptDisable => self.interrupt_disable,
            Flag::Decimal => self.decimal,
            Flag::Break => self.break_flag,
            Flag::Unused => self.unused,
            Flag::Overflow => self.overflow,
            Flag::Negative => self.negative,
        }
    }

    /// The same flags, but for `flag`, which becomes `value`.
    pub open spec fn with(self, flag: Flag, value: bool) -> Flags {
        match flag {
            Flag::Carry => Flags { carry: value, ..self },
            Flag::Zero => Flags { zero: value, ..self },
            Flag::InterruptDisable => Flags { interrupt_disable: value, ..self },
            Flag::Decimal => Flags { decimal: value, ..self },
            Flag::Break => Flags { break_flag: value, ..self },
            Flag::Unused => Flags { unused: value, ..self },
            Flag::Overflow => Flags { overflow: value, ..self },
            Flag::Negative => Flags { negative: value, ..self },
        }
    }

    /// The flag set in which bit `k` of `bits` decides the flag at position `k`.
    pub open spec fn from_bits(bits: u8) -> Flags {
        Flags {
            carry: bits & 0x01 != 0,
            zero: bits & 0x02 != 0,
            interrupt_disable: bits & 0x04 != 0,
            decimal: bits & 0x08 != 0,
            break_flag: bits & 0x10 != 0,
            unused: bits & 0x20 != 0,
            overflow: bits & 0x40 != 0,
            negative: bits & 0x80 != 0,
        }
    }

    /// The byte that holds each flag at its bit position: the sum of the
    /// weights of the flags that are set.
    pub open spec fn bits(self) -> u8 {
        ((if self.carry { 0x01int } else { 0 })
            + (if self.zero { 0x02int } else { 0 })
            + (if self.interrupt_disable { 0x04int } else { 0 })
            + (if self.decimal { 0x08int } else { 0 })
            + (if self.break_flag { 0x10int } else { 0 })
            + (if self.unused { 0x20int } else { 0 })
            + (if self.overflow { 0x40int } else { 0 })
            + (if self.negative { 0x80int } else { 0 })) as u8
    }

    /// What the register keeps of a byte pulled from the stack: every flag but
    /// `Break` and `Unused`, which have no storage.
    pub open spec fn stored(self) -> Flags {
        Flags { break_flag: false, unused: false, ..self }
    }

    /// The byte that an interrupt entry or `PHP` pushes: `Unused` is always
    /// set, `Break` as given.
    pub open spec fn pushed(self, break_flag: bool) -> u8 {
        (Flags { break_flag, unused: true, ..self }).bits()
    }

    /// Neither `Break` nor `Unused` is set.
    pub open spec fn storable(self) -> bool {
        !self.break_flag && !self.unused
    }
}

/// Reading a byte as flags and writing the flags as a byte gives the byte back.
pub proof fn lemma_bits_of_from_bits(bits: u8)
    ensures
        Flags::from_bits(bits).bits() == bits,
{
    assert(((if bits & 0x01 != 0 { 0x01int } else { 0 })
        + (if bits & 0x02 != 0 { 0x02int } else { 0 })
        + (if bits & 0x04 != 0 { 0x04int } else { 0 })
        + (if bits & 0x08 != 0 { 0x08int } else { 0 })
        + (if bits & 0x10 != 0 { 0x10int } else { 0 })
        + (if bits & 0x20 != 0 { 0x20int } else { 0 })
        + (if bits & 0x40 != 0 { 0x40int } else { 0 })
        + (if bits & 0x80 != 0 { 0x80int } else { 0 })) == bits) by (bit_vector);
}

/// Writing flags as a byte and reading the byte as flags gives the flags back.
pub proof fn lemma_from_bits_of_bits(flags: Flags)
    ensures
        Flags::from_bits(flags.bits()) == flags,
{
    let c: u8 = if flags.carry { 0x01 } else { 0 };
    let z: u8 = if flags.zero { 0x02 } else { 0 };
    let i: u8 = if flags.interrupt_disable { 0x04 } else { 0 };
    let d: u8 = if flags.decimal { 0x08 } else { 0 };
    let b: u8 = if flags.break_flag { 0x10 } else { 0 };
    let u: u8 = if flags.unused { 0x20 } else { 0 };
    let v: u8 = if flags.overflow { 0x40 } else { 0 };
    let n: u8 = if flags.negative { 0x80 } else { 0 };
    let sum: u8 = (c + z + i + d + b + u + v + n) as u8;
    assert(sum == flags.bits());
    assert((sum & 0x01 != 0) == (c != 0) && (sum & 0x02 != 0) == (z != 0) && (sum & 0x04 != 0) == (
    i != 0) && (sum & 0x08 != 0) == (d != 0) && (sum & 0x10 != 0) == (b != 0) && (sum & 0x20 != 0)
        == (u != 0) && (sum & 0x40 != 0) == (v != 0) && (sum & 0x80 != 0) == (n != 0))
        by (bit_vector)
        requires
            c == 0 || c == 0x01,
            z == 0 || z == 0x02,
            i == 0 || i == 0x04,
            d == 0 || d == 0x08,
            b == 0 || b == 0x10,
            u == 0 || u == 0x20,
            v == 0 || v == 0x40,
            n == 0 || n == 0x80,
            sum == (c + z + i + d + b + u + v + n) as u8,
    ;
}

/// How setting or clearing the single bit `mask` shows at the single bit `probe`.
proof fn lemma_single_bit(bits: u8, mask: u8, probe: u8)
    by (bit_vector)
    requires
        mask == 0x01 || mask == 0x02 || mask == 0x04 || mask == 0x08 || mask == 0x10 || mask
            == 0x20 || mask == 0x40 || mask == 0x80,
        probe == 0x01 || probe == 0x02 || probe == 0x04 || probe == 0x08 || probe == 0x10 || probe
            == 0x20 || probe == 0x40 || probe == 0x80,
    ensures
        ((bits | mask) & probe != 0) == (probe == mask || bits & probe != 0),
        ((bits & !mask) & probe != 0) == (probe != mask && bits & probe != 0),
        (bits & mask == mask) == (bits & mask != 0),
{
}

/// The effect on every flag of setting or clearing the bit of `flag`.
proof fn lemma_update(bits: u8, flag: Flag)
    ensures
        Flags::from_bits(bits | flag.spec_mask()) == Flags::from_bits(bits).with(flag, true),
        Flags::from_bits(bits & !flag.spec_mask()) == Flags::from_bits(bits).with(flag, false),
        (bits & flag.spec_mask() == flag.spec_mask()) == Flags::from_bits(bits).get(flag),
{
    let mask = flag.spec_mask();
    lemma_single_bit(bits, mask, 0x01);
    lemma_single_bit(bits, mask, 0x02);
    lemma_single_bit(bits, mask, 0x04);
    lemma_single_bit(bits, mask, 0x08);
    lemma_single_bit(bits, mask, 0x10);
    lemma_single_bit(bits, mask, 0x20);
    lemma_single_bit(bits, mask, 0x40);
    lemma_single_bit(bits, mask, 0x80);
}

/// Masking a byte with `0b1100_1111` clears `Break` and `Unused` and keeps
/// the other flags.
proof fn lemma_mask_stored(bits: u8)
    ensures
        Flags::from_bits(bits & 0b1100_1111) == Flags::from_bits(bits).stored(),
{
    let masked = bits & 0b1100_1111;
    assert((masked & 0x01 != 0) == (bits & 0x01 != 0) && (masked & 0x02 != 0) == (bits & 0x02
        != 0) && (masked & 0x04 != 0) == (bits & 0x04 != 0) && (masked & 0x08 != 0) == (bits & 0x08
        != 0) && masked & 0x10 == 0 && masked & 0x20 == 0 && (masked & 0x40 != 0) == (bits & 0x40
        != 0) && (masked & 0x80 != 0) == (bits & 0x80 != 0)) by (bit_vector)
        requires
            masked == bits & 0b1100_1111,
    ;
}

/// The status register `P`, one bit per flag.
#[derive(Clone, Copy, Debug, PartialEq, Eq, Structural)]
pub struct StatusFlags {
    pub bits: u8,
}

impl View for StatusFlags {
    type V = Flags;

    open spec fn view(&self) -> Flags {
        Flags::from_bits(self.bits)
    }
}

impl StatusFlags {
    /// The register with no flag set.
    pub fn empty() -> (flags: StatusFlags)
        ensures
            flags@ == Flags::empty(),
    {
        proof {
            lemma_from_bits_of_bits(Flags::empty());
        }
        StatusFlags { bits: 0 }
    }

    /// The register that holds `bits`. Every bit of a byte is a flag, so
    /// nothing is cut off.
    pub fn from_bits_truncate(bits: u8) -> (flags: StatusFlags)
        ensures
            flags@ == Flags::from_bits(bits),
            flags.bits == bits,
    {
        StatusFlags { bits }
    }

    /// The register as a byte.
    pub fn bits(&self) -> (bits: u8)
        ensures
            bits == self@.bits(),
            bits == self.bits,
    {
        proof {
            lemma_bits_of_from_bits(self.bits);
        }
        self.bits
    }

    /// Whether `flag` is set.
    pub fn contains(&self, flag: Flag) -> (set: bool)
        ensures
            set == self@.get(flag),
    {
        proof {
            lemma_update(self.bits, flag);
        }
        let mask: u8 = flag.mask();
        self.bits & mask == mask
    }

    /// Sets `flag`.
    pub fn insert(&mut self, flag: Flag)
        ensures
            final(self)@ == old(self)@.with(flag, true),
    {
        proof {
            lemma_update(self.bits, flag);
        }
        self.bits = self.bits | flag.mask();
    }

    /// Clears `flag`.
    pub fn remove(&mut self, flag: Flag)
        ensures
            final(self)@ == old(self)@.with(flag, false),
    {
        proof {
            lemma_update(self.bits, flag);
        }
        self.bits = self.bits & !flag.mask();
    }

    /// The byte that an interrupt entry or `PHP` pushes: the register with
    /// `Unused` set and `Break` as given.
    pub fn pushed(&self, break_flag: bool) -> (bits: u8)
        ensures
            bits == self@.pushed(break_flag),
    {
        let mut pushed = *self;
        pushed.insert(Flag::Unused);
        pushed.set(Flag::Break, break_flag);
        pushed.bits()
    }

    /// The register that a byte pulled from the stack leaves: `Break` and
    /// `Unused` are not kept.
    pub fn pulled(bits: u8) -> (flags: StatusFlags)
        ensures
            flags@ == Flags::from_bits(bits).stored(),
    {
        proof {
            lemma_mask_stored(bits);
        }
        StatusFlags::from_bits_truncate(bits & 0b1100_1111)
    }

    /// Sets `flag` if `value` holds and clears it otherwise.
    pub fn set(&mut self, flag: Flag, value: bool)
        ensures
            final(self)@ == old(self)@.with(flag, value),
    {
        if value {
            self.insert(flag);
        } else {
            self.remove(flag);
        }
    }
}

/// Flags without `Break` and `Unused` make a byte whose bits four and five
/// are clear.
pub proof fn lemma_storable_bits(flags: Flags)
    requires
        flags.storable(),
    ensures
        flags.bits() & 0b0011_0000 == 0,
{
    lemma_from_bits_of_bits(flags);
    let bits = flags.bits();
    assert(bits & 0x10 == 0 && bits & 0x20 == 0 ==> bits & 0b0011_0000 == 0) by (bit_vector);
}

/// Two registers with the same flags are the same register.
pub proof fn lemma_view_injective(a: StatusFlags, b: StatusFlags)
    requires
        a@ == b@,
    ensures
        a == b,
{
    lemma_bits_of_from_bits(a.bits);
    lemma_bits_of_from_bits(b.bits);
}

} // verus!
