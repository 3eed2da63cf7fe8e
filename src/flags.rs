use vstd::prelude::*;

verus! {

/// One bit of the processor status register.
#[derive(Clone, Copy, Debug, PartialEq, Eq, Structural)]
pub enum Flag {
    Carry,
    Zero,
    InterruptDisable,
    Decimal,
    Break1,
    Break2,
    Overflow,
    Negative,
}

impl Flag {
    /// The single bit that stands for this flag in the status byte.
    pub open spec fn spec_mask(self) -> u8 {
        match self {
            Flag::Carry => 0x01,
            Flag::Zero => 0x02,
            Flag::InterruptDisable => 0x04,
            Flag::Decimal => 0x08,
            Flag::Break1 => 0x10,
            Flag::Break2 => 0x20,
            Flag::Overflow => 0x40,
            Flag::Negative => 0x80,
        }
    }

    #[verifier::when_used_as_spec(spec_mask)]
    pub fn mask(self) -> (r: u8)
        ensures
            r == self.spec_mask(),
    {
        match self {
            Flag::Carry => 0x01,
            Flag::Zero => 0x02,
            Flag::InterruptDisable => 0x04,
            Flag::Decimal => 0x08,
            Flag::Break1 => 0x10,
            Flag::Break2 => 0x20,
            Flag::Overflow => 0x40,
            Flag::Negative => 0x80,
        }
    }
}

/// Whether flag `f` is set in the status byte `bits`.
pub open spec fn flag_set(bits: u8, f: Flag) -> bool {
    bits & f.mask() != 0
}

/// The status byte `bits` with flag `f` set to `value` and every other flag kept.
pub open spec fn with_flag(bits: u8, f: Flag, value: bool) -> u8 {
    if value {
        bits | f.mask()
    } else {
        bits & !f.mask()
    }
}

/// The status byte after power-up or reset: InterruptDisable and Break2 set, all others clear.
pub const POWER_UP_BITS: u8 = 0b0010_0100;

proof fn lemma_single_bits(b: u8, m: u8, n: u8)
    by (bit_vector)
    requires
        m == 0x01 || m == 0x02 || m == 0x04 || m == 0x08 || m == 0x10 || m == 0x20 || m == 0x40
            || m == 0x80,
        n == 0x01 || n == 0x02 || n == 0x04 || n == 0x08 || n == 0x10 || n == 0x20 || n == 0x40
            || n == 0x80,
    ensures
        (b | m) & m != 0,
        (b & !m) & m == 0,
        m != n ==> (((b | m) & n != 0) == (b & n != 0)),
        m != n ==> (((b & !m) & n != 0) == (b & n != 0)),
        (POWER_UP_BITS & m != 0) == (m == 0x04 || m == 0x20),
{
}

/// Setting one flag leaves every other flag as it was.
pub proof fn lemma_with_flag(bits: u8, f: Flag, value: bool, g: Flag)
    ensures
        flag_set(with_flag(bits, f, value), g) == if g == f {
            value
        } else {
            flag_set(bits, g)
        },
{
    lemma_single_bits(bits, f.mask(), g.mask());
}

/// The power-up pattern has exactly InterruptDisable and Break2 set.
pub proof fn lemma_power_up(g: Flag)
    ensures
        flag_set(POWER_UP_BITS, g) == (g == Flag::InterruptDisable || g == Flag::Break2),
{
    lemma_single_bits(0, g.mask(), g.mask());
}

/// The status register: eight independent flags packed into one byte.
#[derive(Clone, Copy, Debug, PartialEq, Eq, Structural)]
pub struct Flags {
    bits: u8,
}

impl View for Flags {
    type V = u8;

    closed spec fn view(&self) -> u8 {
        self.bits
    }
}

impl Flags {
    pub fn from_bits(bits: u8) -> (r: Flags)
        ensures
            r@ == bits,
    {
        Flags { bits }
    }

    /// InterruptDisable and Break2 set, all others clear.
    pub fn power_up() -> (r: Flags)
        ensures
            r@ == POWER_UP_BITS,
            forall|g: Flag| #[trigger] flag_set(r@, g) == (g == Flag::InterruptDisable || g == Flag::Break2),
    {
        proof {
            assert forall|g: Flag| #[trigger] flag_set(POWER_UP_BITS, g) == (g == Flag::InterruptDisable || g == Flag::Break2) by {
                lemma_power_up(g);
            }
        }
        Flags { bits: POWER_UP_BITS }
    }

    pub fn bits(&self) -> (r: u8)
        ensures
            r == self@,
    {
        self.bits
    }

    pub fn contains(&self, f: Flag) -> (r: bool)
        ensures
            r == flag_set(self@, f),
    {
        self.bits & f.mask() != 0
    }

    /// Sets `f` to `value`, keeping the other flags.
    pub fn set(&mut self, f: Flag, value: bool)
        ensures
            final(self)@ == with_flag(old(self)@, f, value),
            forall|g: Flag| #[trigger] flag_set(final(self)@, g) == if g == f {
                value
            } else {
                flag_set(old(self)@, g)
            },
    {
        proof {
            assert forall|g: Flag| #[trigger] flag_set(with_flag(self@, f, value), g) == if g == f {
                value
            } else {
                flag_set(self@, g)
            } by {
                lemma_with_flag(self@, f, value, g);
            }
        }
        if value {
            self.bits = self.bits | f.mask();
        } else {
            self.bits = self.bits & !f.mask();
        }
    }

    pub fn insert(&mut self, f: Flag)
        ensures
            final(self)@ == with_flag(old(self)@, f, true),
            forall|g: Flag| #[trigger] flag_set(final(self)@, g) == (g == f || flag_set(old(self)@, g)),
    {
        self.set(f, true);
    }

    pub fn remove(&mut self, f: Flag)
        ensures
            final(self)@ == with_flag(old(self)@, f, false),
            forall|g: Flag| #[trigger] flag_set(final(self)@, g) == (g != f && flag_set(old(self)@, g)),
    {
        self.set(f, false);
    }
}

} // verus!
