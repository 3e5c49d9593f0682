use vstd::prelude::*;

verus! {

/// Bit of a [`Flags`] set: the timer query starts before the clear.
pub const CLEAR_BIT: u32 = 1;

/// Bit of a [`Flags`] set: the timer query ends after the draw.
pub const DRAW_BIT: u32 = 2;

/// Which of a sample's two GPU operations the timer query brackets.
#[derive(Clone, Copy, Debug, PartialEq, Eq, Structural)]
pub struct Flags {
    pub bits: u32,
}

impl Flags {
    /// The query is started before the clear, so the clear is timed.
    pub open spec fn times_clear(self) -> bool {
        self.bits & CLEAR_BIT != 0
    }

    /// The query is ended after the draw, so the draw is timed.
    pub open spec fn times_draw(self) -> bool {
        self.bits & DRAW_BIT != 0
    }

    /// The set that times the clear only.
    pub open spec fn spec_clear() -> Flags {
        Flags { bits: CLEAR_BIT }
    }

    /// The set that times the draw only.
    pub open spec fn spec_draw() -> Flags {
        Flags { bits: DRAW_BIT }
    }

    /// The clear-only set times the clear and not the draw; the draw-only
    /// set times the draw and not the clear.
    pub proof fn lemma_single_flags()
        ensures
            Flags::spec_clear().times_clear(),
            !Flags::spec_clear().times_draw(),
            !Flags::spec_draw().times_clear(),
            Flags::spec_draw().times_draw(),
    {
        assert(1u32 & 1u32 != 0) by (bit_vector);
        assert(1u32 & 2u32 == 0) by (bit_vector);
        assert(2u32 & 1u32 == 0) by (bit_vector);
        assert(2u32 & 2u32 != 0) by (bit_vector);
    }

    /// Time the clear.
    pub fn clear() -> (r: Flags)
        ensures
            r == Flags::spec_clear(),
            r.times_clear(),
            !r.times_draw(),
    {
        proof {
            Flags::lemma_single_flags();
        }
        Flags { bits: CLEAR_BIT }
    }

    /// Time the draw.
    pub fn draw() -> (r: Flags)
        ensures
            r == Flags::spec_draw(),
            !r.times_clear(),
            r.times_draw(),
    {
        proof {
            Flags::lemma_single_flags();
        }
        Flags { bits: DRAW_BIT }
    }

    /// Every bit of `other` is set in `self`.
    pub fn contains(&self, other: Flags) -> (r: bool)
        ensures
            r == (self.bits & other.bits == other.bits),
    {
        self.bits & other.bits == other.bits
    }
}

} // verus!
