//! Click (attack transient) layer: its transient types and the seed of its
//! noise source.

use vstd::prelude::*;

verus! {

/// Character of the click transient.
#[derive(PartialEq, Eq, Structural, Clone, Copy, Debug)]
pub enum ClickType {
    /// Filtered noise burst.
    Noise,
    /// Short sine blip.
    Sine,
    /// Punchy transient.
    Punch,
}

/// Number of variants of [`ClickType`].
pub const CLICK_TYPE_COUNT: usize = 3;

impl ClickType {
    /// Position of the variant in declaration order.
    pub open spec fn index_spec(self) -> nat {
        match self {
            ClickType::Noise => 0,
            ClickType::Sine => 1,
            ClickType::Punch => 2,
        }
    }

    /// The variant at an index; an index out of range gives the first variant.
    pub open spec fn from_index_spec(index: int) -> ClickType {
        if index == 1 {
            ClickType::Sine
        } else if index == 2 {
            ClickType::Punch
        } else {
            ClickType::Noise
        }
    }

    /// Index of the variant, as stored by the host and sent to the editor.
    pub fn to_index(self) -> (r: usize)
        ensures
            r == self.index_spec(),
            r < CLICK_TYPE_COUNT,
            self == ClickType::Noise ==> r == 0,
            self == ClickType::Sine ==> r == 1,
            self == ClickType::Punch ==> r == 2,
    {
        match self {
            ClickType::Noise => 0,
            ClickType::Sine => 1,
            ClickType::Punch => 2,
        }
    }

    /// Variant at `index`; an index out of range gives `Noise`.
    pub fn from_index(index: usize) -> (r: ClickType)
        ensures
            r == Self::from_index_spec(index as int),
            index == 0 ==> r == ClickType::Noise,
            index == 1 ==> r == ClickType::Sine,
            index == 2 ==> r == ClickType::Punch,
            index >= CLICK_TYPE_COUNT ==> r == ClickType::Noise,
    {
        if index == 1 {
            ClickType::Sine
        } else if index == 2 {
            ClickType::Punch
        } else {
            ClickType::Noise
        }
    }

    /// The variants are numbered in declaration order from 0: Noise = 0, Sine = 1, Punch = 2;
    /// any other index names the first variant.
    pub proof fn lemma_declaration_order()
        ensures
            ClickType::Noise.index_spec() == 0,
            ClickType::Sine.index_spec() == 1,
            ClickType::Punch.index_spec() == 2,
            forall|i: int| i < 0 || i >= CLICK_TYPE_COUNT ==> Self::from_index_spec(i) == ClickType::Noise,
    {
    }

    /// Every variant is found again from its index, and the indices are
    /// exactly `0 .. CLICK_TYPE_COUNT`.
    pub proof fn lemma_index_roundtrip(self)
        ensures
            Self::from_index_spec(self.index_spec() as int) == self,
            self.index_spec() < CLICK_TYPE_COUNT,
    {
    }

    /// Each index below the count names a variant with that index.
    pub proof fn lemma_from_index_roundtrip(index: int)
        requires
            0 <= index < CLICK_TYPE_COUNT,
        ensures
            Self::from_index_spec(index).index_spec() == index,
    {
    }
}

/// Seed of the click layer's xorshift32 generator.
pub const CLICK_SEED: u32 = 0x1234_5678;

} // verus!
