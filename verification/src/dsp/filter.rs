//! Filter modes of the state-variable filter used for tone shaping.

use vstd::prelude::*;

verus! {

/// Output of the state-variable filter.
#[derive(PartialEq, Eq, Structural, Clone, Copy, Debug)]
pub enum FilterMode {
    /// Low-pass output.
    LowPass,
    /// High-pass output.
    HighPass,
    /// Band-pass output.
    BandPass,
    /// Notch output.
    Notch,
}

/// Number of variants of [`FilterMode`].
pub const FILTER_MODE_COUNT: usize = 4;

impl FilterMode {
    /// Position of the variant in declaration order.
    pub open spec fn index_spec(self) -> nat {
        match self {
            FilterMode::LowPass => 0,
            FilterMode::HighPass => 1,
            FilterMode::BandPass => 2,
            FilterMode::Notch => 3,
        }
    }

    /// The variant at an index; an index out of range gives the first variant.
    pub open spec fn from_index_spec(index: int) -> FilterMode {
        if index == 1 {
            FilterMode::HighPass
        } else if index == 2 {
            FilterMode::BandPass
        } else if index == 3 {
            FilterMode::Notch
        } else {
            FilterMode::LowPass
        }
    }

    /// Index of the variant, as stored by the host and sent to the editor.
    pub fn to_index(self) -> (r: usize)
        ensures
            r == self.index_spec(),
            r < FILTER_MODE_COUNT,
            self == FilterMode::LowPass ==> r == 0,
            self == FilterMode::HighPass ==> r == 1,
            self == FilterMode::BandPass ==> r == 2,
            self == FilterMode::Notch ==> r == 3,
    {
        match self {
            FilterMode::LowPass => 0,
            FilterMode::HighPass => 1,
            FilterMode::BandPass => 2,
            FilterMode::Notch => 3,
        }
    }

    /// Variant at `index`; an index out of range gives `LowPass`.
    pub fn from_index(index: usize) -> (r: FilterMode)
        ensures
            r == Self::from_index_spec(index as int),
            index == 0 ==> r == FilterMode::LowPass,
            index == 1 ==> r == FilterMode::HighPass,
            index == 2 ==> r == FilterMode::BandPass,
            index == 3 ==> r == FilterMode::Notch,
            index >= FILTER_MODE_COUNT ==> r == FilterMode::LowPass,
    {
        if index == 1 {
            FilterMode::HighPass
        } else if index == 2 {
            FilterMode::BandPass
        } else if index == 3 {
            FilterMode::Notch
        } else {
            FilterMode::LowPass
        }
    }

    /// The variants are numbered in declaration order from 0: LowPass = 0, HighPass = 1, BandPass = 2, Notch = 3;
    /// any other index names the first variant.
    pub proof fn lemma_declaration_order()
        ensures
            FilterMode::LowPass.index_spec() == 0,
            FilterMode::HighPass.index_spec() == 1,
            FilterMode::BandPass.index_spec() == 2,
            FilterMode::Notch.index_spec() == 3,
            forall|i: int| i < 0 || i >= FILTER_MODE_COUNT ==> Self::from_index_spec(i) == FilterMode::LowPass,
    {
    }

    /// Every variant is found again from its index, and the indices are
    /// exactly `0 .. FILTER_MODE_COUNT`.
    pub proof fn lemma_index_roundtrip(self)
        ensures
            Self::from_index_spec(self.index_spec() as int) == self,
            self.index_spec() < FILTER_MODE_COUNT,
    {
    }

    /// Each index below the count names a variant with that index.
    pub proof fn lemma_from_index_roundtrip(index: int)
        requires
            0 <= index < FILTER_MODE_COUNT,
        ensures
            Self::from_index_spec(index).index_spec() == index,
    {
    }
}

} // verus!
