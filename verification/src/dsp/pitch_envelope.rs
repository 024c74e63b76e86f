//! Pitch envelope curve shapes for the kick body.

use vstd::prelude::*;

verus! {

/// Shape of the body's pitch sweep.
#[derive(PartialEq, Eq, Structural, Clone, Copy, Debug)]
pub enum PitchCurve {
    /// Standard exponential sweep.
    Exponential,
    /// Slow start, fast end.
    Logarithmic,
    /// Linear interpolation.
    Linear,
    /// Smooth ease-in / ease-out.
    SCurve,
    /// 80% of the drop in the first 20% of the time, then a slow settle.
    Punch,
}

/// Number of variants of [`PitchCurve`].
pub const PITCH_CURVE_COUNT: usize = 5;

impl PitchCurve {
    /// Position of the variant in declaration order.
    pub open spec fn index_spec(self) -> nat {
        match self {
            PitchCurve::Exponential => 0,
            PitchCurve::Logarithmic => 1,
            PitchCurve::Linear => 2,
            PitchCurve::SCurve => 3,
            PitchCurve::Punch => 4,
        }
    }

    /// The variant at an index; an index out of range gives the first variant.
    pub open spec fn from_index_spec(index: int) -> PitchCurve {
        if index == 1 {
            PitchCurve::Logarithmic
        } else if index == 2 {
            PitchCurve::Linear
        } else if index == 3 {
            PitchCurve::SCurve
        } else if index == 4 {
            PitchCurve::Punch
        } else {
            PitchCurve::Exponential
        }
    }

    /// Index of the variant, as stored by the host and sent to the editor.
    pub fn to_index(self) -> (r: usize)
        ensures
            r == self.index_spec(),
            r < PITCH_CURVE_COUNT,
            self == PitchCurve::Exponential ==> r == 0,
            self == PitchCurve::Logarithmic ==> r == 1,
            self == PitchCurve::Linear ==> r == 2,
            self == PitchCurve::SCurve ==> r == 3,
            self == PitchCurve::Punch ==> r == 4,
    {
        match self {
            PitchCurve::Exponential => 0,
            PitchCurve::Logarithmic => 1,
            PitchCurve::Linear => 2,
            PitchCurve::SCurve => 3,
            PitchCurve::Punch => 4,
        }
    }

    /// Variant at `index`; an index out of range gives `Exponential`.
    pub fn from_index(index: usize) -> (r: PitchCurve)
        ensures
            r == Self::from_index_spec(index as int),
            index == 0 ==> r == PitchCurve::Exponential,
            index == 1 ==> r == PitchCurve::Logarithmic,
            index == 2 ==> r == PitchCurve::Linear,
            index == 3 ==> r == PitchCurve::SCurve,
            index == 4 ==> r == PitchCurve::Punch,
            index >= PITCH_CURVE_COUNT ==> r == PitchCurve::Exponential,
    {
        if index == 1 {
            PitchCurve::Logarithmic
        } else if index == 2 {
            PitchCurve::Linear
        } else if index == 3 {
            PitchCurve::SCurve
        } else if index == 4 {
            PitchCurve::Punch
        } else {
            PitchCurve::Exponential
        }
    }

    /// The variants are numbered in declaration order from 0: Exponential = 0, Logarithmic = 1, Linear = 2, SCurve = 3, Punch = 4;
    /// any other index names the first variant.
    pub proof fn lemma_declaration_order()
        ensures
            PitchCurve::Exponential.index_spec() == 0,
            PitchCurve::Logarithmic.index_spec() == 1,
            PitchCurve::Linear.index_spec() == 2,
            PitchCurve::SCurve.index_spec() == 3,
            PitchCurve::Punch.index_spec() == 4,
            forall|i: int| i < 0 || i >= PITCH_CURVE_COUNT ==> Self::from_index_spec(i) == PitchCurve::Exponential,
    {
    }

    /// Every variant is found again from its index, and the indices are
    /// exactly `0 .. PITCH_CURVE_COUNT`.
    pub proof fn lemma_index_roundtrip(self)
        ensures
            Self::from_index_spec(self.index_spec() as int) == self,
            self.index_spec() < PITCH_CURVE_COUNT,
    {
    }

    /// Each index below the count names a variant with that index.
    pub proof fn lemma_from_index_roundtrip(index: int)
        requires
            0 <= index < PITCH_CURVE_COUNT,
        ensures
            Self::from_index_spec(index).index_spec() == index,
    {
    }
}

} // verus!
