//! Oscillator waveforms for kick synthesis.

use vstd::prelude::*;

verus! {

/// Waveform of the body oscillator.
#[derive(PartialEq, Eq, Structural, Clone, Copy, Debug)]
pub enum Waveform {
    /// Sine wave.
    Sine,
    /// Triangle wave.
    Triangle,
    /// Rising saw wave.
    Saw,
    /// Square wave.
    Pulse,
    /// Sine driven into a wave folder.
    SineFold,
}

/// Number of variants of [`Waveform`].
pub const WAVEFORM_COUNT: usize = 5;

impl Waveform {
    /// Position of the variant in declaration order.
    pub open spec fn index_spec(self) -> nat {
        match self {
            Waveform::Sine => 0,
            Waveform::Triangle => 1,
            Waveform::Saw => 2,
            Waveform::Pulse => 3,
            Waveform::SineFold => 4,
        }
    }

    /// The variant at an index; an index out of range gives the first variant.
    pub open spec fn from_index_spec(index: int) -> Waveform {
        if index == 1 {
            Waveform::Triangle
        } else if index == 2 {
            Waveform::Saw
        } else if index == 3 {
            Waveform::Pulse
        } else if index == 4 {
            Waveform::SineFold
        } else {
            Waveform::Sine
        }
    }

    /// Index of the variant, as stored by the host and sent to the editor.
    pub fn to_index(self) -> (r: usize)
        ensures
            r == self.index_spec(),
            r < WAVEFORM_COUNT,
            self == Waveform::Sine ==> r == 0,
            self == Waveform::Triangle ==> r == 1,
            self == Waveform::Saw ==> r == 2,
            self == Waveform::Pulse ==> r == 3,
            self == Waveform::SineFold ==> r == 4,
    {
        match self {
            Waveform::Sine => 0,
            Waveform::Triangle => 1,
            Waveform::Saw => 2,
            Waveform::Pulse => 3,
            Waveform::SineFold => 4,
        }
    }

    /// Variant at `index`; an index out of range gives `Sine`.
    pub fn from_index(index: usize) -> (r: Waveform)
        ensures
            r == Self::from_index_spec(index as int),
            index == 0 ==> r == Waveform::Sine,
            index == 1 ==> r == Waveform::Triangle,
            index == 2 ==> r == Waveform::Saw,
            index == 3 ==> r == Waveform::Pulse,
            index == 4 ==> r == Waveform::SineFold,
            index >= WAVEFORM_COUNT ==> r == Waveform::Sine,
    {
        if index == 1 {
            Waveform::Triangle
        } else if index == 2 {
            Waveform::Saw
        } else if index == 3 {
            Waveform::Pulse
        } else if index == 4 {
            Waveform::SineFold
        } else {
            Waveform::Sine
        }
    }

    /// The variants are numbered in declaration order from 0: Sine = 0, Triangle = 1, Saw = 2, Pulse = 3, SineFold = 4;
    /// any other index names the first variant.
    pub proof fn lemma_declaration_order()
        ensures
            Waveform::Sine.index_spec() == 0,
            Waveform::Triangle.index_spec() == 1,
            Waveform::Saw.index_spec() == 2,
            Waveform::Pulse.index_spec() == 3,
            Waveform::SineFold.index_spec() == 4,
            forall|i: int| i < 0 || i >= WAVEFORM_COUNT ==> Self::from_index_spec(i) == Waveform::Sine,
    {
    }

    /// Every variant is found again from its index, and the indices are
    /// exactly `0 .. WAVEFORM_COUNT`.
    pub proof fn lemma_index_roundtrip(self)
        ensures
            Self::from_index_spec(self.index_spec() as int) == self,
            self.index_spec() < WAVEFORM_COUNT,
    {
    }

    /// Each index below the count names a variant with that index.
    pub proof fn lemma_from_index_roundtrip(index: int)
        requires
            0 <= index < WAVEFORM_COUNT,
        ensures
            Self::from_index_spec(index).index_spec() == index,
    {
    }
}

} // verus!
