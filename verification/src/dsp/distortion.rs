//! Distortion algorithms for the kick body and the FX rack.

use vstd::prelude::*;

verus! {

/// The waveshaping algorithm of a distortion stage.
#[derive(PartialEq, Eq, Structural, Clone, Copy, Debug)]
pub enum DistortionType {
    /// Soft saturation via tanh: warm, musical.
    Tanh,
    /// Hard clipper: harsh, digital.
    HardClip,
    /// Wave folding: complex harmonics.
    Foldback,
    /// Asymmetric soft clip: adds even harmonics.
    Asymmetric,
    /// Bit reduction and sample-rate reduction: lo-fi character.
    Bitcrush,
}

/// Number of distortion algorithms.
pub const DISTORTION_TYPE_COUNT: usize = 5;

impl DistortionType {
    /// Position of the variant in declaration order.
    pub open spec fn index_spec(self) -> nat {
        match self {
            DistortionType::Tanh => 0,
            DistortionType::HardClip => 1,
            DistortionType::Foldback => 2,
            DistortionType::Asymmetric => 3,
            DistortionType::Bitcrush => 4,
        }
    }

    /// The variant at an index; an index out of range gives the first variant.
    pub open spec fn from_index_spec(index: int) -> DistortionType {
        if index == 1 {
            DistortionType::HardClip
        } else if index == 2 {
            DistortionType::Foldback
        } else if index == 3 {
            DistortionType::Asymmetric
        } else if index == 4 {
            DistortionType::Bitcrush
        } else {
            DistortionType::Tanh
        }
    }

    /// Index of the variant, as stored by the host and sent to the editor.
    pub fn to_index(self) -> (r: usize)
        ensures
            r == self.index_spec(),
            r < DISTORTION_TYPE_COUNT,
            self == DistortionType::Tanh ==> r == 0,
            self == DistortionType::HardClip ==> r == 1,
            self == DistortionType::Foldback ==> r == 2,
            self == DistortionType::Asymmetric ==> r == 3,
            self == DistortionType::Bitcrush ==> r == 4,
    {
        match self {
            DistortionType::Tanh => 0,
            DistortionType::HardClip => 1,
            DistortionType::Foldback => 2,
            DistortionType::Asymmetric => 3,
            DistortionType::Bitcrush => 4,
        }
    }

    /// Variant at `index`; an index out of range gives `Tanh`.
    pub fn from_index(index: usize) -> (r: DistortionType)
        ensures
            r == Self::from_index_spec(index as int),
            index == 0 ==> r == DistortionType::Tanh,
            index == 1 ==> r == DistortionType::HardClip,
            index == 2 ==> r == DistortionType::Foldback,
            index == 3 ==> r == DistortionType::Asymmetric,
            index == 4 ==> r == DistortionType::Bitcrush,
            index >= DISTORTION_TYPE_COUNT ==> r == DistortionType::Tanh,
    {
        if index == 1 {
            DistortionType::HardClip
        } else if index == 2 {
            DistortionType::Foldback
        } else if index == 3 {
            DistortionType::Asymmetric
        } else if index == 4 {
            DistortionType::Bitcrush
        } else {
            DistortionType::Tanh
        }
    }

    /// The variants are numbered in declaration order from 0: Tanh = 0, HardClip = 1, Foldback = 2, Asymmetric = 3, Bitcrush = 4;
    /// any other index names the first variant.
    pub proof fn lemma_declaration_order()
        ensures
            DistortionType::Tanh.index_spec() == 0,
            DistortionType::HardClip.index_spec() == 1,
            DistortionType::Foldback.index_spec() == 2,
            DistortionType::Asymmetric.index_spec() == 3,
            DistortionType::Bitcrush.index_spec() == 4,
            forall|i: int| i < 0 || i >= DISTORTION_TYPE_COUNT ==> Self::from_index_spec(i) == DistortionType::Tanh,
    {
    }

    /// Every variant is found again from its index, and the indices are
    /// exactly `0 .. DISTORTION_TYPE_COUNT`.
    pub proof fn lemma_index_roundtrip(self)
        ensures
            Self::from_index_spec(self.index_spec() as int) == self,
            self.index_spec() < DISTORTION_TYPE_COUNT,
    {
    }

    /// Each index below the count names a variant with that index.
    pub proof fn lemma_from_index_roundtrip(index: int)
        requires
            0 <= index < DISTORTION_TYPE_COUNT,
        ensures
            Self::from_index_spec(index).index_spec() == index,
    {
    }
}

} // verus!
