//! Noise layer: noise colours and the integer state of its generator.

use vstd::prelude::*;

verus! {

/// Colour of the noise layer.
#[derive(PartialEq, Eq, Structural, Clone, Copy, Debug)]
pub enum NoiseType {
    /// Flat spectrum.
    White,
    /// Pink spectrum (Kellet's filter).
    Pink,
    /// White noise through a one-pole low-pass.
    Filtered,
}

/// Number of variants of [`NoiseType`].
pub const NOISE_TYPE_COUNT: usize = 3;

impl NoiseType {
    /// Position of the variant in declaration order.
    pub open spec fn index_spec(self) -> nat {
        match self {
            NoiseType::White => 0,
            NoiseType::Pink => 1,
            NoiseType::Filtered => 2,
        }
    }

    /// The variant at an index; an index out of range gives the first variant.
    pub open spec fn from_index_spec(index: int) -> NoiseType {
        if index == 1 {
            NoiseType::Pink
        } else if index == 2 {
            NoiseType::Filtered
        } else {
            NoiseType::White
        }
    }

    /// Index of the variant, as stored by the host and sent to the editor.
    pub fn to_index(self) -> (r: usize)
        ensures
            r == self.index_spec(),
            r < NOISE_TYPE_COUNT,
            self == NoiseType::White ==> r == 0,
            self == NoiseType::Pink ==> r == 1,
            self == NoiseType::Filtered ==> r == 2,
    {
        match self {
            NoiseType::White => 0,
            NoiseType::Pink => 1,
            NoiseType::Filtered => 2,
        }
    }

    /// Variant at `index`; an index out of range gives `White`.
    pub fn from_index(index: usize) -> (r: NoiseType)
        ensures
            r == Self::from_index_spec(index as int),
            index == 0 ==> r == NoiseType::White,
            index == 1 ==> r == NoiseType::Pink,
            index == 2 ==> r == NoiseType::Filtered,
            index >= NOISE_TYPE_COUNT ==> r == NoiseType::White,
    {
        if index == 1 {
            NoiseType::Pink
        } else if index == 2 {
            NoiseType::Filtered
        } else {
            NoiseType::White
        }
    }

    /// The variants are numbered in declaration order from 0: White = 0, Pink = 1, Filtered = 2;
    /// any other index names the first variant.
    pub proof fn lemma_declaration_order()
        ensures
            NoiseType::White.index_spec() == 0,
            NoiseType::Pink.index_spec() == 1,
            NoiseType::Filtered.index_spec() == 2,
            forall|i: int| i < 0 || i >= NOISE_TYPE_COUNT ==> Self::from_index_spec(i) == NoiseType::White,
    {
    }

    /// Every variant is found again from its index, and the indices are
    /// exactly `0 .. NOISE_TYPE_COUNT`.
    pub proof fn lemma_index_roundtrip(self)
        ensures
            Self::from_index_spec(self.index_spec() as int) == self,
            self.index_spec() < NOISE_TYPE_COUNT,
    {
    }

    /// Each index below the count names a variant with that index.
    pub proof fn lemma_from_index_roundtrip(index: int)
        requires
            0 <= index < NOISE_TYPE_COUNT,
        ensures
            Self::from_index_spec(index).index_spec() == index,
    {
    }
}

/// Seed of the noise layer's generator.
pub const NOISE_SEED: u32 = 0xDEAD_BEEF;

/// One xorshift32 step (shifts 13, 17, 5).
pub open spec fn xorshift32_spec(x: u32) -> u32 {
    let a = x ^ (x << 13u32);
    let b = a ^ (a >> 17u32);
    b ^ (b << 5u32)
}

/// One step of the xorshift32 generator.
pub fn xorshift32(x: u32) -> (r: u32)
    ensures
        r == xorshift32_spec(x),
{
    let a = x ^ (x << 13u32);
    let b = a ^ (a >> 17u32);
    b ^ (b << 5u32)
}

/// A xorshift step never maps a non-zero state to zero (and zero only to
/// zero), so a generator seeded with a non-zero value never falls silent.
pub proof fn lemma_xorshift32_nonzero(x: u32)
    ensures
        (x != 0) == (xorshift32_spec(x) != 0),
{
    assert((x != 0) == ({
        let a = x ^ (x << 13u32);
        let b = a ^ (a >> 17u32);
        b ^ (b << 5u32)
    } != 0)) by (bit_vector);
}

/// The xorshift32 step on the two seeds in use and on 1, with the 13 / 17 / 5
/// shift triple.
pub proof fn lemma_xorshift32_values()
    ensures
        xorshift32_spec(0xDEAD_BEEF) == 0x477d_20b7,
        xorshift32_spec(0x477d_20b7) == 0x8e1d_9142,
        xorshift32_spec(0x1234_5678) == 0x8798_5aa5,
        xorshift32_spec(1) == 0x0004_2021,
{
    assert(xorshift32_spec(0xDEAD_BEEF) == 0x477d_20b7) by (bit_vector);
    assert(xorshift32_spec(0x477d_20b7) == 0x8e1d_9142) by (bit_vector);
    assert(xorshift32_spec(0x1234_5678) == 0x8798_5aa5) by (bit_vector);
    assert(xorshift32_spec(1) == 0x0004_2021) by (bit_vector);
}

/// The xorshift32 state of a noise source. Its state is never zero.
pub struct Xorshift32 {
    state: u32,
}

impl Xorshift32 {
    #[verifier::type_invariant]
    spec fn inv(self) -> bool {
        self.state != 0
    }

    /// Current state.
    pub closed spec fn view(self) -> u32 {
        self.state
    }

    /// A generator seeded with `seed`; a zero seed is refused with `None`,
    /// since the generator would then only ever produce zero.
    pub fn new(seed: u32) -> (r: Option<Xorshift32>)
        ensures
            seed != 0 <==> r is Some,
            r matches Some(g) ==> g.view() == seed,
    {
        if seed == 0 {
            None
        } else {
            Some(Xorshift32 { state: seed })
        }
    }

    /// Advance one step and return the new state.
    pub fn next_u32(&mut self) -> (r: u32)
        ensures
            r == xorshift32_spec(old(self).view()),
            final(self).view() == r,
            r != 0,
    {
        proof {
            use_type_invariant(&*self);
            lemma_xorshift32_nonzero(self.state);
        }
        let n = xorshift32(self.state);
        self.state = n;
        n
    }

    /// Current state, never zero.
    pub fn state(&self) -> (r: u32)
        ensures
            r == self.view(),
            r != 0,
    {
        proof {
            use_type_invariant(self);
        }
        self.state
    }
}

} // verus!
