//! The feature key by which a variant of the sprite pipeline is selected.
//!
//! The key is a packed word. Its lowest bit says that vertices carry a colour
//! of their own; its highest six bits hold the multisample count minus one.

use vstd::prelude::*;

verus! {

/// Mask of the sample count field, before it is shifted into place.
pub const MSAA_MASK_BITS: u32 = 0b111111;

/// Position of the lowest bit of the sample count field.
pub const MSAA_SHIFT_BITS: u32 = 26;

/// The bit that says that vertices carry a colour of their own.
pub const COLORED_BITS: u32 = 1;

/// The six bits that hold the sample count.
pub const MSAA_RESERVED: u32 = 0xfc00_0000;

/// Every bit that a key may hold.
pub const ALL_BITS: u32 = 0xfc00_0001;

/// A packed set of pipeline features.
#[derive(Clone, Copy, Debug, PartialEq, Eq, Hash, Structural)]
pub struct SpritePipelineKey {
    bits: u32,
}

impl View for SpritePipelineKey {
    type V = u32;

    closed spec fn view(&self) -> u32 {
        self.bits
    }
}

impl SpritePipelineKey {
    /// No feature, one sample.
    pub fn none() -> (key: SpritePipelineKey)
        ensures
            key@ == 0,
            !key.is_colored(),
            key.samples() == 1,
    {
        SpritePipelineKey { bits: 0 }
    }

    /// Vertices carry a colour of their own.
    pub fn colored() -> (key: SpritePipelineKey)
        ensures
            key@ == COLORED_BITS,
            key.is_colored(),
    {
        SpritePipelineKey { bits: COLORED_BITS }
    }

    /// The six bits that hold the sample count.
    pub fn msaa_reserved_bits() -> (key: SpritePipelineKey)
        ensures
            key@ == MSAA_RESERVED,
    {
        SpritePipelineKey { bits: MSAA_RESERVED }
    }

    /// Whether every bit of `bits` is one that a key may hold.
    pub open spec fn valid_bits(bits: u32) -> bool {
        bits & !ALL_BITS == 0
    }

    /// Whether the key says that vertices carry a colour.
    pub open spec fn is_colored(&self) -> bool {
        self@ % 2 == 1
    }

    /// The sample count that the key holds, between 1 and 64.
    pub open spec fn samples(&self) -> int {
        self@ / 0x400_0000 + 1
    }

    /// Whether every bit of `other` is set in `self`.
    pub open spec fn spec_contains(&self, other: SpritePipelineKey) -> bool {
        self@ & other@ == other@
    }

    /// The packed word.
    pub fn bits(&self) -> (bits: u32)
        ensures
            bits == self@,
    {
        self.bits
    }

    /// The key with the given packed word, unless the word holds a bit that
    /// no key has.
    pub fn from_bits(bits: u32) -> (key: Option<SpritePipelineKey>)
        ensures
            key is Some <==> Self::valid_bits(bits),
            key is Some ==> key->0@ == bits,
    {
        if bits & !ALL_BITS == 0 {
            Some(SpritePipelineKey { bits })
        } else {
            None
        }
    }

    /// Whether every bit of `other` is set in `self`.
    pub fn contains(&self, other: SpritePipelineKey) -> (found: bool)
        ensures
            found == self.spec_contains(other),
            other@ == COLORED_BITS ==> found == self.is_colored(),
    {
        proof {
            let a: u32 = self.bits;
            assert((a & 1u32 == 1u32) == (a % 2 == 1)) by (bit_vector);
        }
        self.bits & other.bits == other.bits
    }

    /// The key that holds the bits of both.
    pub fn union(self, other: SpritePipelineKey) -> (key: SpritePipelineKey)
        ensures
            key@ == self@ | other@,
            other@ == COLORED_BITS ==> key.is_colored() && key.samples() == self.samples(),
    {
        proof {
            let a: u32 = self.bits;
            assert((a | 1u32) % 2 == 1) by (bit_vector);
            assert((a | 1u32) / 0x400_0000 == a / 0x400_0000) by (bit_vector);
        }
        SpritePipelineKey { bits: self.bits | other.bits }
    }

    /// The key of the uncoloured pipeline with `msaa_samples` samples.
    ///
    /// The count is stored less one, in six bits: counts from 1 to 64 are
    /// kept as they are, larger ones are taken modulo 64.
    pub fn from_msaa_samples(msaa_samples: u32) -> (key: SpritePipelineKey)
        requires
            msaa_samples >= 1,
        ensures
            key@ == ((msaa_samples - 1) % 64) * 0x400_0000,
            key.samples() == (msaa_samples - 1) % 64 + 1,
            msaa_samples <= 64 ==> key.samples() == msaa_samples,
            !key.is_colored(),
            Self::valid_bits(key@),
    {
        let field: u32 = (msaa_samples - 1) & MSAA_MASK_BITS;
        let msaa_bits: u32 = field << MSAA_SHIFT_BITS;
        proof {
            let n: u32 = (msaa_samples - 1) as u32;
            assert(n & 0b111111u32 == n % 64) by (bit_vector);
            assert(field < 64 ==> (field << 26u32) == field * 0x400_0000) by (bit_vector);
            assert(field < 64 ==> (field << 26u32) & !0xfc00_0001u32 == 0) by (bit_vector);
        }
        SpritePipelineKey { bits: msaa_bits }
    }

    /// The sample count that the key holds.
    pub fn msaa_samples(&self) -> (samples: u32)
        ensures
            samples == self.samples(),
            1 <= samples <= 64,
    {
        proof {
            let a: u32 = self.bits;
            assert((a >> 26u32) & 0b111111u32 == a / 0x400_0000) by (bit_vector);
            assert(a / 0x400_0000 < 64) by (bit_vector);
        }
        ((self.bits >> MSAA_SHIFT_BITS) & MSAA_MASK_BITS) + 1
    }
}

} // verus!
