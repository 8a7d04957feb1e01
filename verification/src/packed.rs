//! Packed sub-primitive index.
//!
//! A [`PackedPrimitiveIndex`] combines, in one 32-bit value, everything the
//! shader needs to locate and interpret one sub-primitive:
//!
//! - bits 0..27: offset of the first encoded row of the sub-primitive in the
//!   flat primitive buffer,
//! - bit 27: whether the primitive is bordered,
//! - bits 28..30: the primitive kind tag,
//! - bit 30: reserved, always zero,
//! - bit 31: whether the primitive is textured.
//!
//! Packing then unpacking recovers the original fields exactly whenever the
//! row offset fits in 27 bits; see [`lemma_packed_round_trip`].

use vstd::prelude::*;

use crate::primitive::GpuPrimitiveKind;

verus! {

/// Number of row offsets representable in the 27 index bits (2^27).
pub const PACKED_INDEX_LIMIT: u32 = 0x0800_0000;

/// A primitive row offset packed together with the kind, texture and border
/// flags of the primitive, as stored per tile for the GPU shader.
#[derive(Debug, Default, Clone, Copy, PartialEq, Eq, Structural)]
pub struct PackedPrimitiveIndex(pub u32);

/// The 32-bit packing of `(index, kind, textured, bordered)`: the low 27 bits
/// of `index`, the border flag at bit 27, the kind tag at bit 28, and the
/// texture flag at bit 31.
pub open spec fn spec_pack(index: u32, kind: u32, textured: bool, bordered: bool) -> u32 {
    (index & 0x07FF_FFFF) | (kind << 28u32) | ((if textured {
        1u32
    } else {
        0u32
    }) << 31u32) | ((if bordered {
        1u32
    } else {
        0u32
    }) << 27u32)
}

/// The row offset stored in the low 27 bits of a packed value.
pub open spec fn spec_unpack_index(v: u32) -> u32 {
    v & 0x07FF_FFFF
}

/// The kind tag stored at bit 28 of a packed value.
pub open spec fn spec_unpack_kind(v: u32) -> u32 {
    (v >> 28u32) & 0x3
}

/// The texture flag stored at bit 31 of a packed value.
pub open spec fn spec_unpack_textured(v: u32) -> bool {
    (v >> 31u32) & 0x1 == 1
}

/// The border flag stored at bit 27 of a packed value.
pub open spec fn spec_unpack_bordered(v: u32) -> bool {
    (v >> 27u32) & 0x1 == 1
}

impl PackedPrimitiveIndex {
    /// Create a new packed index from individual values.
    pub fn new(index: u32, kind: GpuPrimitiveKind, textured: bool, bordered: bool) -> (r:
        PackedPrimitiveIndex)
        ensures
            r.0 == spec_pack(index, kind.spec_value(), textured, bordered),
    {
        let textured_bit: u32 = (if textured {
            1u32
        } else {
            0u32
        }) << 31u32;
        let bordered_bit: u32 = (if bordered {
            1u32
        } else {
            0u32
        }) << 27u32;
        let value = (index & 0x07FF_FFFF) | (kind.value() << 28u32) | textured_bit | bordered_bit;
        PackedPrimitiveIndex(value)
    }

    /// The row offset of the sub-primitive in the flat primitive buffer.
    pub fn index(self) -> (r: u32)
        ensures
            r == spec_unpack_index(self.0),
    {
        self.0 & 0x07FF_FFFF
    }

    /// The kind of the packed primitive.
    pub fn kind(self) -> (r: GpuPrimitiveKind)
        ensures
            r == GpuPrimitiveKind::spec_from_value(spec_unpack_kind(self.0)),
    {
        let bits = (self.0 >> 28u32) & 0x3;
        proof {
            let v = self.0;
            assert((v >> 28u32) & 0x3 < 4) by (bit_vector);
        }
        GpuPrimitiveKind::from_value(bits)
    }

    /// Whether the packed primitive is textured.
    pub fn is_textured(self) -> (r: bool)
        ensures
            r == spec_unpack_textured(self.0),
    {
        (self.0 >> 31u32) & 0x1 == 1
    }

    /// Whether the packed primitive is bordered.
    pub fn is_bordered(self) -> (r: bool)
        ensures
            r == spec_unpack_bordered(self.0),
    {
        (self.0 >> 27u32) & 0x1 == 1
    }
}

/// Round-trip law of the packed-index bit layout: for every row offset below
/// 2^27, every kind tag below 4 and both flags, unpacking the packed value
/// recovers the original tuple exactly.
pub proof fn lemma_packed_bits_round_trip(index: u32, kind: u32, textured: bool, bordered: bool)
    by (bit_vector)
    requires
        index < 0x0800_0000,
        kind < 4,
    ensures
        spec_unpack_index(spec_pack(index, kind, textured, bordered)) == index,
        spec_unpack_kind(spec_pack(index, kind, textured, bordered)) == kind,
        spec_unpack_textured(spec_pack(index, kind, textured, bordered)) == textured,
        spec_unpack_bordered(spec_pack(index, kind, textured, bordered)) == bordered,
{
}

/// Round-trip law at the level of [`PackedPrimitiveIndex`] and
/// [`GpuPrimitiveKind`]: packing a `(index, kind, textured, bordered)` tuple
/// and reading the four fields back recovers the tuple, for every row offset
/// below 2^27.
pub proof fn lemma_packed_round_trip(
    index: u32,
    kind: GpuPrimitiveKind,
    textured: bool,
    bordered: bool,
)
    requires
        index < PACKED_INDEX_LIMIT,
    ensures
        spec_unpack_index(spec_pack(index, kind.spec_value(), textured, bordered)) == index,
        GpuPrimitiveKind::spec_from_value(
            spec_unpack_kind(spec_pack(index, kind.spec_value(), textured, bordered)),
        ) == kind,
        spec_unpack_textured(spec_pack(index, kind.spec_value(), textured, bordered)) == textured,
        spec_unpack_bordered(spec_pack(index, kind.spec_value(), textured, bordered)) == bordered,
{
    lemma_packed_bits_round_trip(index, kind.spec_value(), textured, bordered);
}

} // verus!
