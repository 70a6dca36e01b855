//! The vertex-attribute layout declared on the vertex array object.
//!
//! Two attributes read the interleaved buffer: attribute 0 is the
//! position, attribute 1 the color. Their strides and offsets must
//! match the interleaving that `geometry` writes into the buffer — a
//! mismatch renders garbage without any reportable error, so the match
//! is proved here.

use vstd::prelude::*;
use crate::geometry::{
    BYTES_PER_COMPONENT,
    COLOR_COMPONENTS,
    COMPONENTS_PER_VERTEX,
    POSITION_COMPONENTS,
};

verus! {

/// Byte distance between the starts of consecutive vertex records.
pub const STRIDE_BYTES: u32 = 24;

/// How one vertex attribute reads the interleaved buffer, in the terms
/// the attribute-pointer call takes.
#[derive(Clone, Copy, Debug, PartialEq, Eq, Structural)]
pub struct VertexAttribute {
    /// The shader input location this attribute feeds.
    pub index: u32,
    /// Number of 32-bit float components read per vertex.
    pub components: u32,
    /// Whether integer values are normalized on conversion to float.
    pub normalized: bool,
    /// Byte distance between consecutive records.
    pub stride_bytes: u32,
    /// Byte offset of this attribute's first component inside a record.
    pub offset_bytes: u32,
}

/// Attribute 0: the position, three floats at the start of each record.
pub open spec fn spec_position_attribute() -> VertexAttribute {
    VertexAttribute { index: 0, components: 3, normalized: false, stride_bytes: 24, offset_bytes: 0 }
}

/// Attribute 1: the color, three floats following the position.
pub open spec fn spec_color_attribute() -> VertexAttribute {
    VertexAttribute {
        index: 1,
        components: 3,
        normalized: false,
        stride_bytes: 24,
        offset_bytes: 12,
    }
}

/// Builds the position attribute the shell declares on the vertex array.
pub fn position_attribute() -> (a: VertexAttribute)
    ensures
        a == spec_position_attribute(),
{
    VertexAttribute { index: 0, components: 3, normalized: false, stride_bytes: STRIDE_BYTES, offset_bytes: 0 }
}

/// Builds the color attribute the shell declares on the vertex array.
pub fn color_attribute() -> (a: VertexAttribute)
    ensures
        a == spec_color_attribute(),
{
    VertexAttribute {
        index: 1,
        components: 3,
        normalized: false,
        stride_bytes: STRIDE_BYTES,
        offset_bytes: 12,
    }
}

/// An attribute is consistent with the interleaved record layout when
/// its stride is one record and what it reads lies inside the record.
pub open spec fn attribute_fits_record(a: VertexAttribute) -> bool {
    &&& a.stride_bytes == COMPONENTS_PER_VERTEX * BYTES_PER_COMPONENT
    &&& a.offset_bytes + a.components * BYTES_PER_COMPONENT <= a.stride_bytes
}

/// The declared layout matches the interleaving written into the
/// buffer: both attributes stride one 24-byte record, attribute 0 reads
/// the three position components at offset 0, attribute 1 the three
/// color components at offset 12, and together they cover each record
/// exactly, without overlap.
pub proof fn lemma_layout_matches_interleaving()
    ensures
        spec_position_attribute().index == 0 && spec_color_attribute().index == 1,
        spec_position_attribute().components == POSITION_COMPONENTS,
        spec_color_attribute().components == COLOR_COMPONENTS,
        spec_position_attribute().stride_bytes == STRIDE_BYTES,
        spec_color_attribute().stride_bytes == STRIDE_BYTES,
        spec_position_attribute().offset_bytes == 0,
        spec_color_attribute().offset_bytes == POSITION_COMPONENTS * BYTES_PER_COMPONENT,
        attribute_fits_record(spec_position_attribute()),
        attribute_fits_record(spec_color_attribute()),
        spec_position_attribute().offset_bytes + spec_position_attribute().components
            * BYTES_PER_COMPONENT == spec_color_attribute().offset_bytes,
        spec_color_attribute().offset_bytes + spec_color_attribute().components
            * BYTES_PER_COMPONENT == spec_color_attribute().stride_bytes,
{
}

} // verus!
