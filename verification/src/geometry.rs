//! The triangle's vertex data and its interleaved buffer layout.
//!
//! Verified code holds each 32-bit float component as its IEEE-754 bit
//! pattern, since the verifier excludes floating point from proofs; the
//! rendering shell reinterprets the bit patterns as `f32` just before
//! uploading the buffer. Nothing here computes on the component values,
//! so the bit-level view loses nothing.

use vstd::prelude::*;

verus! {

/// Number of position components (x, y, z) in one vertex record.
pub const POSITION_COMPONENTS: usize = 3;

/// Number of color components (r, g, b) in one vertex record.
pub const COLOR_COMPONENTS: usize = 3;

/// Total 32-bit components in one interleaved vertex record.
pub const COMPONENTS_PER_VERTEX: usize = 6;

/// Size in bytes of one component (a 32-bit float).
pub const BYTES_PER_COMPONENT: usize = 4;

/// Number of vertices the triangle uploads and draws.
pub const TRIANGLE_VERTEX_COUNT: usize = 3;

/// Bit pattern of `0.0f32`.
pub const F32_ZERO_BITS: u32 = 0x0000_0000;

/// Bit pattern of `0.5f32`.
pub const F32_HALF_BITS: u32 = 0x3F00_0000;

/// Bit pattern of `-0.5f32`.
pub const F32_NEG_HALF_BITS: u32 = 0xBF00_0000;

/// Bit pattern of `1.0f32`.
pub const F32_ONE_BITS: u32 = 0x3F80_0000;

/// One vertex record: a position (x, y, z) followed by a color (r, g, b),
/// each component the bit pattern of a 32-bit float.
#[derive(Clone, Copy, Debug, PartialEq, Eq, Structural)]
pub struct VertexRecord {
    /// Bit pattern of the position's x component.
    pub pos_x_bits: u32,
    /// Bit pattern of the position's y component.
    pub pos_y_bits: u32,
    /// Bit pattern of the position's z component.
    pub pos_z_bits: u32,
    /// Bit pattern of the color's red component.
    pub red_bits: u32,
    /// Bit pattern of the color's green component.
    pub green_bits: u32,
    /// Bit pattern of the color's blue component.
    pub blue_bits: u32,
}

/// The six components of one record in upload order: position first,
/// then color.
pub open spec fn record_words(r: VertexRecord) -> Seq<u32> {
    seq![r.pos_x_bits, r.pos_y_bits, r.pos_z_bits, r.red_bits, r.green_bits, r.blue_bits]
}

/// The interleaved buffer contents for a list of records: each record
/// contributes its six components, records in order.
pub open spec fn interleaved(records: Seq<VertexRecord>) -> Seq<u32>
    decreases records.len(),
{
    if records.len() == 0 {
        Seq::empty()
    } else {
        interleaved(records.drop_last()) + record_words(records.last())
    }
}

/// An interleaved buffer holds exactly six words per record.
pub proof fn lemma_interleaved_len(records: Seq<VertexRecord>)
    ensures
        interleaved(records).len() == COMPONENTS_PER_VERTEX * records.len(),
    decreases records.len(),
{
    if records.len() > 0 {
        lemma_interleaved_len(records.drop_last());
    }
}

/// Record `i`'s six components sit contiguously at word offset `6 * i`,
/// in position-then-color order: the interleaving keeps record order.
pub proof fn lemma_interleaved_index(records: Seq<VertexRecord>, i: int)
    requires
        0 <= i < records.len(),
    ensures
        interleaved(records).subrange(
            COMPONENTS_PER_VERTEX * i,
            COMPONENTS_PER_VERTEX * i + COMPONENTS_PER_VERTEX,
        ) == record_words(records[i]),
    decreases records.len(),
{
    lemma_interleaved_len(records.drop_last());
    if i == records.len() - 1 {
        assert(interleaved(records).subrange(
            COMPONENTS_PER_VERTEX * i,
            COMPONENTS_PER_VERTEX * i + COMPONENTS_PER_VERTEX,
        ) =~= record_words(records[i]));
    } else {
        lemma_interleaved_index(records.drop_last(), i);
        assert(interleaved(records).subrange(
            COMPONENTS_PER_VERTEX * i,
            COMPONENTS_PER_VERTEX * i + COMPONENTS_PER_VERTEX,
        ) =~= interleaved(records.drop_last()).subrange(
            COMPONENTS_PER_VERTEX * i,
            COMPONENTS_PER_VERTEX * i + COMPONENTS_PER_VERTEX,
        ));
    }
}

/// The three vertices of the triangle: bottom right (red), bottom left
/// (green), top (blue).
pub open spec fn spec_triangle_vertices() -> Seq<VertexRecord> {
    seq![
        VertexRecord {
            pos_x_bits: F32_HALF_BITS,
            pos_y_bits: F32_NEG_HALF_BITS,
            pos_z_bits: F32_ZERO_BITS,
            red_bits: F32_ONE_BITS,
            green_bits: F32_ZERO_BITS,
            blue_bits: F32_ZERO_BITS,
        },
        VertexRecord {
            pos_x_bits: F32_NEG_HALF_BITS,
            pos_y_bits: F32_NEG_HALF_BITS,
            pos_z_bits: F32_ZERO_BITS,
            red_bits: F32_ZERO_BITS,
            green_bits: F32_ONE_BITS,
            blue_bits: F32_ZERO_BITS,
        },
        VertexRecord {
            pos_x_bits: F32_ZERO_BITS,
            pos_y_bits: F32_HALF_BITS,
            pos_z_bits: F32_ZERO_BITS,
            red_bits: F32_ZERO_BITS,
            green_bits: F32_ZERO_BITS,
            blue_bits: F32_ONE_BITS,
        },
    ]
}

/// Builds the triangle's vertex list.
pub fn triangle_vertices() -> (records: Vec<VertexRecord>)
    ensures
        records@ == spec_triangle_vertices(),
        records@.len() == TRIANGLE_VERTEX_COUNT,
{
    let mut records: Vec<VertexRecord> = Vec::new();
    records.push(VertexRecord {
        pos_x_bits: F32_HALF_BITS,
        pos_y_bits: F32_NEG_HALF_BITS,
        pos_z_bits: F32_ZERO_BITS,
        red_bits: F32_ONE_BITS,
        green_bits: F32_ZERO_BITS,
        blue_bits: F32_ZERO_BITS,
    });
    records.push(VertexRecord {
        pos_x_bits: F32_NEG_HALF_BITS,
        pos_y_bits: F32_NEG_HALF_BITS,
        pos_z_bits: F32_ZERO_BITS,
        red_bits: F32_ZERO_BITS,
        green_bits: F32_ONE_BITS,
        blue_bits: F32_ZERO_BITS,
    });
    records.push(VertexRecord {
        pos_x_bits: F32_ZERO_BITS,
        pos_y_bits: F32_HALF_BITS,
        pos_z_bits: F32_ZERO_BITS,
        red_bits: F32_ZERO_BITS,
        green_bits: F32_ZERO_BITS,
        blue_bits: F32_ONE_BITS,
    });
    proof {
        assert(records@ =~= spec_triangle_vertices());
    }
    records
}

/// Flattens a vertex list into the interleaved word buffer that is
/// uploaded to the GPU, records in order, position before color.
pub fn interleave(records: &Vec<VertexRecord>) -> (words: Vec<u32>)
    ensures
        words@ == interleaved(records@),
        words@.len() == COMPONENTS_PER_VERTEX * records@.len(),
{
    let mut words: Vec<u32> = Vec::new();
    let mut i: usize = 0;
    while i < records.len()
        invariant
            0 <= i <= records@.len(),
            words@ == interleaved(records@.take(i as int)),
            words@.len() == COMPONENTS_PER_VERTEX * i,
        decreases records@.len() - i,
    {
        let r = records[i];
        words.push(r.pos_x_bits);
        words.push(r.pos_y_bits);
        words.push(r.pos_z_bits);
        words.push(r.red_bits);
        words.push(r.green_bits);
        words.push(r.blue_bits);
        proof {
            let taken = records@.take(i as int + 1);
            assert(taken.drop_last() =~= records@.take(i as int));
            assert(words@ =~= interleaved(taken.drop_last()) + record_words(taken.last()));
        }
        i = i + 1;
    }
    proof {
        assert(records@.take(records@.len() as int) =~= records@);
    }
    words
}

/// Builds the exact word buffer the program uploads: the triangle's
/// three records interleaved.
pub fn triangle_buffer() -> (words: Vec<u32>)
    ensures
        words@ == interleaved(spec_triangle_vertices()),
        words@.len() == COMPONENTS_PER_VERTEX * TRIANGLE_VERTEX_COUNT,
{
    let records = triangle_vertices();
    interleave(&records)
}

/// Byte size of a word buffer as handed to the GPU upload call.
pub fn buffer_byte_len(words: &Vec<u32>) -> (n: usize)
    requires
        words@.len() * BYTES_PER_COMPONENT <= usize::MAX,
    ensures
        n == words@.len() * BYTES_PER_COMPONENT,
{
    words.len() * BYTES_PER_COMPONENT
}

/// The uploaded buffer holds exactly three records of six 32-bit
/// components each — 18 words, 72 bytes — and record `i`'s components
/// stand at word offset `6 * i` in position-then-color order.
pub proof fn lemma_triangle_buffer_layout()
    ensures
        interleaved(spec_triangle_vertices()).len() == 18,
        interleaved(spec_triangle_vertices()).len() * BYTES_PER_COMPONENT == 72,
        forall|i: int|
            0 <= i < TRIANGLE_VERTEX_COUNT ==> interleaved(spec_triangle_vertices()).subrange(
                COMPONENTS_PER_VERTEX * i,
                COMPONENTS_PER_VERTEX * i + COMPONENTS_PER_VERTEX,
            ) == record_words(spec_triangle_vertices()[i]),
{
    lemma_interleaved_len(spec_triangle_vertices());
    assert forall|i: int| 0 <= i < TRIANGLE_VERTEX_COUNT implies interleaved(
        spec_triangle_vertices(),
    ).subrange(
        COMPONENTS_PER_VERTEX * i,
        COMPONENTS_PER_VERTEX * i + COMPONENTS_PER_VERTEX,
    ) == record_words(spec_triangle_vertices()[i]) by {
        lemma_interleaved_index(spec_triangle_vertices(), i);
    }
}

} // verus!
