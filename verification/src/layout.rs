//! The binary layout of the GPU-visible records.
//!
//! Device uniform buffers demand 16-byte field alignment, so the layouts
//! are a contract of explicit offsets and sizes, not incidental struct
//! packing: the camera uniform is the homogeneous view position (4 words)
//! followed by the view-projection matrix (16 words); the light uniform is
//! the position (3 words) and the color (3 words), each padded to a 16-byte
//! boundary with one zero word; an instance record is the 4x4 model matrix
//! (16 words) followed by the 3x3 normal matrix (9 words). Every word is a
//! 32-bit scalar's bit pattern, serialized little-endian. The shell owns the
//! floating-point values and hands their bit patterns in; the exact byte
//! image the device sees is decided and proved here.

use vstd::prelude::*;

verus! {

/// Size of the camera uniform: 4 words of view position, 16 of matrix.
pub const CAMERA_UNIFORM_BYTES: u32 = 80;

/// Size of the light uniform: two 12-byte vectors, each padded to 16 bytes.
pub const LIGHT_UNIFORM_BYTES: u32 = 32;

/// Stride of one instance record: a 4x4 matrix and a 3x3 matrix.
pub const INSTANCE_STRIDE_BYTES: u32 = 100;

/// Byte `j` (0 = lowest) of a word serialized little-endian.
pub open spec fn le_byte(w: u32, j: u32) -> u8 {
    ((w >> (8 * j)) & 0xff) as u8
}

/// A word sequence serialized little-endian, four bytes per word.
pub open spec fn le_bytes_of_words(words: Seq<u32>) -> Seq<u8> {
    Seq::new(words.len() * 4, |i: int| le_byte(words[i / 4], (i % 4) as u32))
}

/// Appends one word, little-endian.
fn push_word_le(out: &mut Vec<u8>, w: u32)
    ensures
        final(out)@ == old(out)@ + le_bytes_of_words(seq![w]),
{
    proof {
        assert(w & 0xff < 256 && (w >> 8) & 0xff < 256 && (w >> 16) & 0xff < 256 && (w >> 24) & 0xff
            < 256) by (bit_vector);
        assert(w >> 0 == w) by (bit_vector);
    }
    out.push((w & 0xff) as u8);
    out.push(((w >> 8) & 0xff) as u8);
    out.push(((w >> 16) & 0xff) as u8);
    out.push(((w >> 24) & 0xff) as u8);
    proof {
        assert(out@ =~= old(out)@ + le_bytes_of_words(seq![w]));
    }
}

/// Appends every word of `words`, little-endian.
fn push_words_le(out: &mut Vec<u8>, words: &Vec<u32>)
    ensures
        final(out)@ == old(out)@ + le_bytes_of_words(words@),
{
    let mut i: usize = 0;
    while i < words.len()
        invariant
            i <= words@.len(),
            out@ == old(out)@ + le_bytes_of_words(words@.take(i as int)),
        decreases words@.len() - i,
    {
        push_word_le(out, words[i]);
        proof {
            assert(out@ =~= old(out)@ + le_bytes_of_words(words@.take(i + 1)));
        }
        i = i + 1;
    }
    proof {
        assert(words@.take(words@.len() as int) =~= words@);
    }
}

/// Serializes the camera uniform: the homogeneous view position's 4 words at
/// offset 0, the view-projection matrix's 16 words (column-major, as the
/// math library lays them out) at offset 16, all little-endian.
pub fn camera_uniform_bytes(view_position: &Vec<u32>, view_proj: &Vec<u32>) -> (r: Vec<u8>)
    requires
        view_position@.len() == 4,
        view_proj@.len() == 16,
    ensures
        r@ == le_bytes_of_words(view_position@ + view_proj@),
        r@.len() == CAMERA_UNIFORM_BYTES,
{
    let mut r: Vec<u8> = Vec::new();
    push_words_le(&mut r, view_position);
    push_words_le(&mut r, view_proj);
    proof {
        assert(le_bytes_of_words(view_position@) + le_bytes_of_words(view_proj@) =~= le_bytes_of_words(
            view_position@ + view_proj@,
        ));
    }
    r
}

/// Serializes the light uniform: the position's 3 words at offset 0, a zero
/// padding word at offset 12, the color's 3 words at offset 16, and a zero
/// padding word at offset 28 — the padding exists solely to satisfy the
/// device's 16-byte uniform alignment.
pub fn light_uniform_bytes(position: &Vec<u32>, color: &Vec<u32>) -> (r: Vec<u8>)
    requires
        position@.len() == 3,
        color@.len() == 3,
    ensures
        r@ == le_bytes_of_words(position@ + seq![0u32] + color@ + seq![0u32]),
        r@.len() == LIGHT_UNIFORM_BYTES,
{
    let mut r: Vec<u8> = Vec::new();
    push_words_le(&mut r, position);
    push_word_le(&mut r, 0);
    push_words_le(&mut r, color);
    push_word_le(&mut r, 0);
    proof {
        assert(le_bytes_of_words(position@) + le_bytes_of_words(seq![0u32]) + le_bytes_of_words(color@)
            + le_bytes_of_words(seq![0u32]) =~= le_bytes_of_words(
            position@ + seq![0u32] + color@ + seq![0u32],
        ));
    }
    r
}

/// Serializes one instance record: the model matrix's 16 words at offset 0,
/// the normal matrix's 9 words at offset 64, little-endian.
pub fn instance_raw_bytes(model: &Vec<u32>, normal: &Vec<u32>) -> (r: Vec<u8>)
    requires
        model@.len() == 16,
        normal@.len() == 9,
    ensures
        r@ == le_bytes_of_words(model@ + normal@),
        r@.len() == INSTANCE_STRIDE_BYTES,
{
    let mut r: Vec<u8> = Vec::new();
    push_words_le(&mut r, model);
    push_words_le(&mut r, normal);
    proof {
        assert(le_bytes_of_words(model@) + le_bytes_of_words(normal@) =~= le_bytes_of_words(model@ + normal@));
    }
    r
}

/// One tick's uniform synchronization: both device-visible mirrors are
/// rebuilt in full from the tick's camera and light state, yielding exactly
/// two fixed-size buffer regions — the whole images, never partial updates,
/// so an in-flight submission's data is never half-overwritten.
pub fn sync_uniforms(
    view_position: &Vec<u32>,
    view_proj: &Vec<u32>,
    light_position: &Vec<u32>,
    light_color: &Vec<u32>,
) -> (writes: (Vec<u8>, Vec<u8>))
    requires
        view_position@.len() == 4,
        view_proj@.len() == 16,
        light_position@.len() == 3,
        light_color@.len() == 3,
    ensures
        writes.0@ == le_bytes_of_words(view_position@ + view_proj@),
        writes.0@.len() == CAMERA_UNIFORM_BYTES,
        writes.1@ == le_bytes_of_words(light_position@ + seq![0u32] + light_color@ + seq![0u32]),
        writes.1@.len() == LIGHT_UNIFORM_BYTES,
{
    (camera_uniform_bytes(view_position, view_proj), light_uniform_bytes(light_position, light_color))
}

/// The scalar shape of one vertex attribute.
#[derive(Clone, Copy, PartialEq, Eq, Structural, Debug)]
pub enum AttributeFormat {
    Float32x4,
    Float32x3,
}

/// One per-instance vertex attribute: where the shader reads it and where
/// it sits inside the instance record.
#[derive(Clone, Copy, PartialEq, Eq, Structural, Debug)]
pub struct VertexAttributeSpec {
    pub shader_location: u32,
    pub offset: u32,
    pub format: AttributeFormat,
}

/// The per-instance attribute table, advancing once per drawn instance: the
/// model matrix as four vec4 columns at shader locations 5 through 8
/// (locations 0 through 4 are reserved for the mesh's own per-vertex
/// attributes), then the normal matrix as three vec3 columns at locations 9
/// through 11; offsets follow the packed layout of
/// [`instance_raw_bytes`].
pub open spec fn instance_attribute_table() -> Seq<VertexAttributeSpec> {
    seq![
        VertexAttributeSpec { shader_location: 5, offset: 0, format: AttributeFormat::Float32x4 },
        VertexAttributeSpec { shader_location: 6, offset: 16, format: AttributeFormat::Float32x4 },
        VertexAttributeSpec { shader_location: 7, offset: 32, format: AttributeFormat::Float32x4 },
        VertexAttributeSpec { shader_location: 8, offset: 48, format: AttributeFormat::Float32x4 },
        VertexAttributeSpec { shader_location: 9, offset: 64, format: AttributeFormat::Float32x3 },
        VertexAttributeSpec { shader_location: 10, offset: 76, format: AttributeFormat::Float32x3 },
        VertexAttributeSpec { shader_location: 11, offset: 88, format: AttributeFormat::Float32x3 },
    ]
}

/// Builds the per-instance vertex attribute table of
/// [`instance_attribute_table`], for the shell to hand to the pipeline
/// description together with the [`INSTANCE_STRIDE_BYTES`] stride.
pub fn instance_attributes() -> (attrs: Vec<VertexAttributeSpec>)
    ensures
        attrs@ == instance_attribute_table(),
{
    let attrs = vec![
        VertexAttributeSpec { shader_location: 5, offset: 0, format: AttributeFormat::Float32x4 },
        VertexAttributeSpec { shader_location: 6, offset: 16, format: AttributeFormat::Float32x4 },
        VertexAttributeSpec { shader_location: 7, offset: 32, format: AttributeFormat::Float32x4 },
        VertexAttributeSpec { shader_location: 8, offset: 48, format: AttributeFormat::Float32x4 },
        VertexAttributeSpec { shader_location: 9, offset: 64, format: AttributeFormat::Float32x3 },
        VertexAttributeSpec { shader_location: 10, offset: 76, format: AttributeFormat::Float32x3 },
        VertexAttributeSpec { shader_location: 11, offset: 88, format: AttributeFormat::Float32x3 },
    ];
    proof {
        assert(attrs@ =~= instance_attribute_table());
    }
    attrs
}

} // verus!
