//! What the library takes from the graphics and the byte-casting crate: two of
//! the graphics API's types, carried through untouched, and one function of each.

use vstd::prelude::*;

verus! {

/// `wgpu::TextureFormat`, the pixel format of a surface or texture. The library
/// never looks inside one: it carries the format that a surface reports into the
/// configurations and descriptions it hands out.
#[verifier::external_type_specification]
#[verifier::external_body]
pub struct ExTextureFormat(wgpu::TextureFormat);

/// `wgpu::CompositeAlphaMode`, how a surface is blended with what lies behind the
/// window. Carried through like the pixel format.
#[verifier::external_type_specification]
#[verifier::external_body]
pub struct ExCompositeAlphaMode(wgpu::CompositeAlphaMode);

/// Calls `wgpu::Limits::default()` and returns its `max_texture_dimension_3d`.
/// Trusted: that function sets the field to 2048.
#[verifier::external_body]
pub(crate) fn default_max_texture_dimension_3d() -> (limit: u32)
    ensures
        limit == 2048,
{
    wgpu::Limits::default().max_texture_dimension_3d
}

/// Whether the two bytes `first`, `second`, as they lie in memory, hold `value` in
/// one of the two byte orders a machine can have.
pub open spec fn holds_u16(first: u8, second: u8, value: u16) -> bool {
    ||| value == first + 256 * second
    ||| value == 256 * first + second
}

/// Calls `bytemuck::cast_slice` to view 16-bit values as the bytes they occupy in
/// memory, and copies the bytes. Trusted: every value takes two bytes, the values
/// keep their order, and each pair of bytes holds its value in one of the two
/// byte orders, whichever the machine has. The cast to bytes cannot fail, since
/// bytes need no alignment.
#[verifier::external_body]
pub(crate) fn cast_to_bytes(values: &Vec<u16>) -> (bytes: Vec<u8>)
    ensures
        bytes@.len() == 2 * values@.len(),
        forall|i: int|
            0 <= i < values@.len() ==> holds_u16(
                bytes@[2 * i],
                bytes@[2 * i + 1],
                #[trigger] values@[i],
            ),
{
    bytemuck::cast_slice::<u16, u8>(values.as_slice()).to_vec()
}

} // verus!
