//! What the simulation loop makes of an uploaded payload once it has left
//! its mailbox: a texture from image bytes, and one new scene object for
//! each mesh of a model.

use vstd::prelude::*;

verus! {

/// `image::ImageError` of image, carried through without a look inside.
#[verifier::external_type_specification]
#[verifier::external_body]
pub struct ExImageError(image::ImageError);

/// `image::DynamicImage` of image, carried through without a look inside.
#[verifier::external_type_specification]
#[verifier::external_body]
pub struct ExDynamicImage(image::DynamicImage);

/// Why a payload could not be used.
#[derive(Clone, Copy, Debug, PartialEq, Eq, Structural)]
pub enum DecodeError {
    /// The bytes are not an image that can be decoded.
    Undecodable,
    /// The decoded pixels do not fill the decoded dimensions exactly.
    SizeMismatch,
}

/// A decoded image: four bytes (red, green, blue, alpha) for each pixel, row
/// by row, in one layer, one mip level and one sample for each pixel.
#[derive(Clone, Debug, PartialEq, Eq)]
pub struct Texture {
    pub width: u32,
    pub height: u32,
    pub layers: u32,
    pub mip_levels: u32,
    pub samples: u32,
    pub data: Vec<u8>,
}

/// The number of bytes that the pixels of a `width` by `height` image take.
pub open spec fn rgba_len(width: u32, height: u32) -> int {
    4 * (width as int) * (height as int)
}

impl Texture {
    /// The pixel data fills the dimensions exactly, and the texture is a
    /// plain two-dimensional one.
    pub open spec fn wf(&self) -> bool {
        &&& self.data@.len() == rgba_len(self.width, self.height)
        &&& self.layers == 1
        &&& self.mip_levels == 1
        &&& self.samples == 1
    }
}

/// `image::load_from_memory` of image: decodes an image from bytes, guessing
/// its format. Which formats are recognised depends on the decoders that
/// are built in and on those that are registered in the process, so nothing
/// is claimed of the result.
#[verifier::external_body]
fn decode_image(buffer: &[u8]) -> (decoded: Result<image::DynamicImage, image::ImageError>)
{
    image::load_from_memory(buffer)
}

/// `DynamicImage::to_rgba8` of image, handed out through
/// `ImageBuffer::dimensions` and `ImageBuffer::into_raw` as width, height
/// and pixel bytes. Nothing is claimed of the result.
#[verifier::external_body]
fn rgba_of(decoded: &image::DynamicImage) -> (pixels: (u32, u32, Vec<u8>))
{
    let rgba = decoded.to_rgba8();
    let (width, height) = rgba.dimensions();
    (width, height, rgba.into_raw())
}

/// Makes a texture of decoded pixels. The pixels must fill the dimensions
/// exactly; anything else is refused.
pub fn texture_from_rgba(width: u32, height: u32, data: Vec<u8>) -> (texture: Result<
    Texture,
    DecodeError,
>)
    ensures
        texture is Ok <==> data@.len() == rgba_len(width, height),
        texture matches Ok(t) ==> t.wf() && t.width == width && t.height == height && t.data@
            == data@,
        texture matches Err(error) ==> error == DecodeError::SizeMismatch,
{
    assert(0 <= (width as int) * (height as int) <= 0xffff_ffff * 0xffff_ffff) by (nonlinear_arith)
        requires
            0 <= width <= 0xffff_ffff,
            0 <= height <= 0xffff_ffff,
    ;
    let pixels: u128 = (width as u128) * (height as u128);
    let expected: u128 = 4 * pixels;
    assert(expected == rgba_len(width, height)) by (nonlinear_arith)
        requires
            expected == 4 * pixels,
            pixels == (width as int) * (height as int),
    ;
    if data.len() as u128 == expected {
        Ok(Texture { width, height, layers: 1, mip_levels: 1, samples: 1, data })
    } else {
        Err(DecodeError::SizeMismatch)
    }
}

/// What becomes of an image once the decoder has spoken: a failure to
/// decode is reported as such, and decoded pixels become a texture if they
/// fill their dimensions.
pub fn texture_of(decoded: Result<(u32, u32, Vec<u8>), image::ImageError>) -> (texture: Result<
    Texture,
    DecodeError,
>)
    ensures
        texture is Ok <==> (decoded matches Ok(pixels) && pixels.2@.len() == rgba_len(
            pixels.0,
            pixels.1,
        )),
        texture matches Ok(t) ==> t.wf() && (decoded matches Ok(pixels) && t.width == pixels.0
            && t.height == pixels.1 && t.data@ == pixels.2@),
        texture matches Err(error) ==> error == (if decoded is Err {
            DecodeError::Undecodable
        } else {
            DecodeError::SizeMismatch
        }),
{
    match decoded {
        Ok((width, height, data)) => texture_from_rgba(width, height, data),
        Err(_) => Err(DecodeError::Undecodable),
    }
}

/// Decodes an uploaded image into a texture. Whatever the decoder makes of
/// the bytes, a texture that comes back is well formed, and bytes that
/// cannot be used are reported, never retried.
pub fn loadImage(buffer: &[u8]) -> (texture: Result<Texture, DecodeError>)
    ensures
        texture matches Ok(t) ==> t.wf(),
{
    match decode_image(buffer) {
        Ok(decoded) => texture_of(Ok(rgba_of(&decoded))),
        Err(error) => texture_of(Err(error)),
    }
}

/// One scene object to spawn for a decoded mesh.
#[derive(Clone, Copy, Debug, PartialEq, Eq, Structural)]
pub struct SpawnRequest {
    /// Which mesh of the decoded model the object shows.
    pub mesh: usize,
    /// The object uses the material that all uploaded objects share.
    pub shared_material: bool,
    /// The object can be outlined.
    pub outline_enabled: bool,
    /// The width of the outline, in pixels.
    pub outline_width: u32,
    /// The outline is drawn: the object is selected.
    pub highlighted: bool,
    /// The object can be picked with the pointer.
    pub pickable: bool,
    /// The object gets a gizmo binding, with no gesture in it yet.
    pub gizmo_bound: bool,
}

/// The object that a freshly decoded mesh gets: shared material, an outline
/// that is not drawn yet, pickable, bound to the gizmo.
pub open spec fn spawn_for(mesh: int) -> SpawnRequest {
    SpawnRequest {
        mesh: mesh as usize,
        shared_material: true,
        outline_enabled: true,
        outline_width: 3,
        highlighted: false,
        pickable: true,
        gizmo_bound: true,
    }
}

/// The batch of objects to spawn for a model that decoded into `mesh_count`
/// meshes: one for each mesh, in order.
pub fn plan_spawns(mesh_count: usize) -> (batch: Vec<SpawnRequest>)
    ensures
        batch@ == Seq::new(mesh_count as nat, |i: int| spawn_for(i)),
{
    let mut batch: Vec<SpawnRequest> = Vec::new();
    let mut i: usize = 0;
    while i < mesh_count
        invariant
            i <= mesh_count,
            batch@ == Seq::new(i as nat, |k: int| spawn_for(k)),
        decreases mesh_count - i,
    {
        batch.push(
            SpawnRequest {
                mesh: i,
                shared_material: true,
                outline_enabled: true,
                outline_width: 3,
                highlighted: false,
                pickable: true,
                gizmo_bound: true,
            },
        );
        i += 1;
        assert(batch@ =~= Seq::new(i as nat, |k: int| spawn_for(k)));
    }
    batch
}

} // verus!
