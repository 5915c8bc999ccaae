//! Decoding the bytes of an image into a texture image of the renderer.
//!
//! The renderer is `bevy`. Decoding is its work and is taken on trust; the
//! format is chosen and the sampler is set as the texture request says.

use vstd::prelude::*;
use bevy::asset::RenderAssetUsages;
use bevy::image::{
    CompressedImageFormats, Image, ImageAddressMode, ImageSampler, ImageSamplerDescriptor,
    ImageType, TextureError,
};
use crate::error::FbxLoadingError;
use crate::loader::Loader;
use crate::texture::{AddressMode, TextureRequest};

verus! {

/// A texture image of the renderer.
#[verifier::external_type_specification]
#[verifier::external_body]
pub struct ExImage(Image);

/// The compressed formats that the render device can take.
#[verifier::external_type_specification]
#[verifier::external_body]
pub struct ExCompressedImageFormats(CompressedImageFormats);

/// The renderer's error for an image that it cannot decode.
#[verifier::external_type_specification]
#[verifier::external_body]
pub struct ExTextureError(TextureError);

/// Whether the renderer's decoder makes an image of `bytes`, taken as a file
/// of the format that the file extension `extension` declares. Decoding
/// reads nothing but the bytes and the extension.
pub uninterp spec fn image_decodes(bytes: Seq<u8>, extension: Seq<char>) -> bool;

/// `Image::from_buffer` of `bevy`: decodes `bytes` as an image of the format
/// that the file extension `extension` declares, not in sRGB, with a
/// default sampler, to be kept in the main world and in the render world.
/// The contract claims that whether an image comes out is settled by the
/// bytes and the extension: the set of compressed formats is read only by
/// the codecs of compressed containers, none of which is built in.
#[verifier::external_body]
fn image_from_buffer(
    bytes: &[u8],
    extension: &str,
    formats: CompressedImageFormats,
) -> (decoded: Result<Image, TextureError>)
    ensures
        decoded is Ok <==> image_decodes(bytes@, extension@),
{
    Image::from_buffer(
        bytes,
        ImageType::Extension(extension),
        formats,
        false,
        ImageSampler::Descriptor(ImageSamplerDescriptor { ..Default::default() }),
        RenderAssetUsages::all(),
    )
}

/// The renderer's addressing mode of a sampler.
#[verifier::external_type_specification]
#[verifier::external_body]
pub struct ExImageAddressMode(ImageAddressMode);

/// The addressing mode that one of the renderer's stands for.
pub uninterp spec fn mode_of(mode: ImageAddressMode) -> AddressMode;

/// The addressing modes along U and V of the sampler of an image.
pub uninterp spec fn sampler_of(image: Image) -> (AddressMode, AddressMode);

/// Writes an addressing mode as the renderer's `ImageAddressMode` of the
/// same name; the contract claims that the result stands for the mode.
#[verifier::external_body]
fn sampler_mode(mode: AddressMode) -> (converted: ImageAddressMode)
    ensures
        mode_of(converted) == mode,
{
    match mode {
        AddressMode::Repeat => ImageAddressMode::Repeat,
        AddressMode::ClampToEdge => ImageAddressMode::ClampToEdge,
    }
}

/// Sets the sampler of `image` to a descriptor that has the given
/// addressing modes along U and V and is the default otherwise. The
/// contract claims that the image then has these modes; of the rest of the
/// image, which is left as it was, it claims nothing.
#[verifier::external_body]
fn with_address_modes(image: Image, u: ImageAddressMode, v: ImageAddressMode) -> (sampled: Image)
    ensures
        sampler_of(sampled) == (mode_of(u), mode_of(v)),
{
    let mut image = image;
    image.sampler = ImageSampler::Descriptor(
        ImageSamplerDescriptor { address_mode_u: u, address_mode_v: v, ..Default::default() },
    );
    image
}

/// Turns the outcome of decoding into the texture that `request` asks for:
/// a decoded image gets the addressing modes of the request, and an image
/// that could not be decoded ends the load of the texture.
pub fn texture_from(
    request: &TextureRequest,
    decoded: Result<Image, TextureError>,
) -> (result: Result<Image, FbxLoadingError>)
    ensures
        result is Ok <==> decoded is Ok,
        result matches Ok(image) ==> sampler_of(image) == (
            request.address_mode_u,
            request.address_mode_v,
        ),
        result matches Err(e) ==> e == FbxLoadingError::ImageDecodeFailure,
{
    match decoded {
        Ok(image) => Ok(
            with_address_modes(
                image,
                sampler_mode(request.address_mode_u),
                sampler_mode(request.address_mode_v),
            ),
        ),
        Err(_) => Err(FbxLoadingError::ImageDecodeFailure),
    }
}

impl Loader {
    /// Decodes the bytes of the image of a texture, in the format that the
    /// request's extension declares, and sets the sampler as the request
    /// says: along each axis the addressing mode that the request has for
    /// that axis. Bytes that the decoder makes no image of end the load of
    /// the texture.
    pub fn decode_texture(&self, request: &TextureRequest, bytes: &[u8]) -> (result: Result<
        Image,
        FbxLoadingError,
    >)
        ensures
            result is Ok <==> image_decodes(bytes@, request.image.extension@),
            result matches Ok(image) ==> sampler_of(image) == (
                request.address_mode_u,
                request.address_mode_v,
            ),
            result matches Err(e) ==> e == FbxLoadingError::ImageDecodeFailure,
    {
        let decoded = image_from_buffer(
            bytes,
            request.image.extension.as_str(),
            self.supported_compressed_formats,
        );
        texture_from(request, decoded)
    }
}

} // verus!
