//! The error type shared by every stage of a scene load.

use vstd::prelude::*;
use vstd::string::*;
use crate::text::{decimal_digits, push_text, push_unsigned};

verus! {

/// Why a scene, or one object of it, could not be loaded.
///
/// Every stage fails fast: no stage substitutes a default for what it could
/// not build, so one of these ends the whole load.
#[derive(Debug, Clone, PartialEq, Eq)]
pub enum FbxLoadingError {
    /// The document is of a version that is not supported.
    UnsupportedDocumentVersion,
    /// Polygon data, a layer, or a per-vertex attribute is absent.
    MissingGeometryData,
    /// The reconstructed attribute arrays differ in length.
    AttributeLengthMismatch { positions: usize, uvs: usize, normals: usize },
    /// A triangle is assigned to a material slot that the mesh does not have.
    MaterialSlotOutOfRange { num_materials: usize, got: u32 },
    /// Tangent vectors could not be generated for the vertex buffer.
    TangentGenerationFailure,
    /// Every configured material loader declined the material.
    NoMaterialLoaderSucceeded,
    /// A texture has no backing image data.
    TextureDataUnavailable,
    /// The image bytes of a texture could not be decoded.
    ImageDecodeFailure,
    /// Reading an asset failed; the text is that of the cause.
    AssetReadFailure(String),
    /// A failure with no further description.
    UnknownError,
    /// A failure described only by the text of its cause.
    Other(String),
}

/// The error of an input or output operation of the standard library.
#[verifier::external_type_specification]
#[verifier::external_body]
pub struct ExIoError(std::io::Error);

/// The text of an input or output error, as its `Display` writes it. The
/// text depends on the platform, so nothing is claimed of it.
#[verifier::external_body]
fn io_error_text(error: &std::io::Error) -> (text: String) {
    error.to_string()
}

impl FbxLoadingError {
    /// The failure to read an asset, with the text of the error that the
    /// read ended with.
    pub fn read_failure(error: &std::io::Error) -> (failure: Self)
        ensures
            failure is AssetReadFailure,
    {
        FbxLoadingError::AssetReadFailure(io_error_text(error))
    }

    /// The text shown to a user for this error.
    pub open spec fn message_text(self) -> Seq<char> {
        match self {
            FbxLoadingError::UnsupportedDocumentVersion => "Incorrect file version"@,
            FbxLoadingError::MissingGeometryData => "Failed to get geometry data"@,
            FbxLoadingError::AttributeLengthMismatch { positions, uvs, normals } => {
                "mismatched length of buffers: pos"@ + decimal_digits(positions as nat) + " uv"@
                    + decimal_digits(uvs as nat) + " normals"@ + decimal_digits(normals as nat)
            },
            FbxLoadingError::MaterialSlotOutOfRange { num_materials, got } => {
                "FbxMesh-local material index out of range: num_materials="@ + decimal_digits(
                    num_materials as nat,
                ) + ", got="@ + decimal_digits(got as nat)
            },
            FbxLoadingError::TangentGenerationFailure => "Failed to generate tangents"@,
            FbxLoadingError::NoMaterialLoaderSucceeded => {
                "None of the material loaders could load this material"@
            },
            FbxLoadingError::TextureDataUnavailable => "No image data for texture object"@,
            FbxLoadingError::ImageDecodeFailure => "Failed to read image buffer data"@,
            FbxLoadingError::AssetReadFailure(s) => s@,
            FbxLoadingError::UnknownError => "Unknown error"@,
            FbxLoadingError::Other(s) => s@,
        }
    }

    /// Renders the error as text.
    pub fn message(&self) -> (text: String)
        ensures
            text@ == self.message_text(),
    {
        match self {
            FbxLoadingError::UnsupportedDocumentVersion => {
                String::from_str("Incorrect file version")
            },
            FbxLoadingError::MissingGeometryData => String::from_str("Failed to get geometry data"),
            FbxLoadingError::AttributeLengthMismatch { positions, uvs, normals } => {
                let mut text = String::from_str("mismatched length of buffers: pos");
                push_unsigned(&mut text, *positions as u64);
                push_text(&mut text, " uv");
                push_unsigned(&mut text, *uvs as u64);
                push_text(&mut text, " normals");
                push_unsigned(&mut text, *normals as u64);
                text
            },
            FbxLoadingError::MaterialSlotOutOfRange { num_materials, got } => {
                let mut text = String::from_str(
                    "FbxMesh-local material index out of range: num_materials=",
                );
                push_unsigned(&mut text, *num_materials as u64);
                push_text(&mut text, ", got=");
                push_unsigned(&mut text, *got as u64);
                text
            },
            FbxLoadingError::TangentGenerationFailure => {
                String::from_str("Failed to generate tangents")
            },
            FbxLoadingError::NoMaterialLoaderSucceeded => {
                String::from_str("None of the material loaders could load this material")
            },
            FbxLoadingError::TextureDataUnavailable => {
                String::from_str("No image data for texture object")
            },
            FbxLoadingError::ImageDecodeFailure => {
                String::from_str("Failed to read image buffer data")
            },
            FbxLoadingError::AssetReadFailure(s) => s.clone(),
            FbxLoadingError::UnknownError => String::from_str("Unknown error"),
            FbxLoadingError::Other(s) => s.clone(),
        }
    }
}

} // verus!
