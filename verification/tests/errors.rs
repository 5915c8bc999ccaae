use bevy_mod_fbx::error::FbxLoadingError;

#[test]
fn messages_of_the_plain_kinds() {
    assert_eq!(FbxLoadingError::UnsupportedDocumentVersion.message(), "Incorrect file version");
    assert_eq!(FbxLoadingError::UnknownError.message(), "Unknown error");
    assert_eq!(FbxLoadingError::Other("boom".to_string()).message(), "boom");
    assert_eq!(
        FbxLoadingError::AssetReadFailure("no such file".to_string()).message(),
        "no such file"
    );
    assert_eq!(
        FbxLoadingError::MissingGeometryData.message(),
        "Failed to get geometry data"
    );
    assert_eq!(
        FbxLoadingError::TangentGenerationFailure.message(),
        "Failed to generate tangents"
    );
    assert_eq!(
        FbxLoadingError::NoMaterialLoaderSucceeded.message(),
        "None of the material loaders could load this material"
    );
    assert_eq!(
        FbxLoadingError::TextureDataUnavailable.message(),
        "No image data for texture object"
    );
    assert_eq!(
        FbxLoadingError::ImageDecodeFailure.message(),
        "Failed to read image buffer data"
    );
}

#[test]
fn message_of_a_length_mismatch_holds_the_lengths() {
    let e = FbxLoadingError::AttributeLengthMismatch { positions: 6, uvs: 5, normals: 12 };
    assert_eq!(e.message(), "mismatched length of buffers: pos6 uv5 normals12");
}

#[test]
fn message_of_a_slot_out_of_range_holds_the_slot() {
    let e = FbxLoadingError::MaterialSlotOutOfRange { num_materials: 2, got: 7 };
    assert_eq!(
        e.message(),
        "FbxMesh-local material index out of range: num_materials=2, got=7"
    );
}

#[test]
fn a_failed_read_keeps_the_text_of_its_cause() {
    let cause = std::io::Error::new(std::io::ErrorKind::NotFound, "texture.png is missing");
    let error = FbxLoadingError::read_failure(&cause);
    assert_eq!(error, FbxLoadingError::AssetReadFailure("texture.png is missing".to_string()));
    assert_eq!(error.message(), "texture.png is missing");
}
