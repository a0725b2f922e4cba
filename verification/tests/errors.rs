use skinhelm::error::{AppError, ViewerError};

#[test]
fn app_errors_map_to_statuses_and_messages() {
    assert_eq!(AppError::InvalidPlayer.status_and_message(), (400, "invalid player"));
    assert_eq!(AppError::InvalidSize.status_and_message(), (400, "invalid size"));
    assert_eq!(AppError::UsernameNotFound.status_and_message(), (404, "username not found"));
    assert_eq!(AppError::ProfileHasNoSkin.status_and_message(), (404, "skin not found"));
    assert_eq!(AppError::ProfileHasNoCape.status_and_message(), (404, "cape not found"));
    assert_eq!(AppError::MojangRequest.status_and_message(), (502, "mojang request failed"));
    assert_eq!(AppError::SkinDownload.status_and_message(), (502, "skin download failed"));
    assert_eq!(AppError::CapeDownload.status_and_message(), (502, "cape download failed"));
    assert_eq!(
        AppError::MalformedUpstream.status_and_message(),
        (502, "malformed upstream response")
    );
    assert_eq!(AppError::TextureDecode.status_and_message(), (502, "invalid texture data"));
    assert_eq!(AppError::TextureJson.status_and_message(), (502, "invalid texture json"));
    assert_eq!(AppError::InvalidSkinImage.status_and_message(), (502, "invalid skin image"));
    assert_eq!(AppError::Internal.status_and_message(), (500, "internal error"));
    assert!(AppError::InvalidSize.is_bad_request());
    assert!(AppError::ProfileHasNoSkin.is_not_found());
    assert!(AppError::Internal.is_internal());
    assert!(!AppError::MojangRequest.is_internal());
    assert_eq!(AppError::TextureJson.message(), "invalid texture json");
}

#[test]
fn viewer_errors_have_messages() {
    assert_eq!(ViewerError::MissingElement("status").message(), "missing DOM element: status");
    assert_eq!(ViewerError::WebGlUnavailable.message(), "WebGL2 is not available");
    assert_eq!(
        ViewerError::ShaderCompile("bad".to_owned()).message(),
        "shader compile failed: bad"
    );
    assert_eq!(ViewerError::ProgramLink("x".to_owned()).message(), "program link failed: x");
    assert_eq!(ViewerError::BufferCreation.message(), "failed to create WebGL buffer");
    assert_eq!(ViewerError::TextureCreation.message(), "failed to create WebGL texture");
    assert_eq!(ViewerError::InvalidPng.message(), "invalid PNG skin");
    assert_eq!(ViewerError::InvalidCapePng.message(), "invalid PNG cape");
    assert_eq!(
        ViewerError::UnsupportedSkinDimensions(32, 16).message(),
        "unsupported skin size: 32x16"
    );
    assert_eq!(
        ViewerError::UnsupportedCapeDimensions(0, 4294967295).message(),
        "unsupported cape size: 0x4294967295"
    );
    assert_eq!(
        ViewerError::WebGlOperation("texture upload").message(),
        "WebGL operation failed: texture upload"
    );
    assert_eq!(
        ViewerError::InvalidTextureData { width: 64, height: 64, actual_len: 100 }.message(),
        "invalid texture data for 64x64: 100 bytes"
    );
    assert_eq!(ViewerError::PngEncode.message(), "failed to encode PNG");
}
