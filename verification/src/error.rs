use vstd::prelude::*;
use vstd::string::*;

use crate::text::{decimal, push_decimal};

verus! {

/// Expected failures of the player lookup and helm rendering pipeline.
#[derive(Debug, Clone, Copy, PartialEq, Eq, Structural)]
pub enum AppError {
    InvalidPlayer,
    InvalidSize,
    UsernameNotFound,
    ProfileHasNoSkin,
    ProfileHasNoCape,
    MojangRequest,
    SkinDownload,
    CapeDownload,
    MalformedUpstream,
    TextureDecode,
    TextureJson,
    InvalidSkinImage,
    Internal,
}

/// The stable short message of each error.
pub open spec fn app_error_message(e: AppError) -> Seq<char> {
    match e {
        AppError::InvalidPlayer => "invalid player"@,
        AppError::InvalidSize => "invalid size"@,
        AppError::UsernameNotFound => "username not found"@,
        AppError::ProfileHasNoSkin => "skin not found"@,
        AppError::ProfileHasNoCape => "cape not found"@,
        AppError::MojangRequest => "mojang request failed"@,
        AppError::SkinDownload => "skin download failed"@,
        AppError::CapeDownload => "cape download failed"@,
        AppError::MalformedUpstream => "malformed upstream response"@,
        AppError::TextureDecode => "invalid texture data"@,
        AppError::TextureJson => "invalid texture json"@,
        AppError::InvalidSkinImage => "invalid skin image"@,
        AppError::Internal => "internal error"@,
    }
}

/// Errors caused by the request itself (HTTP 400).
pub open spec fn app_error_is_bad_request(e: AppError) -> bool {
    e is InvalidPlayer || e is InvalidSize
}

/// Errors caused by missing upstream data (HTTP 404).
pub open spec fn app_error_is_not_found(e: AppError) -> bool {
    e is UsernameNotFound || e is ProfileHasNoSkin || e is ProfileHasNoCape
}

/// Errors internal to this service (HTTP 500).
pub open spec fn app_error_is_internal(e: AppError) -> bool {
    e is Internal
}

/// The HTTP status an error is answered with: 400, 404 and 500 for the three
/// categories above, 502 for every upstream failure.
pub open spec fn app_error_status(e: AppError) -> u16 {
    if app_error_is_bad_request(e) {
        400
    } else if app_error_is_not_found(e) {
        404
    } else if app_error_is_internal(e) {
        500
    } else {
        502
    }
}

impl AppError {
    pub fn message(&self) -> (m: &'static str)
        ensures
            m@ == app_error_message(*self),
    {
        match self {
            AppError::InvalidPlayer => "invalid player",
            AppError::InvalidSize => "invalid size",
            AppError::UsernameNotFound => "username not found",
            AppError::ProfileHasNoSkin => "skin not found",
            AppError::ProfileHasNoCape => "cape not found",
            AppError::MojangRequest => "mojang request failed",
            AppError::SkinDownload => "skin download failed",
            AppError::CapeDownload => "cape download failed",
            AppError::MalformedUpstream => "malformed upstream response",
            AppError::TextureDecode => "invalid texture data",
            AppError::TextureJson => "invalid texture json",
            AppError::InvalidSkinImage => "invalid skin image",
            AppError::Internal => "internal error",
        }
    }

    pub fn is_bad_request(&self) -> (b: bool)
        ensures
            b == app_error_is_bad_request(*self),
    {
        matches!(self, AppError::InvalidPlayer | AppError::InvalidSize)
    }

    pub fn is_not_found(&self) -> (b: bool)
        ensures
            b == app_error_is_not_found(*self),
    {
        matches!(
            self,
            AppError::UsernameNotFound | AppError::ProfileHasNoSkin | AppError::ProfileHasNoCape
        )
    }

    pub fn is_internal(&self) -> (b: bool)
        ensures
            b == app_error_is_internal(*self),
    {
        matches!(self, AppError::Internal)
    }

    /// The HTTP status code and the message that an error response carries.
    pub fn status_and_message(&self) -> (r: (u16, &'static str))
        ensures
            r.0 == app_error_status(*self),
            r.1@ == app_error_message(*self),
    {
        let status: u16 = if self.is_bad_request() {
            400
        } else if self.is_not_found() {
            404
        } else if self.is_internal() {
            500
        } else {
            502
        };
        (status, self.message())
    }
}

/// An error belongs to at most one of the request, missing-data and internal
/// categories, so its HTTP status is well defined.
pub proof fn lemma_app_error_categories_disjoint(e: AppError)
    ensures
        !(app_error_is_bad_request(e) && app_error_is_not_found(e)),
        !(app_error_is_bad_request(e) && app_error_is_internal(e)),
        !(app_error_is_not_found(e) && app_error_is_internal(e)),
        app_error_status(e) == 400 <==> app_error_is_bad_request(e),
        app_error_status(e) == 404 <==> app_error_is_not_found(e),
        app_error_status(e) == 500 <==> app_error_is_internal(e),
{
}

/// Failures of the browser skin viewer.
#[derive(Debug, Clone)]
pub enum ViewerError {
    MissingElement(&'static str),
    WebGlUnavailable,
    ShaderCompile(String),
    ProgramLink(String),
    BufferCreation,
    TextureCreation,
    InvalidPng,
    InvalidCapePng,
    UnsupportedSkinDimensions(u32, u32),
    UnsupportedCapeDimensions(u32, u32),
    WebGlOperation(&'static str),
    InvalidTextureData { width: u32, height: u32, actual_len: usize },
    PngEncode,
}

/// `"{w}x{h}"`.
pub open spec fn dimensions_text(width: u32, height: u32) -> Seq<char> {
    decimal(width as nat) + "x"@ + decimal(height as nat)
}

/// The message shown for each viewer error.
pub open spec fn viewer_error_message(e: ViewerError) -> Seq<char> {
    match e {
        ViewerError::MissingElement(id) => "missing DOM element: "@ + id@,
        ViewerError::WebGlUnavailable => "WebGL2 is not available"@,
        ViewerError::ShaderCompile(message) => "shader compile failed: "@ + message@,
        ViewerError::ProgramLink(message) => "program link failed: "@ + message@,
        ViewerError::BufferCreation => "failed to create WebGL buffer"@,
        ViewerError::TextureCreation => "failed to create WebGL texture"@,
        ViewerError::InvalidPng => "invalid PNG skin"@,
        ViewerError::InvalidCapePng => "invalid PNG cape"@,
        ViewerError::UnsupportedSkinDimensions(w, h) => "unsupported skin size: "@
            + dimensions_text(w, h),
        ViewerError::UnsupportedCapeDimensions(w, h) => "unsupported cape size: "@
            + dimensions_text(w, h),
        ViewerError::WebGlOperation(operation) => "WebGL operation failed: "@ + operation@,
        ViewerError::InvalidTextureData { width, height, actual_len } => "invalid texture data for "@
            + dimensions_text(width, height) + ": "@ + decimal(actual_len as nat) + " bytes"@,
        ViewerError::PngEncode => "failed to encode PNG"@,
    }
}

fn push_dimensions(s: &mut String, width: u32, height: u32)
    ensures
        final(s)@ == old(s)@ + dimensions_text(width, height),
{
    push_decimal(s, width as u64);
    s.append("x");
    push_decimal(s, height as u64);
    assert(final(s)@ =~= old(s)@ + dimensions_text(width, height));
}

impl ViewerError {
    pub fn message(&self) -> (m: String)
        ensures
            m@ == viewer_error_message(*self),
    {
        match self {
            ViewerError::MissingElement(id) => {
                let mut m = String::from_str("missing DOM element: ");
                m.append(id);
                m
            },
            ViewerError::WebGlUnavailable => String::from_str("WebGL2 is not available"),
            ViewerError::ShaderCompile(message) => {
                let mut m = String::from_str("shader compile failed: ");
                m.append(message.as_str());
                m
            },
            ViewerError::ProgramLink(message) => {
                let mut m = String::from_str("program link failed: ");
                m.append(message.as_str());
                m
            },
            ViewerError::BufferCreation => String::from_str("failed to create WebGL buffer"),
            ViewerError::TextureCreation => String::from_str("failed to create WebGL texture"),
            ViewerError::InvalidPng => String::from_str("invalid PNG skin"),
            ViewerError::InvalidCapePng => String::from_str("invalid PNG cape"),
            ViewerError::UnsupportedSkinDimensions(width, height) => {
                let mut m = String::from_str("unsupported skin size: ");
                push_dimensions(&mut m, *width, *height);
                m
            },
            ViewerError::UnsupportedCapeDimensions(width, height) => {
                let mut m = String::from_str("unsupported cape size: ");
                push_dimensions(&mut m, *width, *height);
                m
            },
            ViewerError::WebGlOperation(operation) => {
                let mut m = String::from_str("WebGL operation failed: ");
                m.append(operation);
                m
            },
            ViewerError::InvalidTextureData { width, height, actual_len } => {
                let mut m = String::from_str("invalid texture data for ");
                push_dimensions(&mut m, *width, *height);
                m.append(": ");
                push_decimal(&mut m, *actual_len as u64);
                m.append(" bytes");
                assert(m@ =~= viewer_error_message(*self));
                m
            },
            ViewerError::PngEncode => String::from_str("failed to encode PNG"),
        }
    }
}

} // verus!
