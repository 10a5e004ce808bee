//! Plain-value model of the native engine's ABI: status codes, pixel formats and the
//! descriptors handed to its calls.

use vstd::prelude::*;

verus! {

/// Status code returned by every native call.
pub type CreResult = i32;

/// The call succeeded.
pub const CRE_RESULT_OK: CreResult = 0;

/// The engine does not support the requested operation.
pub const CRE_RESULT_UNSUPPORTED: CreResult = 1;

/// The engine rejected an argument.
pub const CRE_RESULT_INVALID_ARGUMENT: CreResult = 2;

/// The engine failed internally.
pub const CRE_RESULT_INTERNAL_ERROR: CreResult = 3;

/// Native pixel-format tag.
pub type CreSurfaceFormat = u32;

/// 8-bit grayscale pixels.
pub const CRE_SURFACE_FORMAT_GRAY8: CreSurfaceFormat = 0;

/// 1-bit monochrome pixels.
pub const CRE_SURFACE_FORMAT_MONOCHROME: CreSurfaceFormat = 1;

/// Native form of a width and height in pixels.
#[derive(Debug, Clone, Copy, PartialEq, Eq, Structural)]
pub struct CreSize {
    pub width: u32,
    pub height: u32,
}

/// Native form of the layout preferences.
#[derive(Debug, Clone, Copy, PartialEq, Eq, Structural)]
pub struct CreLayoutConfig {
    pub font_size: u32,
    pub line_height_percent: u32,
    pub page_margin_dp: u32,
}

/// Everything the native render call needs to know about a canvas except the address of its
/// buffer, which is attached at the call itself.
#[derive(Debug, Clone, Copy, PartialEq, Eq, Structural)]
pub struct CreRenderSurface {
    pub stride: u32,
    pub size: CreSize,
    pub format: CreSurfaceFormat,
}

} // verus!
