//! Pixel formats, sizes and the caller-owned canvas that pages are rendered into.

use vstd::prelude::*;

use crate::native::{
    CreRenderSurface, CreSize, CreSurfaceFormat, CRE_SURFACE_FORMAT_GRAY8,
    CRE_SURFACE_FORMAT_MONOCHROME,
};

verus! {

/// Width in pixels of the reader's display.
pub const TARGET_WIDTH: u32 = 480;

/// Height in pixels of the reader's display.
pub const TARGET_HEIGHT: u32 = 800;

/// Logical size used for layout and surfaces.
#[derive(Debug, Clone, Copy, PartialEq, Eq, Structural)]
pub struct Size {
    /// Width in pixels.
    pub width: u32,
    /// Height in pixels.
    pub height: u32,
}

/// Supported pixel formats for rendering.
#[derive(Debug, Clone, Copy, PartialEq, Eq, Structural)]
pub enum SurfaceFormat {
    /// 8-bit linear grayscale.
    Gray8,
    /// 1-bit monochrome.
    Monochrome,
}

impl SurfaceFormat {
    /// The native tag of a format.
    pub open spec fn raw_spec(self) -> CreSurfaceFormat {
        match self {
            SurfaceFormat::Gray8 => CRE_SURFACE_FORMAT_GRAY8,
            SurfaceFormat::Monochrome => CRE_SURFACE_FORMAT_MONOCHROME,
        }
    }

    /// Native tag handed to the engine for this format.
    pub fn as_raw(self) -> (r: CreSurfaceFormat)
        ensures
            r == self.raw_spec(),
    {
        match self {
            SurfaceFormat::Gray8 => CRE_SURFACE_FORMAT_GRAY8,
            SurfaceFormat::Monochrome => CRE_SURFACE_FORMAT_MONOCHROME,
        }
    }
}

/// What a canvas holds: its bytes, logical size, row stride and pixel format.
pub struct CanvasView {
    pub bytes: Seq<u8>,
    pub size: Size,
    pub stride: nat,
    pub format: SurfaceFormat,
}

impl CanvasView {
    /// Rows are exactly `width` bytes apart, as in the 8-bit grayscale layout, and a full
    /// frame's byte count fits in `usize`.
    pub open spec fn wf(self) -> bool {
        &&& self.stride == self.size.width as nat
        &&& self.required_len() <= usize::MAX
    }

    /// The number of bytes a render into this canvas writes.
    pub open spec fn required_len(self) -> nat {
        self.stride * self.size.height as nat
    }

    /// The descriptor the native render call receives for this canvas.
    pub open spec fn surface(self) -> CreRenderSurface {
        CreRenderSurface {
            stride: self.stride as u32,
            size: CreSize { width: self.size.width, height: self.size.height },
            format: self.format.raw_spec(),
        }
    }
}

/// A rendering surface backed by an owned buffer.
#[derive(Debug)]
pub struct Canvas {
    buffer: Vec<u8>,
    size: Size,
    stride: usize,
    format: SurfaceFormat,
}

impl View for Canvas {
    type V = CanvasView;

    closed spec fn view(&self) -> CanvasView {
        CanvasView {
            bytes: self.buffer@,
            size: self.size,
            stride: self.stride as nat,
            format: self.format,
        }
    }
}

impl Canvas {
    /// The canvas's invariant: its stride equals its width.
    pub open spec fn wf(&self) -> bool {
        self@.wf()
    }

    /// Creates a grayscale canvas sized to the reader's display.
    pub fn gray8_target() -> (r: Self)
        ensures
            r.wf(),
            r@.size == (Size { width: TARGET_WIDTH, height: TARGET_HEIGHT }),
            r@.stride == TARGET_WIDTH as nat,
            r@.format == SurfaceFormat::Gray8,
            r@.bytes == Seq::new((TARGET_WIDTH * TARGET_HEIGHT) as nat, |i: int| 0u8),
    {
        Self::new_gray8(Size { width: TARGET_WIDTH, height: TARGET_HEIGHT })
    }

    /// Creates a zero-filled grayscale canvas of `width * height` bytes whose stride is its
    /// width.
    pub fn new_gray8(size: Size) -> (r: Self)
        requires
            size.width as nat * size.height as nat <= usize::MAX,
        ensures
            r.wf(),
            r@.size == size,
            r@.stride == size.width as nat,
            r@.format == SurfaceFormat::Gray8,
            r@.bytes == Seq::new(size.width as nat * size.height as nat, |i: int| 0u8),
    {
        let stride = size.width as usize;
        let len = stride * size.height as usize;
        let mut buffer: Vec<u8> = Vec::with_capacity(len);
        let mut i: usize = 0;
        while i < len
            invariant
                i <= len,
                buffer@ == Seq::new(i as nat, |k: int| 0u8),
            decreases len - i,
        {
            buffer.push(0u8);
            i = i + 1;
            assert(buffer@ =~= Seq::new(i as nat, |k: int| 0u8));
        }
        Self { buffer, size, stride, format: SurfaceFormat::Gray8 }
    }

    /// Raw byte view of the canvas.
    pub fn as_bytes(&self) -> (r: &[u8])
        ensures
            r@ == self@.bytes,
    {
        self.buffer.as_slice()
    }

    /// Mutable raw byte view of the canvas. Writes through it change the bytes and nothing
    /// else: the length, size, stride and format stay as they were.
    pub fn as_bytes_mut(&mut self) -> (r: &mut [u8])
        ensures
            r@ == old(self)@.bytes,
            final(self)@ == (CanvasView { bytes: final(r)@, ..old(self)@ }),
    {
        self.buffer.as_mut_slice()
    }

    /// Logical size of the canvas.
    pub fn size(&self) -> (r: Size)
        ensures
            r == self@.size,
    {
        self.size
    }

    /// Bytes between the starts of two rows.
    pub fn stride(&self) -> (r: usize)
        ensures
            r == self@.stride,
    {
        self.stride
    }

    /// Pixel format of the canvas.
    pub fn format(&self) -> (r: SurfaceFormat)
        ensures
            r == self@.format,
    {
        self.format
    }

    /// Number of bytes the buffer holds.
    pub fn byte_len(&self) -> (r: usize)
        ensures
            r == self@.bytes.len(),
    {
        self.buffer.len()
    }

    /// Builds the descriptor handed to the native render call.
    pub fn to_surface(&self) -> (r: CreRenderSurface)
        requires
            self.wf(),
        ensures
            r == self@.surface(),
    {
        CreRenderSurface {
            stride: self.stride as u32,
            size: CreSize { width: self.size.width, height: self.size.height },
            format: self.format.as_raw(),
        }
    }
}

} // verus!
