//! The drawing surface: the pixel format a window asks for when graphics
//! support is requested, and the size of its client area.

use vstd::prelude::*;

verus! {

/// The format's buffer is double-buffered.
pub const PFD_DOUBLEBUFFER: u32 = 0x01;

/// The format can draw to a window.
pub const PFD_DRAW_TO_WINDOW: u32 = 0x04;

/// The format supports the fixed-function graphics API.
pub const PFD_SUPPORT_OPENGL: u32 = 0x20;

/// Pixels are RGBA values.
pub const PFD_TYPE_RGBA: u8 = 0;

/// The fields of a pixel-format request that a window sets; all others
/// are zero.
#[derive(Clone, Copy, Debug, PartialEq, Eq, Structural)]
pub struct PixelFormat {
    pub version: u16,
    pub flags: u32,
    pub pixel_type: u8,
    pub color_bits: u8,
    pub depth_bits: u8,
}

/// The pixel format requested for a window with graphics support: a
/// double-buffered RGBA format that draws to a window, with 24 bits of
/// color and a 32-bit depth buffer.
pub fn requested_pixel_format() -> (r: PixelFormat)
    ensures
        r.version == 1,
        r.flags == PFD_DRAW_TO_WINDOW | PFD_SUPPORT_OPENGL | PFD_DOUBLEBUFFER,
        r.pixel_type == PFD_TYPE_RGBA,
        r.color_bits == 24,
        r.depth_bits == 32,
{
    PixelFormat {
        version: 1,
        flags: PFD_DRAW_TO_WINDOW | PFD_SUPPORT_OPENGL | PFD_DOUBLEBUFFER,
        pixel_type: PFD_TYPE_RGBA,
        color_bits: 24,
        depth_bits: 32,
    }
}

/// The client area of a window, in pixels, as the platform reports it.
#[derive(Clone, Copy, Debug, PartialEq, Eq, Structural)]
pub struct ClientRect {
    pub left: i32,
    pub top: i32,
    pub right: i32,
    pub bottom: i32,
}

impl ClientRect {
    /// No edge lies beyond the opposite one.
    pub open spec fn wf(&self) -> bool {
        self.left <= self.right && self.top <= self.bottom
    }

    pub open spec fn width(&self) -> int {
        self.right - self.left
    }

    pub open spec fn height(&self) -> int {
        self.bottom - self.top
    }

    /// Width and height of the area, in that order.
    pub fn size(&self) -> (r: [u32; 2])
        requires
            self.wf(),
        ensures
            r@[0] == self.width(),
            r@[1] == self.height(),
    {
        let width = (self.right as i64 - self.left as i64) as u32;
        let height = (self.bottom as i64 - self.top as i64) as u32;
        [width, height]
    }
}

} // verus!
