use vstd::prelude::*;

use crate::transform::Size2;

verus! {

/// Possible alpha representations of a pixel format.
#[derive(Clone, Copy, Debug, PartialEq, Eq, Structural)]
pub enum Alpha {
    /// The alpha channel is encoded only in the alpha component of the pixel.
    Unpremultiplied,
    /// The alpha channel is also premultiplied into the other components.
    Premultiplied,
}

/// Supported pixel formats, all with eight bits per channel.
#[derive(Clone, Copy, Debug, PartialEq, Eq, Structural)]
pub enum PixelFormat {
    /// 8-bit monochrome data.
    Mono8,
    /// 8-bit monochrome data with alpha.
    MonoAlpha8(Alpha),
    /// Interlaced 8-bit BGR data.
    Bgr8,
    /// Interlaced 8-bit BGRA data.
    Bgra8(Alpha),
    /// Interlaced 8-bit RGB data.
    Rgb8,
    /// Interlaced 8-bit RGBA data.
    Rgba8(Alpha),
}

impl PixelFormat {
    pub open spec fn spec_channels(self) -> u8 {
        match self {
            PixelFormat::Mono8 => 1,
            PixelFormat::MonoAlpha8(_) => 1,
            PixelFormat::Bgr8 => 3,
            PixelFormat::Bgra8(_) => 4,
            PixelFormat::Rgb8 => 3,
            PixelFormat::Rgba8(_) => 4,
        }
    }

    /// Get the number of channels.
    pub fn channels(self) -> (r: u8)
        ensures
            r == self.spec_channels(),
    {
        match self {
            PixelFormat::Mono8 => 1,
            PixelFormat::MonoAlpha8(_) => 1,
            PixelFormat::Bgr8 => 3,
            PixelFormat::Bgra8(_) => 4,
            PixelFormat::Rgb8 => 3,
            PixelFormat::Rgba8(_) => 4,
        }
    }

    /// Get the bytes per channel: every supported format is eight bits deep.
    fn byte_depth(self) -> (r: u8)
        ensures
            r == 1,
    {
        1
    }

    pub open spec fn spec_bytes_per_pixel(self) -> u8 {
        self.spec_channels()
    }

    /// Get the bytes per pixel.
    pub fn bytes_per_pixel(self) -> (r: u8)
        ensures
            r == self.spec_bytes_per_pixel(),
    {
        self.byte_depth() * self.channels()
    }

    /// The numeric format tag the shader distinguishes pixel formats by.
    pub fn format_code(self) -> (r: u32)
        ensures
            r == self.spec_format_code(),
    {
        match self {
            PixelFormat::Mono8 => 0,
            PixelFormat::MonoAlpha8(Alpha::Unpremultiplied) => 1,
            PixelFormat::MonoAlpha8(Alpha::Premultiplied) => 2,
            PixelFormat::Bgr8 => 3,
            PixelFormat::Bgra8(Alpha::Unpremultiplied) => 4,
            PixelFormat::Bgra8(Alpha::Premultiplied) => 5,
            PixelFormat::Rgb8 => 6,
            PixelFormat::Rgba8(Alpha::Unpremultiplied) => 7,
            PixelFormat::Rgba8(Alpha::Premultiplied) => 8,
        }
    }

    pub open spec fn spec_format_code(self) -> u32 {
        match self {
            PixelFormat::Mono8 => 0,
            PixelFormat::MonoAlpha8(Alpha::Unpremultiplied) => 1,
            PixelFormat::MonoAlpha8(Alpha::Premultiplied) => 2,
            PixelFormat::Bgr8 => 3,
            PixelFormat::Bgra8(Alpha::Unpremultiplied) => 4,
            PixelFormat::Bgra8(Alpha::Premultiplied) => 5,
            PixelFormat::Rgb8 => 6,
            PixelFormat::Rgba8(Alpha::Unpremultiplied) => 7,
            PixelFormat::Rgba8(Alpha::Premultiplied) => 8,
        }
    }
}

/// Information describing the binary data of an image.
#[derive(Clone, Copy, Debug, PartialEq, Eq, Structural)]
pub struct ImageInfo {
    /// The pixel format of the image data.
    pub pixel_format: PixelFormat,
    /// The size of the image in pixels.
    pub size: Size2,
    /// The stride of the image data in bytes, in X and in Y.
    pub stride: Size2,
}

impl ImageInfo {
    /// The strides a tightly packed image of this format and size has: one
    /// pixel's bytes in X, one row's bytes in Y.
    pub open spec fn spec_new(pixel_format: PixelFormat, width: u32, height: u32) -> ImageInfo {
        ImageInfo {
            pixel_format,
            size: Size2 { x: width, y: height },
            stride: Size2 {
                x: pixel_format.spec_bytes_per_pixel() as u32,
                y: (pixel_format.spec_bytes_per_pixel() * width) as u32,
            },
        }
    }

    /// Create a new info struct with the given format, width and height.
    ///
    /// The row stride is calculated from the image width and pixel format; an
    /// image wider than the stride can count is refused by the caller bound.
    pub fn new(pixel_format: PixelFormat, width: u32, height: u32) -> (r: ImageInfo)
        requires
            pixel_format.spec_bytes_per_pixel() * width <= u32::MAX,
        ensures
            r == ImageInfo::spec_new(pixel_format, width, height),
    {
        let stride_x: u32 = pixel_format.bytes_per_pixel() as u32;
        proof {
            assert(stride_x * width == pixel_format.spec_bytes_per_pixel() * width)
                by (nonlinear_arith)
                requires
                    stride_x == pixel_format.spec_bytes_per_pixel(),
            ;
        }
        let stride_y: u32 = stride_x * width;
        ImageInfo { pixel_format, size: Size2 { x: width, y: height }, stride: Size2 {
            x: stride_x,
            y: stride_y,
        } }
    }
}

/// A decoded image as plain values: its pixel format, its size in pixels and
/// its tightly packed pixel bytes. This is what the decoder hands the
/// dispatcher.
#[derive(Clone, Debug)]
pub struct RawImage {
    /// The pixel format of `data`.
    pub color: PixelFormat,
    /// Width and height in pixels.
    pub size: Size2,
    /// The pixel bytes, rows from top to bottom, tightly packed.
    pub data: Vec<u8>,
}

} // verus!
