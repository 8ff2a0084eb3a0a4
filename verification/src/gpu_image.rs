use vstd::prelude::*;

use crate::image_info::{ImageInfo, RawImage};
use crate::transform::Size2;
use vstd::bytes::{spec_u32_to_le_bytes, u32_to_le_bytes};

verus! {

/// The per-image values the render pipeline reads: the shader's format tag,
/// the image's size and its strides. All are 32-bit words already, so the
/// GPU-side layout is the five words in order, 20 bytes.
#[derive(Clone, Copy, Debug, PartialEq, Eq, Structural)]
pub struct GpuImageUniforms {
    pub format: u32,
    pub width: u32,
    pub height: u32,
    pub stride_x: u32,
    pub stride_y: u32,
}

/// The exact byte image of the uniforms: five little-endian words.
pub open spec fn spec_gpu_image_uniform_bytes(u: GpuImageUniforms) -> Seq<u8> {
    spec_u32_to_le_bytes(u.format) + spec_u32_to_le_bytes(u.width) + spec_u32_to_le_bytes(u.height)
        + spec_u32_to_le_bytes(u.stride_x) + spec_u32_to_le_bytes(u.stride_y)
}

impl GpuImageUniforms {
    /// Serialize into the 20 bytes the GPU buffer holds.
    pub fn bytes(&self) -> (r: Vec<u8>)
        ensures
            r@ == spec_gpu_image_uniform_bytes(*self),
            r@.len() == 20,
    {
        proof {
            vstd::bytes::lemma_auto_spec_u32_to_from_le_bytes();
        }
        let mut out: Vec<u8> = Vec::new();
        let mut w = u32_to_le_bytes(self.format);
        out.append(&mut w);
        let mut w = u32_to_le_bytes(self.width);
        out.append(&mut w);
        let mut w = u32_to_le_bytes(self.height);
        out.append(&mut w);
        let mut w = u32_to_le_bytes(self.stride_x);
        out.append(&mut w);
        let mut w = u32_to_le_bytes(self.stride_y);
        out.append(&mut w);
        out
    }
}

/// Why an image's data cannot be shown.
#[derive(Clone, Copy, Debug, PartialEq, Eq, Structural)]
pub enum ImageDataError {
    /// One row's bytes do not fit in the 32-bit stride the shader reads.
    RowTooWide,
    /// The data length does not match the format, width and height.
    WrongDataLength,
}

/// An image as it is shown: created once per displayed image and immutable
/// from then on. It holds the pixel bytes the backend's one-time upload
/// copies into the GPU buffer, and the uniform values its bind group serves
/// to the shader.
#[derive(Clone, Debug)]
pub struct GpuImage {
    name: String,
    info: ImageInfo,
    uniforms: GpuImageUniforms,
    data: Vec<u8>,
}

/// A GPU image's state as a mathematical value.
#[verifier::ext_equal]
pub ghost struct ImageModel {
    pub name: Seq<char>,
    pub info: ImageInfo,
    pub uniforms: GpuImageUniforms,
    pub data: Seq<u8>,
}

impl ImageModel {
    /// The uniforms a well-formed image serves are exactly its info's
    /// fields, and its bytes are exactly the rows the strides describe.
    pub open spec fn wf(self) -> bool {
        &&& self.uniforms == (GpuImageUniforms {
            format: self.info.pixel_format.spec_format_code(),
            width: self.info.size.x,
            height: self.info.size.y,
            stride_x: self.info.stride.x,
            stride_y: self.info.stride.y,
        })
        &&& self.data.len() == self.info.stride.y * self.info.size.y
    }

    /// The image `GpuImage::from_data` yields for a consistent raw image:
    /// its pixel bytes are the raw image's, unchanged.
    pub open spec fn spec_from_raw(name: Seq<char>, image: RawImage) -> ImageModel {
        let info = ImageInfo::spec_new(image.color, image.size.x, image.size.y);
        ImageModel {
            name,
            info,
            uniforms: GpuImageUniforms {
                format: image.color.spec_format_code(),
                width: info.size.x,
                height: info.size.y,
                stride_x: info.stride.x,
                stride_y: info.stride.y,
            },
            data: image.data@,
        }
    }

    /// The error `GpuImage::from_data` gives for an inconsistent raw image:
    /// an oversized row is reported before a wrong data length.
    pub open spec fn spec_raw_error(image: RawImage) -> ImageDataError {
        if image.color.spec_bytes_per_pixel() * image.size.x > u32::MAX {
            ImageDataError::RowTooWide
        } else {
            ImageDataError::WrongDataLength
        }
    }
}

impl View for GpuImage {
    type V = ImageModel;

    open spec fn view(&self) -> ImageModel {
        ImageModel {
            name: self.spec_name(),
            info: self.spec_info(),
            uniforms: self.spec_uniforms(),
            data: self.spec_data(),
        }
    }
}

impl GpuImage {
    pub closed spec fn spec_name(self) -> Seq<char> {
        self.name@
    }

    pub closed spec fn spec_info(self) -> ImageInfo {
        self.info
    }

    pub closed spec fn spec_uniforms(self) -> GpuImageUniforms {
        self.uniforms
    }

    pub closed spec fn spec_data(self) -> Seq<u8> {
        self.data@
    }

    /// Whether a raw image's declared size and format match its data: rows
    /// are tightly packed, and the rows' bytes are exactly the data.
    pub open spec fn data_fits(image: RawImage) -> bool {
        &&& image.color.spec_bytes_per_pixel() * image.size.x <= u32::MAX
        &&& image.data@.len() == image.color.spec_bytes_per_pixel() * image.size.x * image.size.y
    }

    /// Create a `GpuImage` from an image buffer.
    ///
    /// Succeeds exactly when the raw image is consistent: the row stride fits
    /// and the data has exactly one row of bytes per pixel row.
    pub fn from_data(name: String, image: &RawImage) -> (r: Result<GpuImage, ImageDataError>)
        ensures
            r is Ok <==> Self::data_fits(*image),
            r matches Ok(g) ==> g@ == ImageModel::spec_from_raw(name@, *image) && g@.wf(),
            r matches Err(e) ==> e == ImageModel::spec_raw_error(*image),
    {
        let bpp: u64 = image.color.bytes_per_pixel() as u64;
        let row: u64 = bpp * (image.size.x as u64);
        proof {
            assert(bpp * (image.size.x as u64) == image.color.spec_bytes_per_pixel() * image.size.x)
                by (nonlinear_arith)
                requires
                    bpp == image.color.spec_bytes_per_pixel(),
            ;
        }
        if row > u32::MAX as u64 {
            return Err(ImageDataError::RowTooWide);
        }
        proof {
            assert(row * (image.size.y as u64) == image.color.spec_bytes_per_pixel() * image.size.x
                * image.size.y && row * (image.size.y as u64) <= 0xffff_ffff * 0xffff_ffffu64)
                by (nonlinear_arith)
                requires
                    row == image.color.spec_bytes_per_pixel() * image.size.x,
                    row <= 0xffff_ffffu64,
                    image.size.y <= 0xffff_ffffu32,
            ;
        }
        let total: u64 = row * (image.size.y as u64);
        if (image.data.len() as u64) != total {
            return Err(ImageDataError::WrongDataLength);
        }
        let info = ImageInfo::new(image.color, image.size.x, image.size.y);
        let uniforms = GpuImageUniforms {
            format: image.color.format_code(),
            width: info.size.x,
            height: info.size.y,
            stride_x: info.stride.x,
            stride_y: info.stride.y,
        };
        let data = image.data.clone();
        proof {
            assert forall|i: int| 0 <= i < image.data@.len() implies data@[i]
                == image.data@[i] by {
                assert(cloned::<u8>(image.data@[i], data@[i]));
            }
            assert(data@ =~= image.data@);
            assert((info.stride.y as int) * (info.size.y as int) == image.color.spec_bytes_per_pixel()
                * image.size.x * image.size.y)
                by (nonlinear_arith)
                requires
                    info.stride.y == image.color.spec_bytes_per_pixel() * image.size.x,
                    info.size.y == image.size.y,
            ;
        }
        Ok(GpuImage { name, info, uniforms, data })
    }

    /// Get the name of the image.
    pub fn name(&self) -> (r: &String)
        ensures
            r@ == self.spec_name(),
    {
        &self.name
    }

    /// Get the image info.
    pub fn info(&self) -> (r: &ImageInfo)
        ensures
            *r == self.spec_info(),
    {
        &self.info
    }

    /// Get the uniform values the image's bind group serves.
    pub fn uniforms(&self) -> (r: &GpuImageUniforms)
        ensures
            *r == self.spec_uniforms(),
    {
        &self.uniforms
    }

    /// Get the pixel bytes the GPU-side image buffer is created from.
    pub fn data(&self) -> (r: &Vec<u8>)
        ensures
            r@ == self.spec_data(),
    {
        &self.data
    }
}

} // verus!
