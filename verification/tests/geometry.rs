use imvr::color::Color;
use imvr::gpu_image::{GpuImage, GpuImageUniforms, ImageDataError};
use imvr::image_info::{Alpha, ImageInfo, PixelFormat, RawImage};
use imvr::transform::{Frac, Size2, Transform2};
use imvr::uniforms::{UniformsBuffer, WindowUniforms, WindowUniformsStd140, STD140_SIZE};

#[test]
fn test_fit_equal_sizes_is_identity() {
    // Aspect-fit idempotence: a window whose size already equals the
    // image's size gets scale one and zero translation.
    let u = WindowUniforms::fit(Size2 { x: 800, y: 600 }, Size2 { x: 800, y: 600 });
    let t = u.transform;
    assert_eq!(t.sx.num, t.sx.den);
    assert_eq!(t.sy.num, t.sy.den);
    assert_eq!(t.tx.num, 0);
    assert_eq!(t.ty.num, 0);
    assert_eq!(u.image_size, Size2 { x: 800, y: 600 });
}

#[test]
fn test_fit_pillarbox_exact() {
    // A 400x400 image in an 800x600 window: the y axis fills the window,
    // the x axis is scaled to 3/4 and centred by an offset of 1/8.
    let u = WindowUniforms::fit(Size2 { x: 800, y: 600 }, Size2 { x: 400, y: 400 });
    let t = u.transform;
    // sx = 240000/320000 = 3/4
    assert_eq!(t.sx.num * 4, t.sx.den * 3);
    // sy = 1
    assert_eq!(t.sy.num, t.sy.den);
    // tx = (320000-240000)/640000 = 1/8
    assert_eq!(t.tx.num * 8, t.tx.den);
    assert_eq!(t.ty.num, 0);
}

#[test]
fn test_fit_letterbox_exact() {
    // A wide 400x100 image in a 400x400 window: x fills, y scales to 1/4
    // and is pushed down by 3/8.
    let u = WindowUniforms::fit(Size2 { x: 400, y: 400 }, Size2 { x: 400, y: 100 });
    let t = u.transform;
    assert_eq!(t.sx.num, t.sx.den);
    assert_eq!(t.sy.num * 4, t.sy.den);
    assert_eq!(t.tx.num, 0);
    assert_eq!(t.ty.num * 8, t.ty.den * 3);
}

#[test]
fn test_stretch_and_no_image() {
    let s = WindowUniforms::stretch(Size2 { x: 10, y: 20 });
    assert_eq!(s.transform, Transform2::identity());
    assert_eq!(s.image_size, Size2 { x: 10, y: 20 });
    let n = WindowUniforms::no_image();
    assert_eq!(n.transform, Transform2::identity());
    assert_eq!(n.image_size, Size2 { x: 0, y: 0 });
}

#[test]
fn test_compose_with_identity_keeps_values() {
    let inner = WindowUniforms::fit(Size2 { x: 800, y: 600 }, Size2 { x: 400, y: 400 });
    let composed = inner.pre_apply_transform(Transform2::identity());
    let a = composed.transform;
    let b = inner.transform;
    // The composed fractions denote the same numbers.
    assert_eq!(a.sx.num * b.sx.den, b.sx.num * a.sx.den);
    assert_eq!(a.sy.num * b.sy.den, b.sy.num * a.sy.den);
    assert_eq!(a.tx.num * b.tx.den, b.tx.num * a.tx.den);
    assert_eq!(a.ty.num * b.ty.den, b.ty.num * a.ty.den);
}

#[test]
fn test_dirty_flag_protocol() {
    // Dirty-flag correctness: after one update_from the flag is false and
    // the staged value equals the input.
    let first = WindowUniforms::no_image();
    let mut buf = UniformsBuffer::from_value(first);
    assert!(!buf.is_dirty());
    buf.mark_dirty(true);
    assert!(buf.is_dirty());
    let fresh = WindowUniforms::fit(Size2 { x: 640, y: 480 }, Size2 { x: 320, y: 480 });
    buf.update_from(&fresh);
    assert!(!buf.is_dirty());
    assert_eq!(*buf.value(), fresh);
}

#[test]
fn test_std140_bytes_layout() {
    // The GPU-visible bytes: three 16-byte matrix columns (three words and
    // a zero pad each), then the size words — for a scale of (1, 1/2) and a
    // translation of (0, 1/4), with an 8x4 image.
    let w = WindowUniformsStd140 {
        c00: 1.0f32.to_bits(),
        c01: 0,
        c02: 0,
        c10: 0,
        c11: 0.5f32.to_bits(),
        c12: 0,
        c20: 0,
        c21: 0.25f32.to_bits(),
        c22: 1.0f32.to_bits(),
        size_x: 8.0f32.to_bits(),
        size_y: 4.0f32.to_bits(),
    };
    let bytes = w.bytes();
    assert_eq!(bytes.len() as u64, STD140_SIZE);
    let mut expected = Vec::new();
    for word in [
        1.0f32.to_bits(),
        0,
        0,
        0,
        0,
        0.5f32.to_bits(),
        0,
        0,
        0,
        0.25f32.to_bits(),
        1.0f32.to_bits(),
        0,
        8.0f32.to_bits(),
        4.0f32.to_bits(),
    ] {
        expected.extend_from_slice(&word.to_le_bytes());
    }
    assert_eq!(bytes, expected);
}

#[test]
fn test_pixel_format_values() {
    assert_eq!(PixelFormat::Mono8.channels(), 1);
    assert_eq!(PixelFormat::Bgr8.channels(), 3);
    assert_eq!(PixelFormat::Rgb8.channels(), 3);
    assert_eq!(PixelFormat::Rgba8(Alpha::Premultiplied).channels(), 4);
    assert_eq!(PixelFormat::Rgb8.bytes_per_pixel(), 3);
    assert_eq!(PixelFormat::Bgra8(Alpha::Unpremultiplied).bytes_per_pixel(), 4);
    assert_eq!(PixelFormat::Mono8.format_code(), 0);
    assert_eq!(PixelFormat::MonoAlpha8(Alpha::Premultiplied).format_code(), 2);
    assert_eq!(PixelFormat::Bgra8(Alpha::Premultiplied).format_code(), 5);
    assert_eq!(PixelFormat::Rgba8(Alpha::Unpremultiplied).format_code(), 7);
}

#[test]
fn test_image_info_strides() {
    let info = ImageInfo::new(PixelFormat::Rgb8, 640, 480);
    assert_eq!(info.size, Size2 { x: 640, y: 480 });
    assert_eq!(info.stride, Size2 { x: 3, y: 1920 });
}

#[test]
fn test_gpu_image_from_data() {
    let img = RawImage {
        color: PixelFormat::Rgba8(Alpha::Unpremultiplied),
        size: Size2 { x: 3, y: 2 },
        data: vec![7u8; 24],
    };
    let g = GpuImage::from_data("picture".to_owned(), &img).unwrap();
    assert_eq!(g.name(), "picture");
    assert_eq!(g.info().stride, Size2 { x: 4, y: 12 });
    // The stored pixel bytes are the raw image's, unchanged: this is what
    // the one-time GPU upload copies.
    assert_eq!(g.data(), &vec![7u8; 24]);
    let u = g.uniforms();
    assert_eq!(
        *u,
        GpuImageUniforms {
            format: 7,
            width: 3,
            height: 2,
            stride_x: 4,
            stride_y: 12,
        }
    );
}

#[test]
fn test_gpu_image_rejects_wrong_length() {
    let img = RawImage {
        color: PixelFormat::Rgb8,
        size: Size2 { x: 3, y: 2 },
        data: vec![0u8; 17],
    };
    assert_eq!(
        GpuImage::from_data("x".to_owned(), &img).unwrap_err(),
        ImageDataError::WrongDataLength
    );
}

#[test]
fn test_gpu_image_rejects_oversized_row() {
    let img = RawImage {
        color: PixelFormat::Rgba8(Alpha::Premultiplied),
        size: Size2 {
            x: 0x4000_0001,
            y: 1,
        },
        data: Vec::new(),
    };
    assert_eq!(
        GpuImage::from_data("x".to_owned(), &img).unwrap_err(),
        ImageDataError::RowTooWide
    );
}

#[test]
fn test_gpu_image_uniform_bytes() {
    let u = GpuImageUniforms {
        format: 6,
        width: 2,
        height: 3,
        stride_x: 3,
        stride_y: 6,
    };
    let mut expected = Vec::new();
    for word in [6u32, 2, 3, 3, 6] {
        expected.extend_from_slice(&word.to_le_bytes());
    }
    assert_eq!(u.bytes(), expected);
}

#[test]
fn test_colors() {
    assert_eq!(
        Color::black(),
        Color {
            red: 0,
            green: 0,
            blue: 0,
            alpha: 255
        }
    );
    assert_eq!(
        Color::white(),
        Color {
            red: 255,
            green: 255,
            blue: 255,
            alpha: 255
        }
    );
    assert_eq!(Color::rgba(1, 2, 3, 4).alpha, 4);
    assert_eq!(Color::rgb(9, 8, 7).alpha, 255);
}

#[test]
fn test_window_options_defaults() {
    let opts = imvr::window::WindowOptions::new();
    assert!(opts.preserve_aspect_ratio);
    assert_eq!(opts.background_color, Color::black());
    assert!(!opts.start_hidden);
    assert_eq!(opts.size, None);
    assert!(opts.resizable);
    assert!(!opts.borderless);
    assert!(!opts.fullscreen);
    assert!(opts.overlays_visible);
    assert!(opts.default_controls);
    assert_eq!(imvr::window::WindowOptions::default(), opts);
}

#[test]
fn test_frac_helpers() {
    assert_eq!(Frac::one(), Frac { num: 1, den: 1 });
    assert_eq!(Frac::zero(), Frac { num: 0, den: 1 });
    assert_eq!(Size2::new(4, 5), Size2 { x: 4, y: 5 });
}
