use imvr::context::{Context, GlobalContextError, InvalidWindowId};
use imvr::gpu_image::GpuImage;
use imvr::image_info::{PixelFormat, RawImage};
use imvr::reply::ReturnAddress;
use imvr::request::{Action, Request};
use imvr::transform::{Frac, Size2, Transform2};
use imvr::window::WindowOptions;

fn test_image() -> RawImage {
    RawImage {
        color: PixelFormat::Rgb8,
        size: Size2 { x: 2, y: 2 },
        data: vec![0u8; 12],
    }
}

fn open_window(ctx: &mut Context, id: u64, size: Size2) -> u64 {
    let (tx, mut rx) = tokio::sync::oneshot::channel();
    let mut actions = Vec::new();
    let res = ctx.handle_request(
        Request::OpenWindow {
            res: ReturnAddress::Memory(tx),
        },
        &mut actions,
    );
    assert!(res.is_ok());
    assert_eq!(actions.len(), 1);
    // Play the windowing system: build the native window, then register it.
    let reply = match actions.pop().unwrap() {
        Action::CreateWindow { res } => res,
        other => panic!("expected a create-window action, got {:?}", other),
    };
    ctx.create_window(id, size, WindowOptions::new(), reply).unwrap();
    rx.try_recv().unwrap()
}

#[test]
fn test_end_to_end_scenario() {
    let mut ctx = Context::new();
    assert_eq!(ctx.window_count(), 0);
    assert!(!ctx.gpu_ready());

    // Open a window and receive its id over the reply channel.
    let id = open_window(&mut ctx, 1, Size2 { x: 800, y: 600 });
    assert_eq!(id, 1);
    assert_eq!(ctx.window_count(), 1);
    assert!(ctx.gpu_ready());

    // Show an image: the window's image becomes set and its uniforms dirty.
    let mut actions = Vec::new();
    ctx.handle_request(
        Request::ShowImage {
            image: test_image(),
            window_id: 1,
        },
        &mut actions,
    )
    .unwrap();
    assert!(matches!(actions[0], Action::UploadImage { window_id: 1 }));
    assert!(matches!(actions[1], Action::RequestRedraw { window_id: 1 }));
    {
        let w = ctx.get_window(1).unwrap();
        let image = w.image.as_ref().unwrap();
        // The stored image carries the request's pixel bytes for the upload.
        assert_eq!(image.data(), &vec![0u8; 12]);
        assert!(w.uniforms.is_dirty());
    }

    // Redraw: the dirty flag clears, fresh uniforms are staged, one frame
    // is drawn and presented.
    let mut actions = Vec::new();
    ctx.handle_request(Request::Redraw { window_id: 1 }, &mut actions)
        .unwrap();
    assert_eq!(actions.len(), 2);
    assert!(matches!(
        actions[0],
        Action::UploadUniforms { window_id: 1, .. }
    ));
    assert!(matches!(actions[1], Action::Render { window_id: 1 }));
    assert!(!ctx.get_window(1).unwrap().uniforms.is_dirty());

    // Close: the window collection becomes empty.
    let mut actions = Vec::new();
    ctx.handle_request(Request::CloseWindow { window_id: 1 }, &mut actions)
        .unwrap();
    assert_eq!(ctx.window_count(), 0);
    assert!(matches!(actions[0], Action::Exit));

    // A resize naming the closed window id now fails with the
    // invalid-window error.
    let mut actions = Vec::new();
    let res = ctx.handle_request(
        Request::Resize {
            size: Size2 { x: 800, y: 600 },
            window_id: 1,
        },
        &mut actions,
    );
    assert_eq!(res, Err(GlobalContextError::NoMatchingWindow(1)));
    assert!(actions.is_empty());
}

#[test]
fn test_stale_id_safety() {
    let mut ctx = Context::new();
    let mut actions = Vec::new();

    assert_eq!(
        ctx.destroy_window(9),
        Err(InvalidWindowId { window_id: 9 })
    );
    assert_eq!(
        ctx.resize_window(9, Size2 { x: 10, y: 10 }, &mut actions),
        Err(InvalidWindowId { window_id: 9 })
    );
    assert_eq!(
        ctx.render_window(9, &mut actions),
        Err(InvalidWindowId { window_id: 9 })
    );
    assert_eq!(
        ctx.show_image(9, &test_image(), &mut actions),
        Err(GlobalContextError::NoMatchingWindow(9))
    );
    assert!(actions.is_empty());

    // The same holds immediately after a matching close.
    let id = open_window(&mut ctx, 4, Size2 { x: 100, y: 100 });
    assert_eq!(id, 4);
    ctx.destroy_window(4).unwrap();
    assert_eq!(
        ctx.render_window(4, &mut actions),
        Err(InvalidWindowId { window_id: 4 })
    );
    assert!(actions.is_empty());
}

#[test]
fn test_reply_to_gone_requester_keeps_the_window() {
    let mut ctx = Context::new();
    let (tx, rx) = tokio::sync::oneshot::channel::<u64>();
    drop(rx);
    // The reply cannot be delivered, but the window stays registered.
    let res = ctx.create_window(
        1,
        Size2 { x: 10, y: 10 },
        WindowOptions::new(),
        ReturnAddress::Memory(tx),
    );
    assert_eq!(res, Err(GlobalContextError::SendError));
    assert_eq!(ctx.window_count(), 1);
    assert!(ctx.gpu_ready());
}

#[test]
fn test_get_window_with_stale_id() {
    let ctx = Context::new();
    match ctx.get_window(3) {
        Err(GlobalContextError::NoMatchingWindow(3)) => {}
        other => panic!("expected an invalid-window error, got {:?}", other.err()),
    }
}

#[test]
fn test_batch_resizes_before_redrawing() {
    let mut ctx = Context::new();
    let id = open_window(&mut ctx, 2, Size2 { x: 100, y: 100 });
    let mut actions = Vec::new();
    ctx.handle_request(
        Request::ShowImage {
            image: test_image(),
            window_id: id,
        },
        &mut actions,
    )
    .unwrap();

    // A batch of a resize and a redraw: the surface reconfiguration always
    // comes out before any drawing of that batch.
    let mut actions = Vec::new();
    ctx.handle_request(
        Request::Multiple(vec![
            Request::resize(Size2 { x: 640, y: 480 }, id),
            Request::redraw(id),
        ]),
        &mut actions,
    )
    .unwrap();
    assert_eq!(actions.len(), 3);
    assert!(matches!(
        actions[0],
        Action::ConfigureSurface {
            window_id: 2,
            size: Size2 { x: 640, y: 480 }
        }
    ));
    assert!(matches!(
        actions[1],
        Action::UploadUniforms { window_id: 2, .. }
    ));
    assert!(matches!(actions[2], Action::Render { window_id: 2 }));
}

#[test]
fn test_batch_continues_after_failure_and_reports_first_error() {
    let mut ctx = Context::new();
    let id = open_window(&mut ctx, 3, Size2 { x: 50, y: 50 });
    let mut actions = Vec::new();
    let res = ctx.handle_request(
        Request::Multiple(vec![
            Request::redraw(77),
            Request::resize(Size2 { x: 30, y: 40 }, id),
        ]),
        &mut actions,
    );
    // The stale redraw fails, but the resize after it still ran.
    assert_eq!(res, Err(GlobalContextError::NoMatchingWindow(77)));
    assert_eq!(actions.len(), 1);
    assert!(matches!(
        actions[0],
        Action::ConfigureSurface { window_id: 3, .. }
    ));
    assert_eq!(ctx.get_window(3).unwrap().size, Size2 { x: 30, y: 40 });
}

#[test]
fn test_zero_size_resize_is_ignored() {
    let mut ctx = Context::new();
    let id = open_window(&mut ctx, 5, Size2 { x: 50, y: 50 });
    let mut actions = Vec::new();
    ctx.handle_request(
        Request::Resize {
            size: Size2 { x: 0, y: 13 },
            window_id: id,
        },
        &mut actions,
    )
    .unwrap();
    assert!(actions.is_empty());
    assert_eq!(ctx.get_window(id).unwrap().size, Size2 { x: 50, y: 50 });
    assert!(!ctx.get_window(id).unwrap().uniforms.is_dirty());
}

#[test]
fn test_redraw_without_image_draws_nothing() {
    let mut ctx = Context::new();
    let id = open_window(&mut ctx, 6, Size2 { x: 50, y: 50 });
    let mut actions = Vec::new();
    ctx.handle_request(Request::Redraw { window_id: id }, &mut actions)
        .unwrap();
    assert!(actions.is_empty());
}

#[test]
fn test_exit_and_tick() {
    let mut ctx = Context::new();
    let mut actions = Vec::new();
    ctx.handle_request(Request::Exit, &mut actions).unwrap();
    assert_eq!(actions.len(), 1);
    assert!(matches!(actions[0], Action::Exit));

    let mut actions = Vec::new();
    ctx.handle_request(Request::Tick, &mut actions).unwrap();
    assert!(actions.is_empty());
}

#[test]
fn test_bad_image_data_is_rejected() {
    let mut ctx = Context::new();
    let id = open_window(&mut ctx, 7, Size2 { x: 50, y: 50 });
    let mut actions = Vec::new();
    let bad = RawImage {
        color: PixelFormat::Rgb8,
        size: Size2 { x: 2, y: 2 },
        data: vec![0u8; 11],
    };
    let res = ctx.show_image(id, &bad, &mut actions);
    assert_eq!(
        res,
        Err(GlobalContextError::BadImage(
            imvr::gpu_image::ImageDataError::WrongDataLength
        ))
    );
    // The prior state is untouched: still no image, uniforms still clean.
    assert!(ctx.get_window(id).unwrap().image.is_none());
    assert!(!ctx.get_window(id).unwrap().uniforms.is_dirty());
}

#[test]
fn test_redraw_stages_the_fitted_uniforms() {
    let mut ctx = Context::new();
    let id = open_window(&mut ctx, 8, Size2 { x: 800, y: 600 });
    let mut actions = Vec::new();
    ctx.handle_request(
        Request::ShowImage {
            image: RawImage {
                color: PixelFormat::Rgb8,
                size: Size2 { x: 400, y: 400 },
                data: vec![0u8; 400 * 400 * 3],
            },
            window_id: id,
        },
        &mut actions,
    )
    .unwrap();
    let mut actions = Vec::new();
    ctx.handle_request(Request::Redraw { window_id: id }, &mut actions)
        .unwrap();
    // The staged value is the aspect fit with the identity applied on top:
    // x is scaled by 3/4 and centred by 1/8, y fills the window.
    let staged = *ctx.get_window(id).unwrap().uniforms.value();
    let t = staged.transform;
    assert_eq!(t.sx.num * 4, t.sx.den * 3);
    assert_eq!(t.sy.num, t.sy.den);
    assert_eq!(t.tx.num * 8, t.tx.den);
    assert_eq!(t.ty.num, 0);
    assert_eq!(staged.image_size, Size2 { x: 400, y: 400 });
    // What the upload action carries is exactly what was staged.
    match &actions[0] {
        Action::UploadUniforms { uniforms, .. } => assert_eq!(*uniforms, staged),
        other => panic!("expected a uniform upload, got {:?}", other),
    }
}

#[test]
fn test_stretched_window_ignores_aspect_ratio() {
    // A window created without aspect-ratio preservation stretches the
    // image over the window: identity transform whatever the sizes.
    let mut ctx = Context::new();
    let (tx, mut rx) = tokio::sync::oneshot::channel();
    let mut actions = Vec::new();
    ctx.handle_request(
        Request::OpenWindow {
            res: ReturnAddress::Memory(tx),
        },
        &mut actions,
    )
    .unwrap();
    let reply = match actions.pop().unwrap() {
        Action::CreateWindow { res } => res,
        other => panic!("expected a create-window action, got {:?}", other),
    };
    let options = WindowOptions {
        preserve_aspect_ratio: false,
        ..WindowOptions::new()
    };
    ctx.create_window(9, Size2 { x: 800, y: 600 }, options, reply)
        .unwrap();
    assert_eq!(rx.try_recv().unwrap(), 9);

    let mut actions = Vec::new();
    ctx.handle_request(
        Request::ShowImage {
            image: RawImage {
                color: PixelFormat::Rgb8,
                size: Size2 { x: 400, y: 400 },
                data: vec![0u8; 400 * 400 * 3],
            },
            window_id: 9,
        },
        &mut actions,
    )
    .unwrap();
    let mut actions = Vec::new();
    ctx.handle_request(Request::Redraw { window_id: 9 }, &mut actions)
        .unwrap();
    let staged = *ctx.get_window(9).unwrap().uniforms.value();
    let t = staged.transform;
    assert_eq!(t.sx.num, t.sx.den);
    assert_eq!(t.sy.num, t.sy.den);
    assert_eq!(t.tx.num, 0);
    assert_eq!(t.ty.num, 0);
    assert_eq!(staged.image_size, Size2 { x: 400, y: 400 });
}

#[test]
fn test_set_transform_applies_on_the_next_draw() {
    let mut ctx = Context::new();
    let id = open_window(&mut ctx, 10, Size2 { x: 400, y: 400 });
    let mut actions = Vec::new();
    ctx.handle_request(
        Request::ShowImage {
            image: RawImage {
                color: PixelFormat::Rgb8,
                size: Size2 { x: 400, y: 400 },
                data: vec![0u8; 400 * 400 * 3],
            },
            window_id: id,
        },
        &mut actions,
    )
    .unwrap();
    // Scale to a half and shift by a quarter, on top of the (identity) fit.
    let user = Transform2 {
        sx: Frac { num: 1, den: 2 },
        sy: Frac { num: 1, den: 2 },
        tx: Frac { num: 1, den: 4 },
        ty: Frac { num: 1, den: 4 },
    };
    let mut actions = Vec::new();
    ctx.set_transform(id, user, &mut actions).unwrap();
    assert!(matches!(actions[0], Action::RequestRedraw { window_id: 10 }));
    assert!(ctx.get_window(id).unwrap().uniforms.is_dirty());

    let mut actions = Vec::new();
    ctx.handle_request(Request::Redraw { window_id: id }, &mut actions)
        .unwrap();
    let staged = *ctx.get_window(id).unwrap().uniforms.value();
    let t = staged.transform;
    // The staged transform denotes scale 1/2 and translation 1/4 per axis.
    assert_eq!(t.sx.num * 2, t.sx.den);
    assert_eq!(t.sy.num * 2, t.sy.den);
    assert_eq!(t.tx.num * 4, t.tx.den);
    assert_eq!(t.ty.num * 4, t.ty.den);
    // A stale transform id fails with the invalid-window error.
    let mut actions = Vec::new();
    assert_eq!(
        ctx.set_transform(77, user, &mut actions),
        Err(InvalidWindowId { window_id: 77 })
    );
}

#[test]
fn test_overlays_keep_their_drawing_order() {
    let mut ctx = Context::new();
    open_window(&mut ctx, 11, Size2 { x: 100, y: 100 });
    let marker = GpuImage::from_data("marker".to_owned(), &test_image()).unwrap();
    let cursor = GpuImage::from_data("cursor".to_owned(), &test_image()).unwrap();

    // Two overlays, set in order; each set orders a redraw.
    let mut actions = Vec::new();
    {
        let w = &mut ctx.windows[0];
        w.set_overlay("marker".to_owned(), marker.clone(), true, &mut actions);
        w.set_overlay("cursor".to_owned(), cursor.clone(), false, &mut actions);
        assert_eq!(actions.len(), 2);
        assert!(matches!(actions[0], Action::RequestRedraw { window_id: 11 }));
        assert_eq!(w.overlays.len(), 2);
        assert_eq!(w.overlays[0].name, "marker");
        assert_eq!(w.overlays[1].name, "cursor");
        assert!(!w.overlays[1].visible);

        // Replacing a known name keeps its place in the drawing order.
        w.set_overlay("marker".to_owned(), cursor.clone(), false, &mut actions);
        assert_eq!(w.overlays.len(), 2);
        assert_eq!(w.overlays[0].name, "marker");
        assert_eq!(w.overlays[0].image.name(), "cursor");
        assert!(!w.overlays[0].visible);
        assert_eq!(w.overlays[1].name, "cursor");
    }
}

#[test]
fn test_error_helpers() {
    assert!(!GlobalContextError::SendError.is_fatal());
    assert!(GlobalContextError::Fatal.is_fatal());
    assert!(!GlobalContextError::SendError.message().is_empty());
}
