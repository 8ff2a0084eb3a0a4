use vstd::prelude::*;

use crate::image_info::RawImage;
use crate::reply::ReturnAddress;
use crate::transform::Size2;
use crate::uniforms::WindowUniforms;

verus! {

/// The closed message vocabulary the dispatcher consumes. A request is
/// movable across threads but never shared: exactly one consumer, the
/// dispatcher, executes it.
#[derive(Debug)]
pub enum Request {
    /// Execute the member requests depth-first, in list order.
    Multiple(Vec<Request>),
    /// Show a decoded image in the given window.
    ShowImage { image: RawImage, window_id: u64 },
    /// Open a new window and send its id to the given return address.
    OpenWindow { res: ReturnAddress },
    /// Close the given window.
    CloseWindow { window_id: u64 },
    /// Shut the viewer down.
    Exit,
    /// The given window's surface was resized.
    Resize { size: Size2, window_id: u64 },
    /// Redraw the given window.
    Redraw { window_id: u64 },
    /// A keep-alive heartbeat; the dispatcher does nothing with it.
    Tick,
}

/// What the dispatcher asks its caller to carry out on the windowing system
/// and the rendering backend. Actions come out in the order they are to be
/// performed.
#[derive(Debug)]
pub enum Action {
    /// Build a native window with a surface, then call the dispatcher back
    /// to register it, handing it this reply address for the new id.
    CreateWindow { res: ReturnAddress },
    /// Reconfigure the given window's surface for the new size.
    ConfigureSurface { window_id: u64, size: Size2 },
    /// Copy these fresh uniform values into the window's GPU uniform buffer,
    /// in place: the buffer itself, and so its bind group, must survive.
    UploadUniforms { window_id: u64, uniforms: WindowUniforms },
    /// Create the GPU-side buffers for the window's newly set image, from
    /// the pixel bytes and uniform values stored with that image.
    UploadImage { window_id: u64 },
    /// Draw the window's layers into its next frame and present it.
    Render { window_id: u64 },
    /// Ask the windowing system to schedule a redraw of the window.
    RequestRedraw { window_id: u64 },
    /// Stop the event loop and shut down.
    Exit,
}

impl Request {
    pub fn redraw(window_id: u64) -> (r: Request)
        ensures
            r == (Request::Redraw { window_id }),
    {
        Request::Redraw { window_id }
    }

    pub fn resize(size: Size2, window_id: u64) -> (r: Request)
        ensures
            r == (Request::Resize { size, window_id }),
    {
        Request::Resize { size, window_id }
    }

    pub fn close(window_id: u64) -> (r: Request)
        ensures
            r == (Request::CloseWindow { window_id }),
    {
        Request::CloseWindow { window_id }
    }
}

} // verus!
