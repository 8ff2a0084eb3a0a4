use vstd::prelude::*;

use crate::color::Color;
use crate::gpu_image::{GpuImage, ImageDataError, ImageModel};
use crate::image_info::RawImage;
use crate::request::Action;
use crate::transform::{spec_bounded, lemma_compose_fits, Size2, Transform2};
use crate::uniforms::{lemma_fit_bounded, UniformsBuffer, WindowUniforms};

verus! {

/// Options for creating a new window.
#[derive(Clone, Copy, Debug, PartialEq, Eq, Structural)]
pub struct WindowOptions {
    /// Preserve the aspect ratio of the image when scaling.
    pub preserve_aspect_ratio: bool,
    /// The background color for the window, used to color the areas without
    /// image data when `preserve_aspect_ratio` is true.
    pub background_color: Color,
    /// Create the window hidden; it can be made visible later.
    pub start_hidden: bool,
    /// The initial inner size of the window in pixels, if any is asked for.
    /// The window manager may ignore it.
    pub size: Option<Size2>,
    /// Allow the window to be resized. The window manager may ignore it.
    pub resizable: bool,
    /// Make the window borderless. The window manager may ignore it.
    pub borderless: bool,
    /// Make the window fullscreen. The window manager may ignore it.
    pub fullscreen: bool,
    /// Draw overlays on the image.
    pub overlays_visible: bool,
    /// Enable the default mouse controls for panning and zooming.
    pub default_controls: bool,
}

impl WindowOptions {
    pub open spec fn spec_new() -> WindowOptions {
        WindowOptions {
            preserve_aspect_ratio: true,
            background_color: Color { red: 0, green: 0, blue: 0, alpha: 255 },
            start_hidden: false,
            size: None,
            resizable: true,
            borderless: false,
            fullscreen: false,
            overlays_visible: true,
            default_controls: true,
        }
    }

    /// Create new window options with default values: a resizable, visible,
    /// decorated window that preserves the image's aspect ratio over a black
    /// background.
    pub fn new() -> (r: WindowOptions)
        ensures
            r == WindowOptions::spec_new(),
    {
        WindowOptions {
            preserve_aspect_ratio: true,
            background_color: Color::black(),
            start_hidden: false,
            size: None,
            resizable: true,
            borderless: false,
            fullscreen: false,
            overlays_visible: true,
            default_controls: true,
        }
    }
}

impl Default for WindowOptions {
    fn default() -> (r: WindowOptions)
        ensures
            r == WindowOptions::spec_new(),
    {
        WindowOptions::new()
    }
}

/// An overlay drawn on top of a window's image: a named extra layer that
/// can be shown or hidden without touching the base image.
#[derive(Clone, Debug)]
pub struct Overlay {
    /// The overlay's name; one overlay per name and window.
    pub name: String,
    /// The image the overlay shows.
    pub image: GpuImage,
    /// If true, show the overlay, otherwise do not.
    pub visible: bool,
}

/// An overlay's state as a mathematical value.
#[verifier::ext_equal]
pub ghost struct OverlayModel {
    pub name: Seq<char>,
    pub image: ImageModel,
    pub visible: bool,
}

impl View for Overlay {
    type V = OverlayModel;

    open spec fn view(&self) -> OverlayModel {
        OverlayModel { name: self.name@, image: self.image@, visible: self.visible }
    }
}

/// A window as the dispatcher sees it: the state that decides what is drawn.
/// The native window handle, the surface and the GPU buffers live with the
/// caller, filed under the same window id; every mutation of them is ordered
/// by an `Action` this state machine emits.
pub struct Window {
    /// The id the windowing system assigned to this window.
    pub id: u64,
    /// If true, preserve the aspect ratio of images.
    pub preserve_aspect_ratio: bool,
    /// The background color of the window.
    pub background_color: Color,
    /// The inner size of the window, in physical pixels, as last reported.
    pub size: Size2,
    /// The window-specific uniforms for the render pipeline.
    pub uniforms: UniformsBuffer,
    /// The image to display (if any).
    pub image: Option<GpuImage>,
    /// If true, draw the overlays over the image.
    pub overlays_visible: bool,
    /// Overlays for the window, in the order they were first set.
    pub overlays: Vec<Overlay>,
    /// Transformation to apply to the image, in virtual window space, which
    /// goes from (0, 0) in the top left to (1, 1) in the bottom right.
    pub user_transform: Transform2,
}

/// The window's state as a mathematical value.
#[verifier::ext_equal]
pub ghost struct WindowModel {
    pub id: u64,
    pub preserve_aspect_ratio: bool,
    pub background_color: Color,
    pub size: Size2,
    pub dirty: bool,
    pub uniforms: WindowUniforms,
    pub image: Option<ImageModel>,
    pub overlays_visible: bool,
    pub overlays: Seq<OverlayModel>,
    pub user_transform: Transform2,
}

impl View for Window {
    type V = WindowModel;

    open spec fn view(&self) -> WindowModel {
        WindowModel {
            id: self.id,
            preserve_aspect_ratio: self.preserve_aspect_ratio,
            background_color: self.background_color,
            size: self.size,
            dirty: self.uniforms.spec_is_dirty(),
            uniforms: self.uniforms.spec_value(),
            image: match self.image {
                Some(g) => Some(g@),
                None => None,
            },
            overlays_visible: self.overlays_visible,
            overlays: self.overlays@.map_values(|o: Overlay| o@),
            user_transform: self.user_transform,
        }
    }
}

impl WindowModel {
    /// The user transform stays a well-formed, small rational — it starts as
    /// the identity and the library never grows it — every held image is
    /// well formed, and overlay names are unique.
    pub open spec fn wf(self) -> bool {
        &&& self.user_transform.wf()
        &&& spec_bounded(self.user_transform, 0x1_0000)
        &&& self.image matches Some(m) ==> m.wf()
        &&& forall|i: int, j: int|
            0 <= i < j < self.overlays.len() ==> #[trigger] self.overlays[i].name
                != #[trigger] self.overlays[j].name
        &&& forall|i: int| 0 <= i < self.overlays.len() ==> (#[trigger] self.overlays[i]).image.wf()
    }

    /// An overlay with this name is present.
    pub open spec fn has_overlay(self, name: Seq<char>) -> bool {
        exists|i: int|
            0 <= i < self.overlays.len() && #[trigger] self.overlays[i].name == name
    }

    /// The position of the overlay with this name (meaningful when present,
    /// unambiguous because names are unique).
    pub open spec fn overlay_index_of(self, name: Seq<char>) -> int {
        choose|i: int| 0 <= i < self.overlays.len() && #[trigger] self.overlays[i].name == name
    }

    /// The layers one draw of this window paints, in order: the base image
    /// first, then — when overlays are shown at all — each visible overlay
    /// in the order it was first set.
    pub open spec fn spec_layers(self) -> Seq<ImageModel> {
        let base: Seq<ImageModel> = match self.image {
            Some(m) => seq![m],
            None => Seq::empty(),
        };
        if self.overlays_visible {
            base + self.overlays.filter(|o: OverlayModel| o.visible).map_values(
                |o: OverlayModel| o.image,
            )
        } else {
            base
        }
    }

    /// A freshly created window: no image, clean zeroed uniforms, identity
    /// transform, with the aspect-ratio policy and background color the
    /// options ask for.
    pub open spec fn spec_new(id: u64, size: Size2, options: WindowOptions) -> WindowModel {
        WindowModel {
            id,
            preserve_aspect_ratio: options.preserve_aspect_ratio,
            background_color: options.background_color,
            size,
            dirty: false,
            uniforms: WindowUniforms::spec_no_image(),
            image: None,
            overlays_visible: options.overlays_visible,
            overlays: Seq::empty(),
            user_transform: Transform2::spec_identity(),
        }
    }

    /// The uniforms the window's state calls for. With an image and both
    /// sizes known, fit it preserving the aspect ratio if asked, else
    /// stretch it; in both cases the user transform is applied on top. With
    /// no image the uniforms carry the user transform and a zero size.
    pub open spec fn spec_calculate_uniforms(self) -> WindowUniforms {
        match self.image {
            Some(img) => {
                let image_size = img.info.size;
                if self.preserve_aspect_ratio && self.size.x > 0 && self.size.y > 0 && image_size.x
                    > 0 && image_size.y > 0 {
                    WindowUniforms {
                        transform: Transform2::spec_compose(
                            self.user_transform,
                            WindowUniforms::spec_fit(self.size, image_size).transform,
                        ),
                        image_size,
                    }
                } else {
                    WindowUniforms {
                        transform: Transform2::spec_compose(
                            self.user_transform,
                            Transform2::spec_identity(),
                        ),
                        image_size,
                    }
                }
            },
            None => WindowUniforms {
                transform: self.user_transform,
                image_size: Size2 { x: 0, y: 0 },
            },
        }
    }

    /// The window after a resize: the new size is recorded and the uniforms
    /// are stale.
    pub open spec fn spec_resized(self, size: Size2) -> WindowModel {
        WindowModel { size, dirty: true, ..self }
    }

    /// The window after a render. Without an image nothing happens. With
    /// one, stale uniforms are freshly computed and staged — so the flag is
    /// clear afterwards — and clean uniforms are used as they are.
    pub open spec fn spec_rendered(self) -> WindowModel {
        if self.image is Some && self.dirty {
            WindowModel { dirty: false, uniforms: self.spec_calculate_uniforms(), ..self }
        } else {
            self
        }
    }

    /// The actions a render emits: nothing without an image; a fresh-uniform
    /// upload, if they were stale, then one draw-and-present.
    pub open spec fn spec_render_actions(self) -> Seq<Action> {
        if self.image is Some {
            if self.dirty {
                seq![
                    Action::UploadUniforms {
                        window_id: self.id,
                        uniforms: self.spec_calculate_uniforms(),
                    },
                    Action::Render { window_id: self.id },
                ]
            } else {
                seq![Action::Render { window_id: self.id }]
            }
        } else {
            Seq::empty()
        }
    }

    /// The window after an image is set: the image is stored and the
    /// uniforms are stale.
    pub open spec fn spec_with_image(self, img: ImageModel) -> WindowModel {
        WindowModel { image: Some(img), dirty: true, ..self }
    }
}

/// A draw changes no layer: rendering only stages fresh uniform values and
/// clears the dirty flag, so what is painted — the base image and the
/// visible overlays, in order — is the same before and after.
pub proof fn lemma_render_keeps_layers(w: WindowModel)
    ensures
        w.spec_rendered().spec_layers() == w.spec_layers(),
{
}

proof fn lemma_overlay_index_unique(m: WindowModel, i: int, name: Seq<char>)
    requires
        m.wf(),
        0 <= i < m.overlays.len(),
        m.overlays[i].name == name,
    ensures
        m.has_overlay(name),
        m.overlay_index_of(name) == i,
{
    assert(m.has_overlay(name));
    let j = m.overlay_index_of(name);
    if i < j {
        assert(m.overlays[i].name != m.overlays[j].name);
    } else if j < i {
        assert(m.overlays[j].name != m.overlays[i].name);
    }
}

impl Window {
    /// A freshly registered window of the given id and inner size, set up
    /// as the options ask.
    pub fn new(id: u64, size: Size2, options: WindowOptions) -> (r: Window)
        ensures
            r@ == WindowModel::spec_new(id, size, options),
            r@.wf(),
    {
        let w = Window {
            id,
            preserve_aspect_ratio: options.preserve_aspect_ratio,
            background_color: options.background_color,
            size,
            uniforms: UniformsBuffer::from_value(WindowUniforms::no_image()),
            image: None,
            overlays_visible: options.overlays_visible,
            overlays: Vec::new(),
            user_transform: Transform2::identity(),
        };
        proof {
            assert(w@.overlays =~= Seq::<OverlayModel>::empty());
            assert(w@ =~= WindowModel::spec_new(id, size, options));
        }
        w
    }

    /// Get the window ID.
    pub fn id(&self) -> (r: u64)
        ensures
            r == self@.id,
    {
        self.id
    }

    /// Recalculate the uniforms for the render pipeline from the window
    /// state.
    pub fn calculate_uniforms(&self) -> (r: WindowUniforms)
        requires
            self@.wf(),
        ensures
            r == self@.spec_calculate_uniforms(),
    {
        match &self.image {
            Some(image) => {
                let image_size = image.info().size;
                let base = if self.preserve_aspect_ratio && self.size.x > 0 && self.size.y > 0
                    && image_size.x > 0 && image_size.y > 0 {
                    proof {
                        lemma_fit_bounded(self.size, image_size);
                        lemma_compose_fits(
                            self.user_transform,
                            WindowUniforms::spec_fit(self.size, image_size).transform,
                        );
                    }
                    WindowUniforms::fit(self.size, image_size)
                } else {
                    proof {
                        lemma_compose_fits(self.user_transform, Transform2::spec_identity());
                    }
                    WindowUniforms::stretch(image_size)
                };
                base.pre_apply_transform(self.user_transform)
            },
            None => WindowUniforms {
                transform: self.user_transform,
                image_size: Size2 { x: 0, y: 0 },
            },
        }
    }

    /// Get the image transformation, in virtual window space.
    pub fn transform(&self) -> (r: Transform2)
        ensures
            r == self@.user_transform,
    {
        self.user_transform
    }

    /// Set the image transformation: the image and any overlays move with
    /// it on the next draw, so the uniforms are stale and a redraw is
    /// ordered. The transform must be a well-formed, small rational, which
    /// keeps every later uniform calculation within the machine range.
    pub fn set_transform(&mut self, transform: Transform2, actions: &mut Vec<Action>)
        requires
            transform.wf(),
            spec_bounded(transform, 0x1_0000),
        ensures
            final(self)@ == (WindowModel {
                user_transform: transform,
                dirty: true,
                ..old(self)@
            }),
            final(actions)@ == old(actions)@.push(
                Action::RequestRedraw { window_id: old(self)@.id },
            ),
    {
        self.user_transform = transform;
        self.uniforms.mark_dirty(true);
        actions.push(Action::RequestRedraw { window_id: self.id });
    }

    /// Add or replace the overlay of the given name and order a redraw.
    /// A known name keeps its place, so the drawing order of the other
    /// overlays never shifts; a new name is drawn after all existing ones.
    pub fn set_overlay(
        &mut self,
        name: String,
        image: GpuImage,
        visible: bool,
        actions: &mut Vec<Action>,
    )
        requires
            old(self)@.wf(),
            image@.wf(),
        ensures
            final(self)@.wf(),
            ({
                let entry = OverlayModel { name: name@, image: image@, visible };
                if old(self)@.has_overlay(name@) {
                    final(self)@ == (WindowModel {
                        overlays: old(self)@.overlays.update(
                            old(self)@.overlay_index_of(name@),
                            entry,
                        ),
                        ..old(self)@
                    })
                } else {
                    final(self)@ == (WindowModel {
                        overlays: old(self)@.overlays.push(entry),
                        ..old(self)@
                    })
                }
            }),
            final(actions)@ == old(actions)@.push(
                Action::RequestRedraw { window_id: old(self)@.id },
            ),
    {
        let fresh = Overlay { name, image, visible };
        let ghost entry = fresh@;
        let n = self.overlays.len();
        let mut i: usize = 0;
        while i < n
            invariant
                n == self.overlays@.len(),
                i <= n,
                self@ == old(self)@,
                self@.wf(),
                actions@ == old(actions)@,
                fresh@ == entry,
                entry == (OverlayModel { name: name@, image: image@, visible }),
                entry.image.wf(),
                forall|k: int| 0 <= k < i ==> #[trigger] self@.overlays[k].name != name@,
            decreases n - i,
        {
            if self.overlays[i].name == fresh.name {
                proof {
                    lemma_overlay_index_unique(self@, i as int, name@);
                }
                let ghost pre = self@;
                self.overlays[i] = fresh;
                proof {
                    assert(self@.overlays =~= pre.overlays.update(i as int, entry));
                    assert(self@ =~= (WindowModel {
                        overlays: pre.overlays.update(pre.overlay_index_of(name@), entry),
                        ..pre
                    }));
                    assert forall|a: int, b: int| 0 <= a < b < self@.overlays.len() implies
                        #[trigger] self@.overlays[a].name != #[trigger] self@.overlays[b].name by {
                        assert(pre.overlays[a].name != pre.overlays[b].name);
                    }
                    assert forall|a: int| 0 <= a < self@.overlays.len() implies (
                    #[trigger] self@.overlays[a]).image.wf() by {
                        if a != i as int {
                            assert(self@.overlays[a] == pre.overlays[a]);
                            assert(pre.overlays[a].image.wf());
                        }
                    }
                }
                actions.push(Action::RequestRedraw { window_id: self.id });
                return ;
            }
            i = i + 1;
        }
        let ghost pre = self@;
        self.overlays.push(fresh);
        proof {
            assert(self@.overlays =~= pre.overlays.push(entry));
            assert(self@ =~= (WindowModel { overlays: pre.overlays.push(entry), ..pre }));
            assert forall|a: int, b: int| 0 <= a < b < self@.overlays.len() implies
                #[trigger] self@.overlays[a].name != #[trigger] self@.overlays[b].name by {
                if b + 1 < self@.overlays.len() {
                    assert(self@.overlays[a] == pre.overlays[a]);
                    assert(self@.overlays[b] == pre.overlays[b]);
                    assert(pre.overlays[a].name != pre.overlays[b].name);
                } else {
                    assert(self@.overlays[a] == pre.overlays[a]);
                    assert(pre.overlays[a].name != name@);
                }
            }
            assert forall|a: int| 0 <= a < self@.overlays.len() implies (
            #[trigger] self@.overlays[a]).image.wf() by {
                if a + 1 < self@.overlays.len() {
                    assert(self@.overlays[a] == pre.overlays[a]);
                    assert(pre.overlays[a].image.wf());
                }
            }
        }
        actions.push(Action::RequestRedraw { window_id: self.id });
    }

    /// Record a resize: remember the new size, mark the uniforms stale and
    /// order the surface reconfigured. Zero sizes are the caller's to filter.
    pub fn resize(&mut self, size: Size2, actions: &mut Vec<Action>)
        requires
            size.x > 0,
            size.y > 0,
        ensures
            final(self)@ == old(self)@.spec_resized(size),
            final(actions)@ == old(actions)@.push(
                Action::ConfigureSurface { window_id: old(self)@.id, size },
            ),
    {
        self.size = size;
        self.uniforms.mark_dirty(true);
        actions.push(Action::ConfigureSurface { window_id: self.id, size });
    }

    /// Render the window: with an image, stage fresh uniforms if the flag
    /// says they are stale, then order one draw-and-present. Without an
    /// image do nothing.
    pub fn render(&mut self, actions: &mut Vec<Action>)
        requires
            old(self)@.wf(),
        ensures
            final(self)@ == old(self)@.spec_rendered(),
            final(actions)@ == old(actions)@ + old(self)@.spec_render_actions(),
    {
        if self.image.is_none() {
            assert(actions@ =~= old(actions)@ + old(self)@.spec_render_actions());
            return ;
        }
        if self.uniforms.is_dirty() {
            let fresh = self.calculate_uniforms();
            self.uniforms.update_from(&fresh);
            actions.push(Action::UploadUniforms { window_id: self.id, uniforms: fresh });
        }
        actions.push(Action::Render { window_id: self.id });
        assert(actions@ =~= old(actions)@ + old(self)@.spec_render_actions());
    }

    /// Show a decoded image in this window: build its GPU-side description,
    /// store it, mark the uniforms stale, and order the pixel upload and a
    /// redraw. Fails, leaving the window untouched, exactly when the data
    /// does not match its declared format and size.
    pub fn set_image(&mut self, image: &RawImage, actions: &mut Vec<Action>) -> (r: Result<
        (),
        ImageDataError,
    >)
        ensures
            r is Ok <==> GpuImage::data_fits(*image),
            r is Ok ==> {
                &&& final(self)@ == old(self)@.spec_with_image(
                    ImageModel::spec_from_raw("imvr_gpu_image"@, *image),
                )
                &&& final(actions)@ == old(actions)@ + seq![
                    Action::UploadImage { window_id: old(self)@.id },
                    Action::RequestRedraw { window_id: old(self)@.id },
                ]
            },
            r matches Err(e) ==> {
                &&& final(self)@ == old(self)@
                &&& final(actions)@ == old(actions)@
                &&& e == ImageModel::spec_raw_error(*image)
            },
    {
        let name: String = "imvr_gpu_image".to_owned();
        let gpu_im = match GpuImage::from_data(name, image) {
            Ok(g) => g,
            Err(e) => {
                return Err(e);
            },
        };
        self.image = Some(gpu_im);
        self.uniforms.mark_dirty(true);
        actions.push(Action::UploadImage { window_id: self.id });
        actions.push(Action::RequestRedraw { window_id: self.id });
        proof {
            assert(actions@ =~= old(actions)@ + seq![
                Action::UploadImage { window_id: old(self)@.id },
                Action::RequestRedraw { window_id: old(self)@.id },
            ]);
        }
        Ok(())
    }
}

} // verus!
