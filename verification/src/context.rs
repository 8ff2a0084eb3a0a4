use vstd::prelude::*;

use crate::gpu_image::{GpuImage, ImageDataError, ImageModel};
use crate::image_info::RawImage;
use crate::reply::ReturnAddress;
use crate::request::{Action, Request};
use crate::transform::Size2;
use crate::window::{Window, WindowModel, WindowOptions};

verus! {

/// A request named a window the dispatcher does not hold — most often one
/// that was already closed. The request fails; the dispatcher keeps running.
#[derive(Clone, Copy, Debug, PartialEq, Eq, Structural)]
pub struct InvalidWindowId {
    pub window_id: u64,
}

/// Why the dispatcher could not carry a request out.
#[derive(Clone, Copy, Debug, PartialEq, Eq, Structural)]
pub enum GlobalContextError {
    /// An unrecoverable failure; the caller should stop the event loop.
    Fatal,
    /// The id of a newly opened window could not be sent back to the
    /// requester.
    SendError,
    /// No window with the given id exists.
    NoMatchingWindow(u64),
    /// An image's data did not match its declared format and size.
    BadImage(ImageDataError),
}

impl GlobalContextError {
    /// Returns true if this error should halt execution.
    pub fn is_fatal(&self) -> (r: bool)
        ensures
            r == (*self is Fatal),
    {
        matches!(self, GlobalContextError::Fatal)
    }

    /// A short description of the failure.
    pub fn message(&self) -> (r: &'static str)
        ensures
            r@.len() > 0,
    {
        let s: &'static str = match self {
            GlobalContextError::Fatal => "fatal error, see trace",
            GlobalContextError::SendError => "unable to send data back to requester",
            GlobalContextError::NoMatchingWindow(_) => "no matching window for id",
            GlobalContextError::BadImage(_) => "image data does not match its declared size",
        };
        proof {
            reveal_strlit("fatal error, see trace");
            reveal_strlit("unable to send data back to requester");
            reveal_strlit("no matching window for id");
            reveal_strlit("image data does not match its declared size");
        }
        s
    }
}

/// The dispatcher's state as a mathematical value: the windows it holds, in
/// creation order, and whether the shared GPU context exists yet.
#[verifier::ext_equal]
pub ghost struct ContextModel {
    pub windows: Seq<WindowModel>,
    pub gpu_ready: bool,
}

impl ContextModel {
    /// A window with this id is present.
    pub open spec fn has_window(self, window_id: u64) -> bool {
        exists|i: int|
            0 <= i < self.windows.len() && #[trigger] self.windows[i].id == window_id
    }

    /// The position of the window with this id (meaningful when present,
    /// unambiguous because ids are unique).
    pub open spec fn index_of(self, window_id: u64) -> int {
        choose|i: int| 0 <= i < self.windows.len() && #[trigger] self.windows[i].id == window_id
    }

    /// Window ids are unique, every window is well formed, and the GPU
    /// context exists as soon as any window does (it is created with the
    /// first and never torn down while windows remain).
    pub open spec fn wf(self) -> bool {
        &&& forall|i: int, j: int|
            0 <= i < j < self.windows.len() ==> #[trigger] self.windows[i].id
                != #[trigger] self.windows[j].id
        &&& forall|i: int| 0 <= i < self.windows.len() ==> (#[trigger] self.windows[i]).wf()
        &&& self.windows.len() > 0 ==> self.gpu_ready
    }

    /// This state with one window's state replaced.
    pub open spec fn update_window(self, i: int, w: WindowModel) -> ContextModel {
        ContextModel { windows: self.windows.update(i, w), ..self }
    }

    /// This state with one window removed.
    pub open spec fn remove_window(self, i: int) -> ContextModel {
        ContextModel { windows: self.windows.remove(i), ..self }
    }
}

/// What one request does to the dispatcher: the state it leaves behind, the
/// actions the caller is to perform, in order, and the request's outcome.
#[verifier::ext_equal]
pub ghost struct StepResult {
    pub post: ContextModel,
    pub actions: Seq<Action>,
    pub result: Result<(), GlobalContextError>,
}

/// What the dispatcher does with one request. `Multiple` runs its members
/// depth-first in list order; a member's failure does not stop the ones
/// after it, and the first failure is the batch's outcome.
pub open spec fn spec_step(pre: ContextModel, req: Request) -> StepResult
    decreases req,
{
    match req {
        Request::Multiple(reqs) => spec_step_seq(pre, reqs@),
        Request::ShowImage { image, window_id } => {
            if !pre.has_window(window_id) {
                StepResult {
                    post: pre,
                    actions: Seq::empty(),
                    result: Err(GlobalContextError::NoMatchingWindow(window_id)),
                }
            } else if !GpuImage::data_fits(image) {
                StepResult {
                    post: pre,
                    actions: Seq::empty(),
                    result: Err(GlobalContextError::BadImage(ImageModel::spec_raw_error(image))),
                }
            } else {
                let i = pre.index_of(window_id);
                StepResult {
                    post: pre.update_window(
                        i,
                        pre.windows[i].spec_with_image(
                            ImageModel::spec_from_raw("imvr_gpu_image"@, image),
                        ),
                    ),
                    actions: seq![
                        Action::UploadImage { window_id },
                        Action::RequestRedraw { window_id },
                    ],
                    result: Ok(()),
                }
            }
        },
        Request::OpenWindow { res } => StepResult {
            post: pre,
            actions: seq![Action::CreateWindow { res }],
            result: Ok(()),
        },
        Request::CloseWindow { window_id } => {
            if pre.has_window(window_id) {
                let post = pre.remove_window(pre.index_of(window_id));
                StepResult {
                    post,
                    actions: if post.windows.len() == 0 {
                        seq![Action::Exit]
                    } else {
                        Seq::empty()
                    },
                    result: Ok(()),
                }
            } else {
                StepResult {
                    post: pre,
                    actions: Seq::empty(),
                    result: Err(GlobalContextError::NoMatchingWindow(window_id)),
                }
            }
        },
        Request::Exit => StepResult {
            post: pre,
            actions: seq![Action::Exit],
            result: Ok(()),
        },
        Request::Resize { size, window_id } => {
            if !pre.has_window(window_id) {
                StepResult {
                    post: pre,
                    actions: Seq::empty(),
                    result: Err(GlobalContextError::NoMatchingWindow(window_id)),
                }
            } else if size.x == 0 || size.y == 0 {
                StepResult { post: pre, actions: Seq::empty(), result: Ok(()) }
            } else {
                let i = pre.index_of(window_id);
                StepResult {
                    post: pre.update_window(i, pre.windows[i].spec_resized(size)),
                    actions: seq![Action::ConfigureSurface { window_id, size }],
                    result: Ok(()),
                }
            }
        },
        Request::Redraw { window_id } => {
            if !pre.has_window(window_id) {
                StepResult {
                    post: pre,
                    actions: Seq::empty(),
                    result: Err(GlobalContextError::NoMatchingWindow(window_id)),
                }
            } else {
                let i = pre.index_of(window_id);
                StepResult {
                    post: pre.update_window(i, pre.windows[i].spec_rendered()),
                    actions: pre.windows[i].spec_render_actions(),
                    result: Ok(()),
                }
            }
        },
        Request::Tick => StepResult { post: pre, actions: Seq::empty(), result: Ok(()) },
    }
}

/// What a batch of requests does: each is run on the state the one before
/// left, the actions accumulate in order, and the first failure, if any, is
/// the overall outcome.
pub open spec fn spec_step_seq(pre: ContextModel, reqs: Seq<Request>) -> StepResult
    decreases reqs,
{
    if reqs.len() == 0 {
        StepResult { post: pre, actions: Seq::empty(), result: Ok(()) }
    } else {
        let first = spec_step(pre, reqs[0]);
        let rest = spec_step_seq(first.post, reqs.subrange(1, reqs.len() as int));
        StepResult {
            post: rest.post,
            actions: first.actions + rest.actions,
            result: if first.result is Err {
                first.result
            } else {
                rest.result
            },
        }
    }
}

/// The window a request is aimed at, if it names one.
pub open spec fn spec_window_target(req: Request) -> Option<u64> {
    match req {
        Request::ShowImage { window_id, .. } => Some(window_id),
        Request::CloseWindow { window_id } => Some(window_id),
        Request::Resize { window_id, .. } => Some(window_id),
        Request::Redraw { window_id } => Some(window_id),
        _ => None,
    }
}

/// Stale-id safety: a request aimed at a window id the dispatcher does not
/// hold — in particular any id whose window was already closed — fails with
/// the invalid-window error for that id, performs no action and leaves the
/// state exactly as it was. The dispatcher keeps running.
pub proof fn lemma_stale_id_rejected(pre: ContextModel, req: Request, window_id: u64)
    requires
        spec_window_target(req) == Some(window_id),
        !pre.has_window(window_id),
    ensures
        spec_step(pre, req).post == pre,
        spec_step(pre, req).actions == Seq::<Action>::empty(),
        spec_step(pre, req).result == Err::<(), GlobalContextError>(
            GlobalContextError::NoMatchingWindow(window_id),
        ),
{
}

/// Closing a window really retires its id: immediately after a close of a
/// held window, the id is no longer present, so by stale-id safety every
/// later request naming it fails with the invalid-window error.
pub proof fn lemma_closed_id_stays_invalid(pre: ContextModel, window_id: u64)
    requires
        pre.wf(),
        pre.has_window(window_id),
    ensures
        !spec_step(pre, Request::CloseWindow { window_id }).post.has_window(window_id),
{
    let i = pre.index_of(window_id);
    let post = spec_step(pre, Request::CloseWindow { window_id }).post;
    assert(post == pre.remove_window(i));
    assert forall|a: int| 0 <= a < post.windows.len() implies #[trigger] post.windows[a].id
        != window_id by {
        let oa = if a < i {
            a
        } else {
            a + 1
        };
        assert(post.windows[a] == pre.windows[oa]);
        if oa < i {
            assert(pre.windows[oa].id != pre.windows[i].id);
        } else {
            assert(pre.windows[i].id != pre.windows[oa].id);
        }
    }
}

/// The set-once GPU context is never torn down by request handling: once it
/// exists, every request — batches included — leaves it in place. Together
/// with `create_window`, which establishes it with the first window, the
/// context is created once and only reused from then on.
pub proof fn lemma_gpu_stays_ready(pre: ContextModel, req: Request)
    requires
        pre.gpu_ready,
    ensures
        spec_step(pre, req).post.gpu_ready,
    decreases req,
{
    match req {
        Request::Multiple(reqs) => {
            lemma_gpu_stays_ready_seq(pre, reqs@);
        },
        _ => {},
    }
}

/// The same, for a whole batch.
pub proof fn lemma_gpu_stays_ready_seq(pre: ContextModel, reqs: Seq<Request>)
    requires
        pre.gpu_ready,
    ensures
        spec_step_seq(pre, reqs).post.gpu_ready,
    decreases reqs,
{
    if reqs.len() > 0 {
        lemma_gpu_stays_ready(pre, reqs[0]);
        lemma_gpu_stays_ready_seq(spec_step(pre, reqs[0]).post, reqs.subrange(
            1,
            reqs.len() as int,
        ));
    }
}

/// A batch is exactly its members run in list order: the state threads
/// through them one after the other and their actions are concatenated in
/// that order, whatever was queued around the batch.
pub proof fn lemma_batch_runs_members_in_order(pre: ContextModel, reqs: Vec<Request>)
    ensures
        spec_step(pre, Request::Multiple(reqs)) == spec_step_seq(pre, reqs@),
{
}

/// Batch ordering for two members: the first member's actions come out
/// strictly before the second member's, and the second member runs on the
/// state the first one left.
pub proof fn lemma_batch_ordering(pre: ContextModel, r1: Request, r2: Request)
    ensures
        spec_step_seq(pre, seq![r1, r2]).actions == spec_step(pre, r1).actions + spec_step(
            spec_step(pre, r1).post,
            r2,
        ).actions,
        spec_step_seq(pre, seq![r1, r2]).post == spec_step(spec_step(pre, r1).post, r2).post,
{
    reveal_with_fuel(spec_step_seq, 3);
    let s = seq![r1, r2];
    assert(s[0] == r1);
    assert(s.subrange(1, 2) =~= seq![r2]);
    assert(seq![r2][0] == r2);
    assert(seq![r2].subrange(1, 1) =~= Seq::<Request>::empty());
    let s1 = spec_step(pre, r1);
    let s2 = spec_step(s1.post, r2);
    assert(spec_step_seq(s1.post, seq![r2]).actions =~= s2.actions + Seq::<Action>::empty());
    assert(spec_step_seq(s1.post, seq![r2]).actions =~= s2.actions);
    assert(spec_step_seq(pre, s).actions =~= s1.actions + s2.actions);
}

/// A batch of a resize and a redraw of the same window always reconfigures
/// the surface before any drawing: its actions are exactly the surface
/// reconfiguration, then whatever the redraw of the freshly resized window
/// emits — however many other requests were queued before or after the
/// batch, since a batch's members never interleave with them.
pub proof fn lemma_resize_before_redraw(pre: ContextModel, window_id: u64, size: Size2)
    requires
        pre.wf(),
        pre.has_window(window_id),
        size.x > 0,
        size.y > 0,
    ensures
        ({
            let i = pre.index_of(window_id);
            let resized = pre.update_window(i, pre.windows[i].spec_resized(size));
            spec_step_seq(
                pre,
                seq![Request::Resize { size, window_id }, Request::Redraw { window_id }],
            ).actions == seq![Action::ConfigureSurface { window_id, size }]
                + resized.windows[i].spec_render_actions()
        }),
{
    let i = pre.index_of(window_id);
    let resized = pre.update_window(i, pre.windows[i].spec_resized(size));
    lemma_batch_ordering(
        pre,
        Request::Resize { size, window_id },
        Request::Redraw { window_id },
    );
    assert(spec_step(pre, Request::Resize { size, window_id }).post == resized);
    lemma_index_unique(resized, i, window_id);
    assert(spec_step(resized, Request::Redraw { window_id }).actions
        == resized.windows[i].spec_render_actions());
}

/// The dispatcher: the sole owner of all window and GPU state and the single
/// point of mutation. It consumes one request at a time — only ever on the
/// thread that owns it — and answers with the actions its caller must
/// perform on the windowing system and the rendering backend.
pub struct Context {
    /// The windows, in creation order.
    pub windows: Vec<Window>,
    /// Whether the shared GPU context has been created. It is created with
    /// the first window and reused by every later one.
    pub gpu_ready: bool,
}

impl View for Context {
    type V = ContextModel;

    open spec fn view(&self) -> ContextModel {
        ContextModel {
            windows: self.windows@.map_values(|w: Window| w@),
            gpu_ready: self.gpu_ready,
        }
    }
}

proof fn lemma_index_unique(m: ContextModel, i: int, window_id: u64)
    requires
        m.wf(),
        0 <= i < m.windows.len(),
        m.windows[i].id == window_id,
    ensures
        m.has_window(window_id),
        m.index_of(window_id) == i,
{
    assert(m.has_window(window_id));
    let j = m.index_of(window_id);
    if i < j {
        assert(m.windows[i].id != m.windows[j].id);
    } else if j < i {
        assert(m.windows[j].id != m.windows[i].id);
    }
}

proof fn lemma_wf_update(m: ContextModel, i: int, w: WindowModel)
    requires
        m.wf(),
        0 <= i < m.windows.len(),
        w.wf(),
        w.id == m.windows[i].id,
    ensures
        m.update_window(i, w).wf(),
{
    let m2 = m.update_window(i, w);
    assert forall|a: int, b: int| 0 <= a < b < m2.windows.len() implies #[trigger] m2.windows[a].id
        != #[trigger] m2.windows[b].id by {
        assert(m.windows[a].id != m.windows[b].id);
    }
}

proof fn lemma_wf_remove(m: ContextModel, i: int)
    requires
        m.wf(),
        0 <= i < m.windows.len(),
    ensures
        m.remove_window(i).wf(),
{
    let m2 = m.remove_window(i);
    assert forall|a: int, b: int| 0 <= a < b < m2.windows.len() implies #[trigger] m2.windows[a].id
        != #[trigger] m2.windows[b].id by {
        let oa = if a < i {
            a
        } else {
            a + 1
        };
        let ob = if b < i {
            b
        } else {
            b + 1
        };
        assert(m2.windows[a] == m.windows[oa]);
        assert(m2.windows[b] == m.windows[ob]);
        assert(m.windows[oa].id != m.windows[ob].id);
    }
    assert forall|a: int| 0 <= a < m2.windows.len() implies (#[trigger] m2.windows[a]).wf() by {
        let oa = if a < i {
            a
        } else {
            a + 1
        };
        assert(m2.windows[a] == m.windows[oa]);
    }
}

impl Context {
    /// A fresh dispatcher: no windows, no GPU context yet.
    pub fn new() -> (r: Context)
        ensures
            r@ == (ContextModel { windows: Seq::empty(), gpu_ready: false }),
            r@.wf(),
    {
        let c = Context { windows: Vec::new(), gpu_ready: false };
        proof {
            assert(c@.windows =~= Seq::<WindowModel>::empty());
        }
        c
    }

    /// Whether a window with this id is present.
    pub fn has_window(&self, window_id: u64) -> (r: bool)
        requires
            self@.wf(),
        ensures
            r == self@.has_window(window_id),
    {
        self.index_from_id(window_id).is_some()
    }

    /// How many windows are open.
    pub fn window_count(&self) -> (r: usize)
        ensures
            r == self@.windows.len(),
    {
        self.windows.len()
    }

    /// Whether the shared GPU context has been created.
    pub fn gpu_ready(&self) -> (r: bool)
        ensures
            r == self@.gpu_ready,
    {
        self.gpu_ready
    }

    /// The position of the window with this id, if it is present.
    fn index_from_id(&self, window_id: u64) -> (r: Option<usize>)
        requires
            self@.wf(),
        ensures
            match r {
                Some(i) => i < self@.windows.len() && self@.windows[i as int].id == window_id
                    && self@.index_of(window_id) == i && self@.has_window(window_id),
                None => !self@.has_window(window_id),
            },
    {
        let mut i: usize = 0;
        while i < self.windows.len()
            invariant
                self@.wf(),
                i <= self@.windows.len(),
                forall|k: int| 0 <= k < i ==> #[trigger] self@.windows[k].id != window_id,
            decreases self@.windows.len() - i,
        {
            if self.windows[i].id() == window_id {
                proof {
                    lemma_index_unique(self@, i as int, window_id);
                }
                return Some(i);
            }
            i = i + 1;
        }
        None
    }

    /// Get a shared view of the window with this id.
    pub fn get_window(&self, window_id: u64) -> (r: Result<&Window, GlobalContextError>)
        requires
            self@.wf(),
        ensures
            match r {
                Ok(w) => self@.has_window(window_id) && w@ == self@.windows[self@.index_of(
                    window_id,
                )],
                Err(e) => !self@.has_window(window_id) && e == GlobalContextError::NoMatchingWindow(
                    window_id,
                ),
            },
    {
        match self.index_from_id(window_id) {
            Some(i) => Ok(&self.windows[i]),
            None => Err(GlobalContextError::NoMatchingWindow(window_id)),
        }
    }

    /// Register a window the caller just created natively: record its state
    /// with the given creation options, note that the GPU context now
    /// exists, and send the new id to whoever asked for the window. The
    /// caller keeps the window even when the requester is no longer
    /// listening for the reply.
    pub fn create_window(
        &mut self,
        window_id: u64,
        size: Size2,
        options: WindowOptions,
        res: ReturnAddress,
    ) -> (r: Result<(), GlobalContextError>)
        requires
            old(self)@.wf(),
            !old(self)@.has_window(window_id),
        ensures
            final(self)@ == (ContextModel {
                windows: old(self)@.windows.push(WindowModel::spec_new(window_id, size, options)),
                gpu_ready: true,
            }),
            final(self)@.wf(),
            r is Ok || r == Err::<(), GlobalContextError>(GlobalContextError::SendError),
    {
        let window = Window::new(window_id, size, options);
        self.windows.push(window);
        self.gpu_ready = true;
        proof {
            assert(self@.windows =~= old(self)@.windows.push(
                WindowModel::spec_new(window_id, size, options),
            ));
            let m2 = self@;
            assert forall|a: int, b: int| 0 <= a < b < m2.windows.len() implies
                #[trigger] m2.windows[a].id != #[trigger] m2.windows[b].id by {
                if b + 1 < m2.windows.len() {
                } else {
                    assert(m2.windows[a] == old(self)@.windows[a]);
                }
            }
        }
        match res.send(window_id) {
            Ok(()) => Ok(()),
            Err(_) => Err(GlobalContextError::SendError),
        }
    }

    /// Remove the window with this id. Every later request naming the id
    /// fails with an invalid-window error; nothing else changes either way.
    pub fn destroy_window(&mut self, window_id: u64) -> (r: Result<(), InvalidWindowId>)
        requires
            old(self)@.wf(),
        ensures
            final(self)@.wf(),
            r is Ok <==> old(self)@.has_window(window_id),
            r is Ok ==> final(self)@ == old(self)@.remove_window(old(self)@.index_of(window_id)),
            r is Err ==> final(self)@ == old(self)@ && r == Err::<(), InvalidWindowId>(
                InvalidWindowId { window_id },
            ),
    {
        match self.index_from_id(window_id) {
            Some(i) => {
                self.windows.remove(i);
                proof {
                    assert(self@.windows =~= old(self)@.windows.remove(
                        old(self)@.index_of(window_id),
                    ));
                    assert(self@ =~= old(self)@.remove_window(old(self)@.index_of(window_id)));
                    lemma_wf_remove(old(self)@, old(self)@.index_of(window_id));
                }
                Ok(())
            },
            None => Err(InvalidWindowId { window_id }),
        }
    }

    /// Resize the window with this id: remember the size, mark its uniforms
    /// stale and order its surface reconfigured. A size with a zero
    /// dimension is ignored (success, no change): the caller filters those,
    /// but the dispatcher must not fall over one.
    pub fn resize_window(
        &mut self,
        window_id: u64,
        new_size: Size2,
        actions: &mut Vec<Action>,
    ) -> (r: Result<(), InvalidWindowId>)
        requires
            old(self)@.wf(),
        ensures
            final(self)@.wf(),
            r is Ok <==> old(self)@.has_window(window_id),
            r is Err ==> final(self)@ == old(self)@ && final(actions)@ == old(actions)@ && r
                == Err::<(), InvalidWindowId>(InvalidWindowId { window_id }),
            r is Ok && (new_size.x == 0 || new_size.y == 0) ==> final(self)@ == old(self)@
                && final(actions)@ == old(actions)@,
            r is Ok && new_size.x > 0 && new_size.y > 0 ==> {
                let i = old(self)@.index_of(window_id);
                &&& final(self)@ == old(self)@.update_window(
                    i,
                    old(self)@.windows[i].spec_resized(new_size),
                )
                &&& final(actions)@ == old(actions)@.push(
                    Action::ConfigureSurface { window_id, size: new_size },
                )
            },
    {
        match self.index_from_id(window_id) {
            Some(i) => {
                if new_size.x == 0 || new_size.y == 0 {
                    return Ok(());
                }
                let ghost pre = self@;
                let mut w = self.windows.remove(i);
                w.resize(new_size, actions);
                self.windows.insert(i, w);
                proof {
                    let iw = pre.index_of(window_id);
                    assert(self@.windows =~= pre.windows.update(
                        iw,
                        pre.windows[iw].spec_resized(new_size),
                    ));
                    assert(self@ =~= pre.update_window(
                        iw,
                        pre.windows[iw].spec_resized(new_size),
                    ));
                    lemma_wf_update(pre, iw, pre.windows[iw].spec_resized(new_size));
                }
                Ok(())
            },
            None => Err(InvalidWindowId { window_id }),
        }
    }

    /// Set the image transformation of the window with this id: the new
    /// transform takes effect on the next draw, so the window's uniforms
    /// are marked stale and a redraw is ordered. Fails on an unknown id,
    /// changing nothing.
    pub fn set_transform(
        &mut self,
        window_id: u64,
        transform: crate::transform::Transform2,
        actions: &mut Vec<Action>,
    ) -> (r: Result<(), InvalidWindowId>)
        requires
            old(self)@.wf(),
            transform.wf(),
            crate::transform::spec_bounded(transform, 0x1_0000),
        ensures
            final(self)@.wf(),
            r is Ok <==> old(self)@.has_window(window_id),
            r is Err ==> final(self)@ == old(self)@ && final(actions)@ == old(actions)@ && r
                == Err::<(), InvalidWindowId>(InvalidWindowId { window_id }),
            r is Ok ==> {
                let i = old(self)@.index_of(window_id);
                &&& final(self)@ == old(self)@.update_window(
                    i,
                    WindowModel {
                        user_transform: transform,
                        dirty: true,
                        ..old(self)@.windows[i]
                    },
                )
                &&& final(actions)@ == old(actions)@.push(
                    Action::RequestRedraw { window_id },
                )
            },
    {
        match self.index_from_id(window_id) {
            Some(i) => {
                let ghost pre = self@;
                let mut w = self.windows.remove(i);
                w.set_transform(transform, actions);
                self.windows.insert(i, w);
                proof {
                    let iw = pre.index_of(window_id);
                    let w2 = WindowModel {
                        user_transform: transform,
                        dirty: true,
                        ..pre.windows[iw]
                    };
                    assert(self@.windows =~= pre.windows.update(iw, w2));
                    assert(self@ =~= pre.update_window(iw, w2));
                    lemma_wf_update(pre, iw, w2);
                }
                Ok(())
            },
            None => Err(InvalidWindowId { window_id }),
        }
    }

    /// Render the window with this id: if it has an image, stage fresh
    /// uniform values when they are stale, then order one draw-and-present.
    /// A window with no image renders nothing, successfully.
    pub fn render_window(&mut self, window_id: u64, actions: &mut Vec<Action>) -> (r: Result<
        (),
        InvalidWindowId,
    >)
        requires
            old(self)@.wf(),
        ensures
            final(self)@.wf(),
            r is Ok <==> old(self)@.has_window(window_id),
            r is Err ==> final(self)@ == old(self)@ && final(actions)@ == old(actions)@ && r
                == Err::<(), InvalidWindowId>(InvalidWindowId { window_id }),
            r is Ok ==> {
                let i = old(self)@.index_of(window_id);
                &&& final(self)@ == old(self)@.update_window(
                    i,
                    old(self)@.windows[i].spec_rendered(),
                )
                &&& final(actions)@ == old(actions)@ + old(self)@.windows[i].spec_render_actions()
            },
    {
        match self.index_from_id(window_id) {
            Some(i) => {
                let ghost pre = self@;
                let mut w = self.windows.remove(i);
                w.render(actions);
                self.windows.insert(i, w);
                proof {
                    let iw = pre.index_of(window_id);
                    assert(self@.windows =~= pre.windows.update(iw, pre.windows[iw].spec_rendered()));
                    assert(self@ =~= pre.update_window(iw, pre.windows[iw].spec_rendered()));
                    assert(pre.windows[iw].spec_rendered().wf());
                    lemma_wf_update(pre, iw, pre.windows[iw].spec_rendered());
                }
                Ok(())
            },
            None => Err(InvalidWindowId { window_id }),
        }
    }

    /// Show a decoded image in the window with this id: store it, mark the
    /// uniforms stale and order the pixel upload and a redraw. Fails on an
    /// unknown id or inconsistent image data, leaving everything unchanged.
    pub fn show_image(
        &mut self,
        window_id: u64,
        image: &RawImage,
        actions: &mut Vec<Action>,
    ) -> (r: Result<(), GlobalContextError>)
        requires
            old(self)@.wf(),
        ensures
            final(self)@.wf(),
            r is Ok <==> old(self)@.has_window(window_id) && GpuImage::data_fits(*image),
            !old(self)@.has_window(window_id) ==> final(self)@ == old(self)@ && final(actions)@
                == old(actions)@ && r == Err::<(), GlobalContextError>(
                GlobalContextError::NoMatchingWindow(window_id),
            ),
            old(self)@.has_window(window_id) && !GpuImage::data_fits(*image) ==> final(self)@
                == old(self)@ && final(actions)@ == old(actions)@ && r == Err::<
                (),
                GlobalContextError,
            >(GlobalContextError::BadImage(ImageModel::spec_raw_error(*image))),
            r is Ok ==> {
                let i = old(self)@.index_of(window_id);
                &&& final(self)@ == old(self)@.update_window(
                    i,
                    old(self)@.windows[i].spec_with_image(
                        ImageModel::spec_from_raw("imvr_gpu_image"@, *image),
                    ),
                )
                &&& final(actions)@ == old(actions)@ + seq![
                    Action::UploadImage { window_id },
                    Action::RequestRedraw { window_id },
                ]
            },
    {
        match self.index_from_id(window_id) {
            Some(i) => {
                let ghost pre = self@;
                let mut w = self.windows.remove(i);
                let res = w.set_image(image, actions);
                self.windows.insert(i, w);
                proof {
                    let iw = pre.index_of(window_id);
                    if res is Ok {
                        let img = ImageModel::spec_from_raw("imvr_gpu_image"@, *image);
                        assert(self@.windows =~= pre.windows.update(
                            iw,
                            pre.windows[iw].spec_with_image(img),
                        ));
                        assert(self@ =~= pre.update_window(
                            iw,
                            pre.windows[iw].spec_with_image(img),
                        ));
                        assert(pre.windows[iw].spec_with_image(img).wf());
                        lemma_wf_update(pre, iw, pre.windows[iw].spec_with_image(img));
                    } else {
                        assert(self@.windows =~= pre.windows);
                        assert(self@ =~= pre);
                    }
                }
                match res {
                    Ok(()) => Ok(()),
                    Err(e) => Err(GlobalContextError::BadImage(e)),
                }
            },
            None => Err(GlobalContextError::NoMatchingWindow(window_id)),
        }
    }

    /// Execute exactly one request: what `spec_step` says, executably. A
    /// batch runs depth-first in list order; a member's failure is recorded
    /// — the first one becomes the batch's outcome — and the members after
    /// it still run. The actions to perform come out in execution order.
    pub fn handle_request(&mut self, req: Request, actions: &mut Vec<Action>) -> (r: Result<
        (),
        GlobalContextError,
    >)
        requires
            old(self)@.wf(),
        ensures
            final(self)@.wf(),
            final(self)@ == spec_step(old(self)@, req).post,
            final(actions)@ == old(actions)@ + spec_step(old(self)@, req).actions,
            r is Ok ==> spec_step(old(self)@, req).result is Ok,
            r matches Err(e) ==> spec_step(old(self)@, req).result == Err::<
                (),
                GlobalContextError,
            >(e),
        decreases req,
    {
        let ghost req0 = req;
        match req {
            Request::Multiple(mut reqs) => {
                let ghost reqs_init = reqs;
                let ghost all = reqs@;
                let ghost pre = self@;
                let ghost a0 = actions@;
                let ghost mut done: Seq<Action> = Seq::empty();
                let ghost mut k: int = 0;
                let mut first_err: Option<GlobalContextError> = None;
                proof {
                    assert(all.subrange(0, all.len() as int) =~= all);
                    assert(a0 + done =~= a0);
                }
                #[verifier::loop_isolation(false)]
                while reqs.len() > 0
                    invariant
                        self@.wf(),
                        0 <= k <= all.len(),
                        reqs@ == all.subrange(k, all.len() as int),
                        req0 == Request::Multiple(reqs_init),
                        all == reqs_init@,
                        actions@ == a0 + done,
                        spec_step_seq(pre, all).post == spec_step_seq(self@, reqs@).post,
                        spec_step_seq(pre, all).actions == done + spec_step_seq(
                            self@,
                            reqs@,
                        ).actions,
                        match first_err {
                            Some(e) => spec_step_seq(pre, all).result == Err::<
                                (),
                                GlobalContextError,
                            >(e),
                            None => spec_step_seq(pre, all).result == spec_step_seq(
                                self@,
                                reqs@,
                            ).result,
                        },
                    decreases reqs@.len(),
                {
                    let ghost suffix = reqs@;
                    let ghost m = self@;
                    let r = reqs.remove(0);
                    proof {
                        assert(r == suffix[0]);
                        assert(suffix[0] == all[k]);
                        assert(req0->Multiple_0 == reqs_init);
                        assert(decreases_to!(req0 => reqs_init));
                        assert(decreases_to!(reqs_init => all));
                        assert(decreases_to!(all => all[k]));
                        assert(decreases_to!(req0 => r));
                    }
                    let res = self.handle_request(r, actions);
                    proof {
                        assert(reqs@ =~= suffix.subrange(1, suffix.len() as int));
                        assert(reqs@ =~= all.subrange(k + 1, all.len() as int));
                        let st = spec_step(m, r);
                        assert(spec_step_seq(m, suffix).post == spec_step_seq(self@, reqs@).post);
                        assert(spec_step_seq(m, suffix).actions == st.actions + spec_step_seq(
                            self@,
                            reqs@,
                        ).actions);
                        assert(spec_step_seq(m, suffix).result == (if st.result is Err {
                            st.result
                        } else {
                            spec_step_seq(self@, reqs@).result
                        }));
                        done = done + st.actions;
                        assert(actions@ =~= a0 + done);
                        assert(spec_step_seq(pre, all).actions =~= done + spec_step_seq(
                            self@,
                            reqs@,
                        ).actions);
                        k = k + 1;
                    }
                    match res {
                        Ok(()) => {
                        },
                        Err(e) => {
                            if first_err.is_none() {
                                first_err = Some(e);
                            }
                        },
                    }
                }
                proof {
                    assert(reqs@.len() == 0);
                    assert(spec_step(pre, req0) == spec_step_seq(pre, all));
                    assert(spec_step_seq(self@, reqs@).post == self@);
                    assert(spec_step_seq(self@, reqs@).result == Ok::<(), GlobalContextError>(()));
                    assert(spec_step_seq(pre, all).actions =~= done);
                    assert(actions@ =~= a0 + spec_step_seq(pre, all).actions);
                }
                match first_err {
                    Some(e) => {
                        proof {
                            assert(spec_step(old(self)@, req0).result == Err::<
                                (),
                                GlobalContextError,
                            >(e));
                        }
                        Err(e)
                    },
                    None => {
                        proof {
                            assert(spec_step(old(self)@, req0).result == Ok::<
                                (),
                                GlobalContextError,
                            >(()));
                        }
                        Ok(())
                    },
                }
            },
            Request::ShowImage { image, window_id } => {
                let res = self.show_image(window_id, &image, actions);
                res
            },
            Request::OpenWindow { res } => {
                actions.push(Action::CreateWindow { res });
                proof {
                    assert(actions@ =~= old(actions)@ + spec_step(old(self)@, req0).actions);
                }
                Ok(())
            },
            Request::CloseWindow { window_id } => {
                match self.destroy_window(window_id) {
                    Ok(()) => {
                        if self.windows.len() == 0 {
                            actions.push(Action::Exit);
                            proof {
                                assert(actions@ =~= old(actions)@ + spec_step(
                                    old(self)@,
                                    req0,
                                ).actions);
                            }
                        } else {
                            proof {
                                assert(actions@ =~= old(actions)@ + spec_step(
                                    old(self)@,
                                    req0,
                                ).actions);
                            }
                        }
                        Ok(())
                    },
                    Err(e) => {
                        proof {
                            assert(actions@ =~= old(actions)@ + spec_step(old(self)@, req0).actions);
                        }
                        Err(GlobalContextError::NoMatchingWindow(e.window_id))
                    },
                }
            },
            Request::Exit => {
                actions.push(Action::Exit);
                proof {
                    assert(actions@ =~= old(actions)@ + spec_step(old(self)@, req0).actions);
                }
                Ok(())
            },
            Request::Resize { size, window_id } => {
                match self.resize_window(window_id, size, actions) {
                    Ok(()) => {
                        proof {
                            assert(actions@ =~= old(actions)@ + spec_step(old(self)@, req0).actions);
                        }
                        Ok(())
                    },
                    Err(e) => {
                        proof {
                            assert(actions@ =~= old(actions)@ + spec_step(old(self)@, req0).actions);
                        }
                        Err(GlobalContextError::NoMatchingWindow(e.window_id))
                    },
                }
            },
            Request::Redraw { window_id } => {
                match self.render_window(window_id, actions) {
                    Ok(()) => Ok(()),
                    Err(e) => {
                        proof {
                            assert(actions@ =~= old(actions)@ + spec_step(old(self)@, req0).actions);
                        }
                        Err(GlobalContextError::NoMatchingWindow(e.window_id))
                    },
                }
            },
            Request::Tick => {
                proof {
                    assert(actions@ =~= old(actions)@ + spec_step(old(self)@, req0).actions);
                }
                Ok(())
            },
        }
    }
}

} // verus!
