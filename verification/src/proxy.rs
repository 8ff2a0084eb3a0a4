use vstd::prelude::*;

verus! {

/// A proxy was used from the thread that owns the dispatcher. Whatever the
/// proxy would wait for can only be produced by that same thread, so waiting
/// would deadlock; the call is refused at once instead.
#[derive(Clone, Copy, Debug, PartialEq, Eq, Structural)]
pub enum ProxyError {
    CalledFromContextThread,
}

impl ProxyError {
    /// A short description of the failure.
    pub fn message(&self) -> (r: &'static str)
        ensures
            r@.len() > 0,
    {
        let s: &'static str = "proxy used from within the context thread, which would deadlock";
        proof {
            reveal_strlit("proxy used from within the context thread, which would deadlock");
        }
        s
    }
}

/// A handle to the dispatcher usable from any thread. It remembers which
/// thread owns the dispatcher, so that calls that would block on the
/// dispatcher can be refused on that thread — the deadlock guard — instead
/// of hanging forever. Posting the work itself is the caller's: this is the
/// decision half.
#[derive(Clone, Copy, Debug, PartialEq, Eq, Structural)]
pub struct ContextProxy {
    /// The identity of the thread that runs the dispatcher.
    pub context_thread: u64,
}

impl ContextProxy {
    /// A proxy for the dispatcher owned by the given thread.
    pub fn new(context_thread: u64) -> (r: ContextProxy)
        ensures
            r == (ContextProxy { context_thread }),
    {
        ContextProxy { context_thread }
    }

    /// The deadlock guard: a call that would block on the dispatcher is
    /// allowed exactly on threads other than the dispatcher's own. On the
    /// owning thread it fails fast, never hangs.
    pub fn check_thread(&self, current_thread: u64) -> (r: Result<(), ProxyError>)
        ensures
            r is Ok <==> current_thread != self.context_thread,
            r is Err ==> r == Err::<(), ProxyError>(ProxyError::CalledFromContextThread),
    {
        if current_thread == self.context_thread {
            Err(ProxyError::CalledFromContextThread)
        } else {
            Ok(())
        }
    }
}

/// A handle to one window usable from any thread: the window's id and the
/// dispatcher proxy that reaches its owner.
#[derive(Clone, Copy, Debug, PartialEq, Eq, Structural)]
pub struct WindowProxy {
    window_id: u64,
    context_proxy: ContextProxy,
}

impl WindowProxy {
    pub closed spec fn spec_window_id(self) -> u64 {
        self.window_id
    }

    pub closed spec fn spec_context_proxy(self) -> ContextProxy {
        self.context_proxy
    }

    /// Create a new window proxy from a context proxy and a window ID.
    pub fn new(window_id: u64, context_proxy: ContextProxy) -> (r: WindowProxy)
        ensures
            r.spec_window_id() == window_id,
            r.spec_context_proxy() == context_proxy,
    {
        WindowProxy { window_id, context_proxy }
    }

    /// The id of the window this proxy reaches.
    pub fn window_id(&self) -> (r: u64)
        ensures
            r == self.spec_window_id(),
    {
        self.window_id
    }

    /// The same deadlock guard as the dispatcher proxy's: waiting on the
    /// dispatcher is refused on the dispatcher's own thread.
    pub fn check_thread(&self, current_thread: u64) -> (r: Result<(), ProxyError>)
        ensures
            r is Ok <==> current_thread != self.spec_context_proxy().context_thread,
            r is Err ==> r == Err::<(), ProxyError>(ProxyError::CalledFromContextThread),
    {
        self.context_proxy.check_thread(current_thread)
    }
}

} // verus!
