use vstd::prelude::*;

use crate::reply::ReturnAddress;

verus! {

/// Which drawing surface a message is aimed at: the controlling terminal or
/// a window, named by the id the windowing system assigned it.
#[derive(Debug)]
pub enum SurfaceId {
    Terminal,
    Window(u64),
}

impl SurfaceId {
    pub open spec fn spec_as_id(self) -> Option<u64> {
        match self {
            SurfaceId::Terminal => None,
            SurfaceId::Window(id) => Some(id),
        }
    }

    /// The window id, if the surface is a window.
    pub fn as_id(&self) -> (r: Option<u64>)
        ensures
            r == self.spec_as_id(),
    {
        match self {
            SurfaceId::Terminal => None,
            SurfaceId::Window(id) => Some(*id),
        }
    }
}

/// What a message means for the terminal. Nothing is routed there yet.
#[derive(Debug)]
pub enum TerminalMsg {
    Nothing,
}

/// A message as the sources produce it, before the image named by a path has
/// been decoded.
#[derive(Debug)]
pub enum Msg {
    /// Show the image at `path` on the given surface.
    ShowImage { path: String, id: SurfaceId },
    /// Open a window; reply with its id to `resp`, if anyone is waiting.
    OpenWindow { resp: Option<ReturnAddress> },
}

impl Msg {
    /// A window-open message replying to an in-memory one-shot channel.
    pub fn open(sender: tokio::sync::oneshot::Sender<u64>) -> (r: Msg)
        ensures
            r matches Msg::OpenWindow { resp } && resp matches Some(a) && a is Memory,
    {
        Msg::OpenWindow { resp: Some(ReturnAddress::Memory(sender)) }
    }

    /// What this message means for the terminal.
    pub fn as_terminal(&mut self) -> (r: Option<TerminalMsg>)
        ensures
            *final(self) == *old(self),
            r matches Some(m) && m is Nothing,
    {
        Some(TerminalMsg::Nothing)
    }
}

} // verus!
