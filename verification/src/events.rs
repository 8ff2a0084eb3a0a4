use vstd::prelude::*;

use crate::request::Request;
use crate::transform::Size2;

verus! {

/// A pressed key, as the viewer's controls read it.
#[derive(Clone, Copy, Debug, PartialEq, Eq, Structural)]
pub enum Key {
    Char(char),
    Ctrl(char),
    Alt(char),
}

/// A keyboard event as plain values: the character the pressed key stands
/// for, if it stands for one, the modifiers, and whether this is a press
/// (not a release).
#[derive(Clone, Copy, Debug, PartialEq, Eq, Structural)]
pub struct KeyInput {
    pub ch: Option<char>,
    pub ctrl: bool,
    pub alt: bool,
    pub pressed: bool,
}

impl Key {
    /// The key a keyboard event means: only presses of character keys count,
    /// and a control or alt modifier folds into the key.
    pub open spec fn spec_some_from(input: KeyInput) -> Option<Key> {
        if !input.pressed {
            None
        } else {
            match input.ch {
                None => None,
                Some(c) => if input.ctrl {
                    Some(Key::Ctrl(c))
                } else if input.alt {
                    Some(Key::Alt(c))
                } else {
                    Some(Key::Char(c))
                },
            }
        }
    }

    /// The key a keyboard event means, if any.
    pub fn some_from(input: KeyInput) -> (r: Option<Key>)
        ensures
            r == Key::spec_some_from(input),
    {
        if !input.pressed {
            return None;
        }
        match input.ch {
            None => None,
            Some(c) => {
                if input.ctrl {
                    Some(Key::Ctrl(c))
                } else if input.alt {
                    Some(Key::Alt(c))
                } else {
                    Some(Key::Char(c))
                }
            },
        }
    }
}

/// The request a key asks for: `q` and control-c quit the viewer; every
/// other key asks for nothing.
pub open spec fn spec_parse_key(key: Key) -> Result<Request, ()> {
    match key {
        Key::Char(c) => if c == 'q' {
            Ok(Request::Exit)
        } else {
            Err(())
        },
        Key::Ctrl(c) => if c == 'c' {
            Ok(Request::Exit)
        } else {
            Err(())
        },
        Key::Alt(_) => Err(()),
    }
}

/// Map a key to the request it asks for, or `Err` if it asks for nothing.
pub fn parse_key(key: Key) -> (r: Result<Request, ()>)
    ensures
        r == spec_parse_key(key),
{
    match key {
        Key::Char(c) => if c == 'q' {
            Ok(Request::Exit)
        } else {
            Err(())
        },
        Key::Ctrl(c) => if c == 'c' {
            Ok(Request::Exit)
        } else {
            Err(())
        },
        Key::Alt(_) => Err(()),
    }
}

/// What can happen to one window, reduced to the values the dispatcher
/// reads. Events the viewer ignores arrive as `Other`.
#[derive(Debug)]
pub enum WindowEvent {
    /// The window was resized to this physical size.
    Resized(Size2),
    /// The window was moved.
    Moved,
    /// The user asked to close the window.
    CloseRequested,
    /// The window is gone.
    Destroyed,
    /// The window gained or lost focus.
    Focused(bool),
    /// A keyboard event reached the window.
    KeyboardInput(KeyInput),
    /// The windowing system wants the window drawn again.
    RedrawRequested,
    /// Anything else; the viewer asks for nothing on it.
    Other,
}

/// One turn of the native event loop, reduced to the values the dispatcher
/// reads.
#[derive(Debug)]
pub enum Event {
    /// Something happened to one window.
    Window { window_id: u64, event: WindowEvent },
    /// Another thread posted a request into the event loop.
    User(Request),
    /// The event loop is about to process a batch of events.
    NewEvents,
    /// A device was added, removed or used outside any window.
    Device,
    /// The application is being suspended.
    Suspended,
    /// The application was resumed.
    Resumed,
    /// The event loop ran out of events and is about to block.
    AboutToWait,
    /// The event loop is shutting down.
    LoopExiting,
    /// The system is running out of memory.
    MemoryWarning,
}

impl Request {
    /// Translate a native event into the request vocabulary, if it asks for
    /// anything:
    /// a resize becomes a resize-then-redraw batch; a close request, and a
    /// destroyed window, become a close; a redraw request becomes a redraw;
    /// `q` or control-c becomes an exit, as does the event loop's own
    /// shutdown; a posted request passes through. All else asks for nothing.
    pub fn some_from(event: Event) -> (r: Option<Request>)
        ensures
            match event {
                Event::Window { window_id, event: wev } => match wev {
                    WindowEvent::Resized(size) => r matches Some(req) && req matches
                        Request::Multiple(v) && v@ == seq![
                        Request::Resize { size, window_id },
                        Request::Redraw { window_id },
                    ],
                    WindowEvent::CloseRequested => r == Some(Request::CloseWindow { window_id }),
                    WindowEvent::Destroyed => r == Some(Request::CloseWindow { window_id }),
                    WindowEvent::RedrawRequested => r == Some(Request::Redraw { window_id }),
                    WindowEvent::KeyboardInput(input) => r == (match Key::spec_some_from(input) {
                        Some(key) => match spec_parse_key(key) {
                            Ok(req) => Some(req),
                            Err(()) => None::<Request>,
                        },
                        None => None::<Request>,
                    }),
                    WindowEvent::Moved => r is None,
                    WindowEvent::Focused(_) => r is None,
                    WindowEvent::Other => r is None,
                },
                Event::User(req) => r == Some(req),
                Event::LoopExiting => r == Some(Request::Exit),
                Event::NewEvents => r is None,
                Event::Device => r is None,
                Event::Suspended => r is None,
                Event::Resumed => r is None,
                Event::AboutToWait => r is None,
                Event::MemoryWarning => r is None,
            },
    {
        match event {
            Event::Window { window_id, event: wev } => match wev {
                WindowEvent::Resized(size) => {
                    let mut batch: Vec<Request> = Vec::new();
                    batch.push(Request::resize(size, window_id));
                    batch.push(Request::redraw(window_id));
                    proof {
                        assert(batch@ =~= seq![
                            Request::Resize { size, window_id },
                            Request::Redraw { window_id },
                        ]);
                    }
                    Some(Request::Multiple(batch))
                },
                WindowEvent::CloseRequested => Some(Request::close(window_id)),
                WindowEvent::Destroyed => Some(Request::close(window_id)),
                WindowEvent::RedrawRequested => Some(Request::redraw(window_id)),
                WindowEvent::KeyboardInput(input) => match Key::some_from(input) {
                    Some(key) => match parse_key(key) {
                        Ok(req) => Some(req),
                        Err(()) => None,
                    },
                    None => None,
                },
                WindowEvent::Moved => None,
                WindowEvent::Focused(_) => None,
                WindowEvent::Other => None,
            },
            Event::User(req) => Some(req),
            Event::LoopExiting => Some(Request::Exit),
            Event::NewEvents => None,
            Event::Device => None,
            Event::Suspended => None,
            Event::Resumed => None,
            Event::AboutToWait => None,
            Event::MemoryWarning => None,
        }
    }
}

} // verus!
