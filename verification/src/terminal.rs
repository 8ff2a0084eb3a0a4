use vstd::prelude::*;

verus! {

/// Whether the controlling terminal is in raw mode, and the discipline for
/// switching: never enter it twice, never leave it twice. The switch itself
/// is the caller's terminal call; this state says when to make it.
#[derive(Debug)]
pub struct TerminalState {
    raw_mode: bool,
}

impl TerminalState {
    pub closed spec fn spec_raw_mode(self) -> bool {
        self.raw_mode
    }

    /// A terminal in its ordinary, cooked mode.
    pub fn new() -> (r: TerminalState)
        ensures
            !r.spec_raw_mode(),
    {
        TerminalState { raw_mode: false }
    }

    /// Note that the terminal is to enter raw mode. True exactly when the
    /// caller must now switch the terminal; false means it already was raw
    /// and a second switch would be wrong.
    pub fn enter_raw(&mut self) -> (r: bool)
        ensures
            final(self).spec_raw_mode(),
            r == !old(self).spec_raw_mode(),
    {
        let switch = !self.raw_mode;
        self.raw_mode = true;
        switch
    }

    /// Note that the terminal is to leave raw mode. True exactly when the
    /// caller must now switch the terminal back; false means it was not raw.
    pub fn leave_raw(&mut self) -> (r: bool)
        ensures
            !final(self).spec_raw_mode(),
            r == old(self).spec_raw_mode(),
    {
        let switch = self.raw_mode;
        self.raw_mode = false;
        switch
    }
}

/// The standard-input request source's state: it reads keys from the
/// terminal, which must be in raw mode while the source lives and back in
/// cooked mode when it is done.
#[derive(Debug)]
pub struct StdinEventHandler {
    term: TerminalState,
}

impl StdinEventHandler {
    pub closed spec fn spec_raw_mode(self) -> bool {
        self.term.spec_raw_mode()
    }

    /// A fresh source: the terminal is now owed a switch into raw mode,
    /// which the caller makes.
    pub fn new() -> (r: StdinEventHandler)
        ensures
            r.spec_raw_mode(),
    {
        let mut term = TerminalState::new();
        term.enter_raw();
        StdinEventHandler { term }
    }

    /// Shut the source down. True exactly when the caller must now switch
    /// the terminal back out of raw mode.
    pub fn exit(&mut self) -> (r: bool)
        ensures
            !final(self).spec_raw_mode(),
            r == old(self).spec_raw_mode(),
    {
        self.term.leave_raw()
    }
}

} // verus!
