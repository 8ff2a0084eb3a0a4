use vstd::prelude::*;

verus! {

/// The command line: one file path per window to open.
#[derive(Clone, Debug)]
pub struct Args {
    /// The images to show, one window each, in order.
    pub files: Vec<String>,
}

/// What the argument source should do next.
#[derive(Debug)]
pub enum ArgStep {
    /// Ask the dispatcher to open a window, with a fresh reply channel.
    Open,
    /// Show the image at this path in the window the dispatcher just
    /// assigned.
    Show { path: String, window_id: u64 },
    /// A window id is still owed; wait for the pending reply.
    Wait,
}

/// The argument-list request source, as state and decisions.
///
/// It is a one-shot producer: for each path it first emits one open-window
/// request, then — once the reply channel yields the id the dispatcher
/// assigned — one show-image request for that path. The caller owns the
/// reply channels, in the same order as the paths, and feeds the ids back
/// in.
pub struct ArgEventHandler {
    /// How many open-window requests are still to be emitted.
    pub window_opens: usize,
    /// The paths awaiting their window id, oldest first.
    pub window_draws: Vec<String>,
}

/// The argument source's state as a mathematical value.
pub ghost struct ArgModel {
    pub opens: int,
    pub draws: Seq<Seq<char>>,
}

impl View for ArgEventHandler {
    type V = ArgModel;

    open spec fn view(&self) -> ArgModel {
        ArgModel {
            opens: self.window_opens as int,
            draws: self.window_draws@.map_values(|s: String| s@),
        }
    }
}

impl ArgEventHandler {
    /// Build the source from a raw argument list: the first entry is the
    /// program's own name and is skipped; every path after it gets one
    /// open-window request and, later, one show-image request, in order.
    pub fn new_from_list(args: Vec<String>) -> (r: ArgEventHandler)
        ensures
            args@.len() == 0 ==> r@.opens == 0 && r@.draws == Seq::<Seq<char>>::empty(),
            args@.len() > 0 ==> r@.opens == args@.len() - 1 && r@.draws == args@.skip(1).map_values(
                |s: String| s@,
            ),
    {
        let ghost all = args@;
        let mut window_draws = args;
        if window_draws.len() > 0 {
            window_draws.remove(0);
            proof {
                assert(window_draws@ =~= all.skip(1));
                assert(window_draws@.map_values(|s: String| s@) =~= all.skip(1).map_values(
                    |s: String| s@,
                ));
            }
        } else {
            proof {
                assert(window_draws@.map_values(|s: String| s@) =~= Seq::<Seq<char>>::empty());
            }
        }
        let window_opens = window_draws.len();
        ArgEventHandler { window_opens, window_draws }
    }

    /// The source's next step. All open-window requests go out first; then
    /// each path is paired, in order, with the next window id the replies
    /// yield. `None` when every path has been shown.
    pub fn next(&mut self, reply: Option<u64>) -> (r: Option<ArgStep>)
        ensures
            old(self)@.opens > 0 ==> ({
                &&& final(self)@ == (ArgModel { opens: old(self)@.opens - 1, ..old(self)@ })
                &&& r matches Some(s) && s is Open
            }),
            old(self)@.opens == 0 && old(self)@.draws.len() == 0 ==> final(self)@ == old(self)@ && r
                is None,
            old(self)@.opens == 0 && old(self)@.draws.len() > 0 ==> match reply {
                Some(id) => ({
                    &&& final(self)@ == (ArgModel { draws: old(self)@.draws.skip(1), ..old(self)@ })
                    &&& r matches Some(s) && s matches ArgStep::Show { path, window_id }
                        && path@ == old(self)@.draws[0] && window_id == id
                }),
                None => ({
                    &&& final(self)@ == old(self)@
                    &&& r matches Some(s) && s is Wait
                }),
            },
    {
        if self.window_opens > 0 {
            self.window_opens = self.window_opens - 1;
            return Some(ArgStep::Open);
        }
        if self.window_draws.len() == 0 {
            return None;
        }
        match reply {
            Some(id) => {
                let path = self.window_draws.remove(0);
                proof {
                    assert(self.window_draws@.map_values(|s: String| s@) =~= old(
                        self,
                    )@.draws.skip(1));
                }
                Some(ArgStep::Show { path, window_id: id })
            },
            None => Some(ArgStep::Wait),
        }
    }
}

} // verus!
