use vstd::prelude::*;

verus! {

/// One fire-and-forget worker, as the registry sees it: the caller's token
/// for the thread's join handle, and whether the worker has reported itself
/// done. The worker flips its flag exactly once, just before it exits; the
/// caller mirrors that report here.
#[derive(Clone, Copy, Debug, PartialEq, Eq, Structural)]
pub struct BackgroundTask {
    /// The caller's name for the worker's join handle.
    pub token: u64,
    /// Whether the worker reported that it is done.
    pub done: bool,
}

/// The registry of fire-and-forget workers (slow saves and the like). It
/// remembers every worker until it is either seen done and dropped, or
/// joined at shutdown — so a clean shutdown loses no work. The threads
/// themselves live with the caller, filed under their tokens.
#[derive(Debug)]
pub struct BackgroundTasks {
    tasks: Vec<BackgroundTask>,
}

impl BackgroundTasks {
    pub closed spec fn spec_tasks(self) -> Seq<BackgroundTask> {
        self.tasks@
    }

    /// Tokens are unique: one handle per worker.
    pub open spec fn wf(self) -> bool {
        forall|i: int, j: int|
            0 <= i < j < self.spec_tasks().len() ==> #[trigger] self.spec_tasks()[i].token
                != #[trigger] self.spec_tasks()[j].token
    }

    pub open spec fn spec_has(self, token: u64) -> bool {
        exists|i: int|
            0 <= i < self.spec_tasks().len() && #[trigger] self.spec_tasks()[i].token == token
    }

    /// An empty registry.
    pub fn new() -> (r: BackgroundTasks)
        ensures
            r.spec_tasks() == Seq::<BackgroundTask>::empty(),
            r.wf(),
    {
        let r = BackgroundTasks { tasks: Vec::new() };
        proof {
            assert(r.spec_tasks() =~= Seq::<BackgroundTask>::empty());
        }
        r
    }

    /// Track a freshly spawned worker, not yet done.
    pub fn register(&mut self, token: u64)
        requires
            old(self).wf(),
            !old(self).spec_has(token),
        ensures
            final(self).spec_tasks() == old(self).spec_tasks().push(
                BackgroundTask { token, done: false },
            ),
            final(self).wf(),
    {
        self.tasks.push(BackgroundTask { token, done: false });
        proof {
            let m2 = self.spec_tasks();
            assert forall|i: int, j: int| 0 <= i < j < m2.len() implies #[trigger] m2[i].token
                != #[trigger] m2[j].token by {
                let pre = old(self).spec_tasks();
                if j + 1 < m2.len() {
                    assert(m2[i] == pre[i]);
                    assert(m2[j] == pre[j]);
                    assert(pre[i].token != pre[j].token);
                } else {
                    assert(m2[i] == pre[i]);
                    assert(pre[i].token != token);
                }
            }
        }
    }

    /// Record that the worker behind this token reported itself done.
    /// Unknown tokens are ignored.
    pub fn mark_done(&mut self, token: u64)
        requires
            old(self).wf(),
        ensures
            final(self).wf(),
            final(self).spec_tasks().len() == old(self).spec_tasks().len(),
            forall|i: int|
                0 <= i < old(self).spec_tasks().len() ==> {
                    let t = old(self).spec_tasks()[i];
                    #[trigger] final(self).spec_tasks()[i] == if t.token == token {
                        BackgroundTask { done: true, ..t }
                    } else {
                        t
                    }
                },
    {
        let n = self.tasks.len();
        let mut i: usize = 0;
        while i < n
            invariant
                n == self.tasks@.len(),
                i <= n,
                self.tasks@.len() == old(self).spec_tasks().len(),
                forall|k: int|
                    0 <= k < i ==> {
                        let t = old(self).spec_tasks()[k];
                        #[trigger] self.tasks@[k] == if t.token == token {
                            BackgroundTask { done: true, ..t }
                        } else {
                            t
                        }
                    },
                forall|k: int| i <= k < n ==> #[trigger] self.tasks@[k] == old(
                    self,
                ).spec_tasks()[k],
            decreases n - i,
        {
            if self.tasks[i].token == token {
                let t = self.tasks[i];
                let ghost pre = self.tasks@;
                self.tasks[i] = BackgroundTask { done: true, ..t };
                proof {
                    assert(self.tasks@ =~= pre.update(i as int, BackgroundTask { done: true, ..t }));
                }
            }
            i = i + 1;
        }
        proof {
            assert forall|a: int, b: int| 0 <= a < b < self.spec_tasks().len() implies
                #[trigger] self.spec_tasks()[a].token != #[trigger] self.spec_tasks()[b].token by {
                assert(old(self).spec_tasks()[a].token != old(self).spec_tasks()[b].token);
            }
        }
    }

    /// Drop the workers already seen done — their handles need no join —
    /// and keep the rest, in order. Returns the dropped tokens so the
    /// caller can discard the matching handles.
    pub fn clean(&mut self) -> (dropped: Vec<u64>)
        requires
            old(self).wf(),
        ensures
            final(self).wf(),
            final(self).spec_tasks() == old(self).spec_tasks().filter(
                |t: BackgroundTask| !t.done,
            ),
            dropped@.len() + final(self).spec_tasks().len() == old(self).spec_tasks().len(),
    {
        let mut kept: Vec<BackgroundTask> = Vec::new();
        let mut dropped: Vec<u64> = Vec::new();
        let n = self.tasks.len();
        let mut i: usize = 0;
        proof {
            assert(old(self).spec_tasks().take(0).filter(|t: BackgroundTask| !t.done)
                =~= Seq::<BackgroundTask>::empty());
        }
        while i < n
            invariant
                n == old(self).spec_tasks().len(),
                self.tasks@ == old(self).spec_tasks(),
                i <= n,
                kept@ == old(self).spec_tasks().take(i as int).filter(
                    |t: BackgroundTask| !t.done,
                ),
                kept@.len() + dropped@.len() == i,
            decreases n - i,
        {
            let t = self.tasks[i];
            proof {
                assert(old(self).spec_tasks().take(i + 1).drop_last() =~= old(
                    self,
                ).spec_tasks().take(i as int));
                reveal_with_fuel(Seq::filter, 2);
            }
            if t.done {
                dropped.push(t.token);
            } else {
                kept.push(t);
            }
            i = i + 1;
        }
        proof {
            assert(old(self).spec_tasks().take(n as int) =~= old(self).spec_tasks());
        }
        self.tasks = kept;
        proof {
            lemma_filter_unique(old(self).spec_tasks(), |t: BackgroundTask| !t.done);
        }
        dropped
    }

    /// Hand every still-tracked worker out for a blocking join, in
    /// registration order, leaving the registry empty. Shutdown calls this:
    /// a worker that was never seen done is joined, not dropped, so a task
    /// still writing finishes before the process exits.
    pub fn take_all_for_join(&mut self) -> (tokens: Vec<u64>)
        requires
            old(self).wf(),
        ensures
            final(self).spec_tasks() == Seq::<BackgroundTask>::empty(),
            final(self).wf(),
            tokens@ == old(self).spec_tasks().map_values(|t: BackgroundTask| t.token),
    {
        let mut tokens: Vec<u64> = Vec::new();
        let n = self.tasks.len();
        let mut i: usize = 0;
        while i < n
            invariant
                n == self.tasks@.len(),
                self.tasks@ == old(self).spec_tasks(),
                i <= n,
                tokens@ == old(self).spec_tasks().take(i as int).map_values(
                    |t: BackgroundTask| t.token,
                ),
            decreases n - i,
        {
            let t = self.tasks[i];
            tokens.push(t.token);
            proof {
                assert(old(self).spec_tasks().take(i + 1) =~= old(self).spec_tasks().take(
                    i as int,
                ).push(t));
                assert(tokens@ =~= old(self).spec_tasks().take(i + 1).map_values(
                    |t: BackgroundTask| t.token,
                ));
            }
            i = i + 1;
        }
        self.tasks = Vec::new();
        proof {
            assert(old(self).spec_tasks().take(n as int) =~= old(self).spec_tasks());
            assert(self.spec_tasks() =~= Seq::<BackgroundTask>::empty());
        }
        tokens
    }
}

/// Every member of a filtered sequence is a member of the original.
proof fn lemma_filter_members(s: Seq<BackgroundTask>, pred: spec_fn(BackgroundTask) -> bool)
    ensures
        forall|a: int|
            0 <= a < s.filter(pred).len() ==> exists|ia: int|
                0 <= ia < s.len() && s[ia] == #[trigger] s.filter(pred)[a],
    decreases s.len(),
{
    reveal(Seq::filter);
    if s.len() > 0 {
        let d = s.drop_last();
        lemma_filter_members(d, pred);
        assert forall|a: int| 0 <= a < s.filter(pred).len() implies exists|ia: int|
            0 <= ia < s.len() && s[ia] == #[trigger] s.filter(pred)[a] by {
            if a < d.filter(pred).len() {
                let ia = choose|ia: int| 0 <= ia < d.len() && d[ia] == d.filter(pred)[a];
                assert(s[ia] == s.filter(pred)[a]);
            } else {
                assert(s[s.len() - 1] == s.filter(pred)[a]);
            }
        }
    }
}

/// Filtering keeps the tokens pairwise distinct.
proof fn lemma_filter_unique(s: Seq<BackgroundTask>, pred: spec_fn(BackgroundTask) -> bool)
    requires
        forall|i: int, j: int|
            0 <= i < j < s.len() ==> #[trigger] s[i].token != #[trigger] s[j].token,
    ensures
        forall|i: int, j: int|
            0 <= i < j < s.filter(pred).len() ==> #[trigger] s.filter(pred)[i].token
                != #[trigger] s.filter(pred)[j].token,
    decreases s.len(),
{
    reveal(Seq::filter);
    if s.len() > 0 {
        let d = s.drop_last();
        assert forall|i: int, j: int| 0 <= i < j < d.len() implies #[trigger] d[i].token
            != #[trigger] d[j].token by {
            assert(s[i].token != s[j].token);
        }
        lemma_filter_unique(d, pred);
        lemma_filter_members(d, pred);
        let f = s.filter(pred);
        let fd = d.filter(pred);
        assert forall|i: int, j: int| 0 <= i < j < f.len() implies #[trigger] f[i].token
            != #[trigger] f[j].token by {
            if j < fd.len() {
                assert(fd[i].token != fd[j].token);
            } else {
                // The last element passed the filter: f == fd.push(s.last()),
                // and f[i] is a member of d, whose tokens all differ from the
                // last one's.
                let ia = choose|ia: int| 0 <= ia < d.len() && d[ia] == fd[i];
                assert(f[i] == fd[i]);
                assert(s[ia].token != s[s.len() - 1].token);
            }
        }
    }
}

} // verus!
