//! The exploration loop: one searcher per experiment tuple, probes issued
//! until the searcher is exhausted or cancellation is observed, and the last
//! validated target tracked as the tuple's result.

use vstd::prelude::*;

use crate::params::ExperimentParameters;
use crate::search::CliffSearcher;
use crate::search::ExponentialCliffSearcher;
use crate::search::SearchPhase;
use crate::search::LoadIterator;

verus! {

/// `t` was probed and did not overload.
pub open spec fn is_success(h: Seq<(u64, bool)>, t: u64) -> bool {
    exists|i: int| 0 <= i < h.len() && h[i] == (t, false)
}

/// `t` was probed and overloaded.
pub open spec fn is_failure(h: Seq<(u64, bool)>, t: u64) -> bool {
    exists|i: int| 0 <= i < h.len() && (#[trigger] h[i]).0 == t && h[i].1
}

/// The most recent probe that did not overload, if any.
pub open spec fn last_success(h: Seq<(u64, bool)>) -> Option<u64>
    decreases h.len(),
{
    if h.len() == 0 {
        None
    } else if !h.last().1 {
        Some(h.last().0)
    } else {
        last_success(h.drop_last())
    }
}

/// How appending one probe record changes the success and failure sets.
proof fn lemma_probe_sets_push(h: Seq<(u64, bool)>, e: (u64, bool))
    ensures
        forall|t: u64| #[trigger]
            is_success(h.push(e), t) <==> (is_success(h, t) || (!e.1 && e.0 == t)),
        forall|t: u64| #[trigger]
            is_failure(h.push(e), t) <==> (is_failure(h, t) || (e.1 && e.0 == t)),
{
    assert forall|t: u64| #[trigger]
        is_success(h.push(e), t) <==> (is_success(h, t) || (!e.1 && e.0 == t)) by {
        if is_success(h.push(e), t) {
            let i = choose|i: int| 0 <= i < h.push(e).len() && h.push(e)[i] == (t, false);
            if i < h.len() {
                assert(h[i] == (t, false));
            }
        }
        if is_success(h, t) {
            let i = choose|i: int| 0 <= i < h.len() && h[i] == (t, false);
            assert(h.push(e)[i] == (t, false));
        }
        if !e.1 && e.0 == t {
            assert(h.push(e)[h.len() as int] == (t, false));
        }
    }
    assert forall|t: u64| #[trigger]
        is_failure(h.push(e), t) <==> (is_failure(h, t) || (e.1 && e.0 == t)) by {
        if is_failure(h.push(e), t) {
            let i = choose|i: int|
                0 <= i < h.push(e).len() && (#[trigger] h.push(e)[i]).0 == t && h.push(e)[i].1;
            if i < h.len() {
                assert(h[i].0 == t && h[i].1);
            }
        }
        if is_failure(h, t) {
            let i = choose|i: int| 0 <= i < h.len() && (#[trigger] h[i]).0 == t && h[i].1;
            assert(h.push(e)[i].0 == t && h.push(e)[i].1);
        }
        if e.1 && e.0 == t {
            assert(h.push(e)[h.len() as int].0 == t && h.push(e)[h.len() as int].1);
        }
    }
}

/// Probes one experiment tuple: owns a fresh searcher, gates each probe on
/// the cancellation token, records every probe's verdict, and tracks the
/// last validated (non-overloaded) target.
pub struct Exploration {
    /// The search strategy steering this tuple's probes.
    pub searcher: CliffSearcher,
    /// The most recent target whose probe raised no overload signal.
    pub last_good: Option<u64>,
    /// The target currently being probed, if a probe is in flight.
    pub current: Option<u64>,
    /// Every finished probe, in order: (target, overloaded).
    pub history: Ghost<Seq<(u64, bool)>>,
}

impl Exploration {
    /// Invariant pieces specific to the exponential searcher: the known-good
    /// bound dominates every past success, failures sit at or above the
    /// known-bad bound, and the two never meet.
    pub open spec fn exp_inv(self, e: ExponentialCliffSearcher) -> bool {
        &&& (match self.current {
            Some(t) => {
                &&& e.awaiting
                &&& e.candidate == t
                &&& t >= e.lower
                &&& (self.last_good is Some ==> t > e.lower)
                &&& forall|t2: u64| is_success(self.history@, t2) ==> t2 <= e.lower
            },
            None => forall|t2: u64| is_success(self.history@, t2) ==> t2 <= e.feedback_bound(),
        })
        &&& (self.last_good matches Some(g) ==> (forall|t2: u64|
            is_success(self.history@, t2) ==> t2 <= g))
        &&& (forall|t2: u64|
            is_failure(self.history@, t2) ==> e.upper is Some && t2 >= e.upper->0)
        &&& (self.last_good matches Some(g) ==> (e.upper matches Some(u) ==> g < u))
        &&& (e.phase is Growing && !e.awaiting ==> self.history@.len() == 0)
    }

    /// Structural invariant tying the probe history, the tracked result and
    /// the searcher state together.
    pub open spec fn inv(self) -> bool {
        &&& self.searcher.wf()
        &&& self.last_good == last_success(self.history@)
        &&& (self.last_good matches Some(g) ==> is_success(self.history@, g))
        &&& match self.searcher {
            CliffSearcher::Exponential(e) => self.exp_inv(e),
            CliffSearcher::FixedList(l) => (self.current is Some ==> l.pos >= 1),
        }
    }

    /// A fresh exploration of one tuple with the given strategy.
    pub fn new(searcher: CliffSearcher) -> (r: Self)
        requires
            searcher.wf(),
            searcher matches CliffSearcher::Exponential(e) ==> e.phase is Growing
                && !e.awaiting,
            searcher matches CliffSearcher::FixedList(l) ==> l.pos == 0,
        ensures
            r.inv(),
            r.searcher == searcher,
            r.last_good is None,
            r.current is None,
            r.history@ == Seq::<(u64, bool)>::empty(),
    {
        Exploration { searcher, last_good: None, current: None, history: Ghost(Seq::empty()) }
    }

    /// Ask the searcher for the next target, unless cancellation has been
    /// observed. A cancelled call changes nothing at all: the probe never
    /// starts, and every result recorded for prior probes is untouched.
    pub fn begin_probe(&mut self, cancelled: bool) -> (r: Option<u64>)
        requires
            old(self).inv(),
            old(self).current is None,
        ensures
            final(self).inv(),
            final(self).history == old(self).history,
            final(self).last_good == old(self).last_good,
            cancelled ==> *final(self) == *old(self) && r is None,
            !cancelled ==> final(self).current == r,
            old(self).searcher matches CliffSearcher::Exponential(pre) ==> (!cancelled
                ==> (final(self).searcher matches CliffSearcher::Exponential(post)
                && ExponentialCliffSearcher::next_post(pre, post, r))),
            old(self).searcher matches CliffSearcher::FixedList(pre) ==> (!cancelled
                ==> (final(self).searcher matches CliffSearcher::FixedList(post)
                && LoadIterator::next_post(pre, post, r))),
    {
        if cancelled {
            return None;
        }
        let r = self.searcher.next();
        match r {
            Some(t) => {
                self.current = Some(t);
            },
            None => {},
        }
        r
    }

    /// Record the verdict of the probe in flight: overload feedback goes to
    /// the searcher, a clean probe becomes the new last validated target.
    pub fn finish_probe(&mut self, overloaded: bool)
        requires
            old(self).inv(),
            old(self).current is Some,
        ensures
            final(self).inv(),
            final(self).current is None,
            final(self).history@ == old(self).history@.push((old(self).current->0, overloaded)),
            final(self).last_good == (if overloaded {
                old(self).last_good
            } else {
                old(self).current
            }),
            old(self).searcher matches CliffSearcher::Exponential(pre)
                ==> (final(self).searcher matches CliffSearcher::Exponential(post) && (if overloaded {
                ExponentialCliffSearcher::overloaded_post(pre, post)
            } else {
                post == pre
            })),
            old(self).searcher matches CliffSearcher::FixedList(pre)
                ==> (final(self).searcher matches CliffSearcher::FixedList(post) && (if overloaded {
                LoadIterator::overloaded_post(pre, post)
            } else {
                post == pre
            })),
    {
        let t = self.current.unwrap();
        proof {
            lemma_probe_sets_push(self.history@, (t, overloaded));
            assert(self.history@.push((t, overloaded)).drop_last() =~= self.history@);
        }
        if overloaded {
            self.searcher.overloaded();
        } else {
            self.last_good = Some(t);
        }
        self.current = None;
        self.history = Ghost(self.history@.push((t, overloaded)));
    }

    /// The tuple's result: the last validated target, if any probe succeeded.
    pub fn result(&self) -> (r: Option<u64>)
        ensures
            r == self.last_good,
    {
        self.last_good
    }

    /// The last validated target is the last probe that raised no overload
    /// signal; with the exponential searcher it is moreover the highest such
    /// target, and never a target that overloaded.
    pub proof fn lemma_last_good_is_peak(self)
        requires
            self.inv(),
        ensures
            self.last_good == last_success(self.history@),
            self.last_good matches Some(g) ==> is_success(self.history@, g),
            self.searcher matches CliffSearcher::Exponential(e) ==> {
                &&& (self.last_good matches Some(g) ==> (forall|t2: u64|
                    is_success(self.history@, t2) ==> t2 <= g))
                &&& (self.last_good matches Some(g) ==> !is_failure(self.history@, g))
            },
    {
        match self.searcher {
            CliffSearcher::Exponential(e) => {
                match self.last_good {
                    Some(g) => {
                        if is_failure(self.history@, g) {
                            assert(e.upper is Some && g >= e.upper->0);
                            assert(g < e.upper->0);
                        }
                    },
                    None => {},
                }
            },
            CliffSearcher::FixedList(_) => {},
        }
    }
}

/// The result of exploring one experiment tuple.
#[derive(Clone, Copy, PartialEq, Eq, Debug)]
pub enum TupleOutcome {
    /// The searcher was exhausted (or cancellation stopped the loop); the
    /// last validated target, if any probe succeeded.
    Explored { last_good: Option<u64> },
    /// An infrastructure error aborted this tuple after cleanup.
    Failed,
}

/// Iterates the experiment matrix: each tuple gets a fresh searcher and an
/// exploration loop, and keeps either its last validated target or its
/// terminal error. Results already recorded are never lost.
pub struct ExplorationRunner {
    /// The matrix cells, in the order they are explored.
    pub tuples: Vec<ExperimentParameters>,
    /// One outcome per finished tuple, aligned with the matrix prefix.
    pub results: Vec<TupleOutcome>,
}

impl ExplorationRunner {
    /// Structural invariant: outcomes cover a prefix of the matrix.
    pub open spec fn inv(self) -> bool {
        self.results.len() <= self.tuples.len()
    }

    /// A runner over the given matrix, nothing explored yet.
    pub fn new(tuples: Vec<ExperimentParameters>) -> (r: Self)
        ensures
            r.inv(),
            r.tuples == tuples,
            r.results@ == Seq::<TupleOutcome>::empty(),
    {
        ExplorationRunner { tuples, results: Vec::new() }
    }

    /// The parameters of the next unexplored tuple — unless cancellation has
    /// been observed, which stops the matrix without touching anything.
    pub fn next_tuple(&self, cancelled: bool) -> (r: Option<ExperimentParameters>)
        requires
            self.inv(),
        ensures
            cancelled ==> r is None,
            !cancelled && self.results.len() < self.tuples.len() ==> r == Some(
                self.tuples@[self.results.len() as int],
            ),
            !cancelled && self.results.len() == self.tuples.len() ==> r is None,
    {
        if cancelled {
            None
        } else if self.results.len() < self.tuples.len() {
            Some(self.tuples[self.results.len()])
        } else {
            None
        }
    }

    /// Record the outcome of the tuple handed out last; every earlier
    /// result stays exactly as it was.
    pub fn record_tuple(&mut self, outcome: TupleOutcome)
        requires
            old(self).inv(),
            old(self).results.len() < old(self).tuples.len(),
        ensures
            final(self).inv(),
            final(self).tuples == old(self).tuples,
            final(self).results@ == old(self).results@.push(outcome),
    {
        self.results.push(outcome);
    }
}

} // verus!
