//! Cliff-search strategies: lazy, finite sequences of candidate load targets
//! that consume overload feedback to steer toward the saturation point.
//!
//! Two strategies share one two-operation interface (`next` / `overloaded`):
//! an exponential-then-bisecting searcher, and a fixed replay list.

use vstd::prelude::*;

verus! {

/// Stage of an exponential cliff search.
#[derive(Clone, Copy, PartialEq, Eq, Structural, Debug)]
pub enum SearchPhase {
    /// Doubling upward from the floor; no overload has been seen yet.
    Growing,
    /// Bisecting between the last known-good and the first known-bad target.
    Narrowing,
    /// The search has converged or exhausted its range.
    Done,
}

/// Finds the highest sustainable load target between a floor and a ceiling:
/// candidates double while probes succeed, and the first overload switches the
/// search to bisection between the last good and the first bad target, until
/// the bracket is no wider than `tolerance`.
///
/// A candidate handed out by `next` is pending until either `overloaded` marks
/// it bad or the following `next` call treats it as good.
pub struct ExponentialCliffSearcher {
    /// First candidate; also the initial known-good bound.
    pub floor: u64,
    /// Largest candidate the search will ever propose.
    pub ceiling: u64,
    /// Bracket width at which the bisection stops.
    pub tolerance: u64,
    /// Highest target confirmed good so far (starts at the floor).
    pub lower: u64,
    /// Lowest target confirmed bad so far, once one exists.
    pub upper: Option<u64>,
    /// The candidate most recently proposed (or about to be proposed).
    pub candidate: u64,
    /// Where the search stands.
    pub phase: SearchPhase,
    /// True while a proposed candidate awaits feedback.
    pub awaiting: bool,
}

impl ExponentialCliffSearcher {
    /// Structural invariant: bounds ordered, candidate inside the bracket.
    pub open spec fn wf(self) -> bool {
        &&& 1 <= self.floor <= self.ceiling
        &&& 1 <= self.tolerance
        &&& self.floor <= self.lower <= self.ceiling
        &&& self.lower <= self.candidate <= self.ceiling
        &&& (self.phase is Done ==> !self.awaiting)
        &&& match self.phase {
            SearchPhase::Growing => self.upper is None,
            SearchPhase::Narrowing => {
                &&& self.upper matches Some(u)
                &&& self.lower < self.candidate < u <= self.ceiling
            },
            SearchPhase::Done => {
                self.upper matches Some(u) ==> self.lower <= u <= self.ceiling
            },
        }
    }

    /// The largest target this searcher may yet treat as good: the pending
    /// candidate while one awaits feedback, otherwise the known-good bound.
    pub open spec fn feedback_bound(self) -> u64 {
        if self.awaiting {
            self.candidate
        } else {
            self.lower
        }
    }

    /// Will the search be finished once the pending candidate (if any) is
    /// confirmed good? Exactly then does `next` return `None`.
    pub open spec fn spec_exhausted(pre: Self) -> bool {
        match pre.phase {
            SearchPhase::Done => true,
            SearchPhase::Growing => pre.awaiting && pre.candidate == pre.ceiling,
            SearchPhase::Narrowing => pre.awaiting && pre.upper->0 - pre.candidate
                <= pre.tolerance,
        }
    }

    /// The exact target the next call proposes when the search is not yet
    /// exhausted: the pending candidate doubles (capped at the ceiling)
    /// while growing, or the bracket above it is bisected while narrowing;
    /// without a pending candidate the current one is (re)proposed.
    pub open spec fn spec_next_target(pre: Self) -> u64 {
        if !pre.awaiting {
            pre.candidate
        } else {
            match pre.phase {
                SearchPhase::Growing => if pre.candidate > pre.ceiling / 2 {
                    pre.ceiling
                } else {
                    (2 * pre.candidate) as u64
                },
                SearchPhase::Narrowing => (pre.candidate + (pre.upper->0 - pre.candidate)
                    / 2) as u64,
                SearchPhase::Done => pre.candidate,
            }
        }
    }

    /// Relation between the states before and after a `next` call that
    /// returned `r`.
    pub open spec fn next_post(pre: Self, post: Self, r: Option<u64>) -> bool {
        &&& r == (if Self::spec_exhausted(pre) {
            None
        } else {
            Some(Self::spec_next_target(pre))
        })
        &&& post.floor == pre.floor
        &&& post.ceiling == pre.ceiling
        &&& post.tolerance == pre.tolerance
        &&& post.upper == pre.upper
        &&& post.lower == pre.feedback_bound()
        &&& pre.lower <= post.lower
        &&& match r {
            Some(t) => {
                &&& post.awaiting
                &&& post.phase == pre.phase
                &&& !(post.phase is Done)
                &&& post.candidate == t
                &&& post.lower <= t <= pre.ceiling
                &&& t >= pre.feedback_bound()
                &&& (t == pre.feedback_bound() ==> pre.phase is Growing && !pre.awaiting)
            },
            None => {
                &&& post.phase is Done
                &&& !post.awaiting
            },
        }
    }

    /// Relation between the states before and after an `overloaded` call.
    pub open spec fn overloaded_post(pre: Self, post: Self) -> bool {
        &&& post.floor == pre.floor
        &&& post.ceiling == pre.ceiling
        &&& post.tolerance == pre.tolerance
        &&& post.lower == pre.lower
        &&& !post.awaiting
        &&& if pre.awaiting {
            &&& post.upper == Some(pre.candidate)
            &&& (pre.candidate - pre.lower <= pre.tolerance ==> post.phase is Done
                && post.candidate == pre.candidate)
            &&& (pre.candidate - pre.lower > pre.tolerance ==> post.phase is Narrowing
                && post.candidate == (pre.lower + (pre.candidate - pre.lower) / 2) as u64)
        } else {
            post == pre
        }
    }

    /// A searcher that doubles from `floor`, never proposes more than
    /// `ceiling`, and bisects down to a bracket of width `tolerance`.
    pub fn with_tolerance(floor: u64, ceiling: u64, tolerance: u64) -> (r: Self)
        requires
            1 <= floor <= ceiling,
            1 <= tolerance,
        ensures
            r.wf(),
            r == (ExponentialCliffSearcher {
                floor,
                ceiling,
                tolerance,
                lower: floor,
                upper: None,
                candidate: floor,
                phase: SearchPhase::Growing,
                awaiting: false,
            }),
    {
        ExponentialCliffSearcher {
            floor,
            ceiling,
            tolerance,
            lower: floor,
            upper: None,
            candidate: floor,
            phase: SearchPhase::Growing,
            awaiting: false,
        }
    }

    /// A searcher over `[floor, ceiling]` that converges to a bracket of
    /// width one.
    pub fn new(floor: u64, ceiling: u64) -> (r: Self)
        requires
            1 <= floor <= ceiling,
        ensures
            r.wf(),
            r == (ExponentialCliffSearcher {
                floor,
                ceiling,
                tolerance: 1,
                lower: floor,
                upper: None,
                candidate: floor,
                phase: SearchPhase::Growing,
                awaiting: false,
            }),
    {
        Self::with_tolerance(floor, ceiling, 1)
    }

    /// How much work the search has left: an upper bound on the number of
    /// remaining `next` and `overloaded` calls that can still change the
    /// state. Zero once the search is done.
    pub open spec fn search_effort(s: Self) -> int {
        match s.phase {
            SearchPhase::Done => 0,
            SearchPhase::Growing => 6 * (s.ceiling - s.lower) + (s.ceiling - s.candidate) + (
            if s.awaiting {
                1int
            } else {
                2int
            }),
            SearchPhase::Narrowing => 4 * (s.upper->0 - s.lower) + (if s.awaiting {
                1int
            } else {
                2int
            }),
        }
    }

    /// The search yields only finitely many targets: every `next` call that
    /// proposes a candidate strictly reduces the remaining effort, which
    /// never goes below zero.
    pub proof fn lemma_next_makes_progress(pre: Self, post: Self, r: Option<u64>)
        requires
            pre.wf(),
            post.wf(),
            Self::next_post(pre, post, r),
        ensures
            0 <= Self::search_effort(post),
            r is Some ==> Self::search_effort(post) < Self::search_effort(pre),
    {
    }

    /// Overload feedback on a pending candidate also strictly reduces the
    /// remaining effort; without one it changes nothing.
    pub proof fn lemma_overloaded_makes_progress(pre: Self, post: Self)
        requires
            pre.wf(),
            post.wf(),
            Self::overloaded_post(pre, post),
        ensures
            0 <= Self::search_effort(post) <= Self::search_effort(pre),
            pre.awaiting ==> Self::search_effort(post) < Self::search_effort(pre),
    {
    }

    /// Propose the next candidate target, or `None` once the search is done.
    ///
    /// Calling `next` without an intervening `overloaded` confirms the
    /// previous candidate as good and raises the known-good bound to it.
    pub fn next(&mut self) -> (r: Option<u64>)
        requires
            old(self).wf(),
        ensures
            final(self).wf(),
            Self::next_post(*old(self), *final(self), r),
    {
        if self.awaiting {
            // No overload was reported for the pending candidate: it is good.
            self.lower = self.candidate;
            self.awaiting = false;
            match self.phase {
                SearchPhase::Growing => {
                    if self.candidate == self.ceiling {
                        self.phase = SearchPhase::Done;
                    } else if self.candidate > self.ceiling / 2 {
                        self.candidate = self.ceiling;
                    } else {
                        self.candidate = 2 * self.candidate;
                    }
                },
                SearchPhase::Narrowing => {
                    let up = match self.upper {
                        Some(u) => u,
                        None => self.lower,
                    };
                    let gap = up - self.lower;
                    if gap <= self.tolerance {
                        self.phase = SearchPhase::Done;
                    } else {
                        self.candidate = self.lower + gap / 2;
                    }
                },
                SearchPhase::Done => {},
            }
        }
        match self.phase {
            SearchPhase::Done => None,
            _ => {
                self.awaiting = true;
                Some(self.candidate)
            },
        }
    }

    /// Report that the most recently proposed candidate overloaded the
    /// system: it becomes the known-bad bound and the search bisects the
    /// bracket, or finishes if the bracket is already narrow enough.
    /// Without a pending candidate this is a no-op.
    pub fn overloaded(&mut self)
        requires
            old(self).wf(),
        ensures
            final(self).wf(),
            Self::overloaded_post(*old(self), *final(self)),
    {
        if self.awaiting {
            self.awaiting = false;
            self.upper = Some(self.candidate);
            let gap = self.candidate - self.lower;
            if gap <= self.tolerance {
                self.phase = SearchPhase::Done;
            } else {
                self.phase = SearchPhase::Narrowing;
                self.candidate = self.lower + gap / 2;
            }
        }
    }
}

/// Replays a fixed, caller-supplied sequence of targets exactly; overload
/// feedback is recorded for reporting but never changes the sequence.
pub struct LoadIterator {
    /// The targets to replay, in order.
    pub items: Vec<u64>,
    /// How many targets have been handed out.
    pub pos: usize,
    /// Targets that were reported overloaded, in report order.
    pub reported: Vec<u64>,
}

impl LoadIterator {
    /// Structural invariant: the cursor stays within the list.
    pub open spec fn wf(self) -> bool {
        self.pos <= self.items.len()
    }

    /// Relation between the states before and after a `next` call that
    /// returned `r`.
    pub open spec fn next_post(pre: Self, post: Self, r: Option<u64>) -> bool {
        &&& post.items == pre.items
        &&& post.reported == pre.reported
        &&& if pre.pos < pre.items.len() {
            &&& r == Some(pre.items[pre.pos as int])
            &&& post.pos == pre.pos + 1
        } else {
            &&& r is None
            &&& post.pos == pre.pos
        }
    }

    /// Relation between the states before and after an `overloaded` call:
    /// the sequence is untouched, only the report record grows.
    pub open spec fn overloaded_post(pre: Self, post: Self) -> bool {
        &&& post.items == pre.items
        &&& post.pos == pre.pos
        &&& if pre.pos > 0 {
            post.reported@ == pre.reported@.push(pre.items[pre.pos - 1])
        } else {
            post.reported == pre.reported
        }
    }

    /// A replay searcher over the given list of targets.
    pub fn new(items: Vec<u64>) -> (r: Self)
        ensures
            r.wf(),
            r.items == items,
            r.pos == 0,
            r.reported@ == Seq::<u64>::empty(),
    {
        LoadIterator { items, pos: 0, reported: Vec::new() }
    }

    /// Yield the next target of the list, regardless of any feedback.
    pub fn next(&mut self) -> (r: Option<u64>)
        requires
            old(self).wf(),
        ensures
            final(self).wf(),
            Self::next_post(*old(self), *final(self), r),
    {
        if self.pos < self.items.len() {
            let t = self.items[self.pos];
            self.pos = self.pos + 1;
            Some(t)
        } else {
            None
        }
    }

    /// Record that the most recently yielded target overloaded; the sequence
    /// still continues unchanged.
    pub fn overloaded(&mut self)
        requires
            old(self).wf(),
        ensures
            final(self).wf(),
            Self::overloaded_post(*old(self), *final(self)),
    {
        if self.pos > 0 {
            let t = self.items[self.pos - 1];
            self.reported.push(t);
        }
    }
}

/// The closed set of search strategies, dispatched through one
/// `next`/`overloaded` interface; callers must not assume which variant is
/// active.
pub enum CliffSearcher {
    /// Adaptive doubling-then-bisecting search.
    Exponential(ExponentialCliffSearcher),
    /// Fixed replay of previously chosen targets.
    FixedList(LoadIterator),
}

impl CliffSearcher {
    /// Structural invariant of the active strategy.
    pub open spec fn wf(self) -> bool {
        match self {
            CliffSearcher::Exponential(e) => e.wf(),
            CliffSearcher::FixedList(l) => l.wf(),
        }
    }

    /// Propose the next candidate target, or `None` once the strategy is
    /// exhausted.
    pub fn next(&mut self) -> (r: Option<u64>)
        requires
            old(self).wf(),
        ensures
            final(self).wf(),
            *old(self) matches CliffSearcher::Exponential(pre) ==> (*final(self)
                matches CliffSearcher::Exponential(post)
                && ExponentialCliffSearcher::next_post(pre, post, r)),
            *old(self) matches CliffSearcher::FixedList(pre) ==> (*final(self)
                matches CliffSearcher::FixedList(post) && LoadIterator::next_post(pre, post, r)),
    {
        match self {
            CliffSearcher::Exponential(e) => e.next(),
            CliffSearcher::FixedList(l) => l.next(),
        }
    }

    /// Report that the most recently proposed target overloaded the system.
    pub fn overloaded(&mut self)
        requires
            old(self).wf(),
        ensures
            final(self).wf(),
            *old(self) matches CliffSearcher::Exponential(pre) ==> (*final(self)
                matches CliffSearcher::Exponential(post)
                && ExponentialCliffSearcher::overloaded_post(pre, post)),
            *old(self) matches CliffSearcher::FixedList(pre) ==> (*final(self)
                matches CliffSearcher::FixedList(post)
                && LoadIterator::overloaded_post(pre, post)),
    {
        match self {
            CliffSearcher::Exponential(e) => e.overloaded(),
            CliffSearcher::FixedList(l) => l.overloaded(),
        }
    }
}

} // verus!
