//! One capacity probe as an explicit state machine.
//!
//! The driver owns every decision of a single run — priming, the cancellation
//! gate, classifying concurrent client output, collecting artifacts, and the
//! verdict — while the caller performs the remote work between steps and
//! reports each outcome back. Whatever path a run takes, it passes through
//! the cleanup phase exactly once before it is done.

use vstd::prelude::*;

use crate::classify::ClientObserver;
use crate::classify::OverloadSignal;
use crate::classify::line_signal;
use crate::classify::spec_classify;

verus! {

/// The phases of one probe, in the order a fully successful run visits them.
#[derive(Clone, Copy, PartialEq, Eq, Structural, Debug)]
pub enum DriverPhase {
    /// A single client loads data to completion before anything is measured.
    Priming,
    /// Cancellation is sampled here, after priming and before any client
    /// starts.
    CancelGate,
    /// All clients run concurrently and their output is classified.
    Running,
    /// Statistics and histograms are pulled after a fully clean run.
    Collecting,
    /// The server is stopped; every run reaches this phase exactly once.
    Cleanup,
    /// The verdict is available.
    Done,
}

/// How one probe ended.
#[derive(Clone, Copy, PartialEq, Eq, Structural, Debug)]
pub enum RunOutcome {
    /// Every client finished cleanly and no overload signal was raised.
    Success,
    /// At least one overload signal was raised: capacity feedback, not an
    /// error.
    Overloaded,
    /// Cancellation was observed before any client started; the probe
    /// counts as neither success nor overload.
    Aborted,
    /// An infrastructure failure (spawn, stream, transfer) killed the probe;
    /// it propagates after cleanup and is never capacity feedback.
    InfraFailed,
}

/// Which output files a probe produced.
#[derive(Clone, Copy, PartialEq, Eq, Structural, Debug)]
pub struct Artifacts {
    /// The merged raw output log; every probe that ran at all has one.
    pub raw_log: bool,
    /// The server-side statistics snapshot, only after a fully clean run.
    pub statistics: bool,
    /// How many per-client histogram copies were pulled.
    pub histograms: u64,
}

/// One client process within a probe: its classification state and, once it
/// exited, whether it did so cleanly.
pub struct ClientSlot {
    /// Classification state local to this client's stream.
    pub obs: ClientObserver,
    /// True once the client process exited.
    pub done: bool,
    /// Exit status, meaningful once `done`.
    pub exit_ok: bool,
}

/// The immutable result of one probe.
pub struct RunVerdict {
    /// The load target this probe exercised.
    pub target: u64,
    /// How the probe ended.
    pub outcome: RunOutcome,
    /// True exactly for a fully clean run.
    pub succeeded: bool,
    /// The first overload signal raised, if any: the one that steers the
    /// search.
    pub overload: Option<OverloadSignal>,
    /// Every overload signal raised, in order, for the diagnostic record.
    pub signals: Vec<OverloadSignal>,
    /// Which output files the probe produced.
    pub artifacts: Artifacts,
    /// Whether stopping the server worked; a cleanup failure never
    /// overwrites the outcome.
    pub cleanup_ok: bool,
}

/// Ceiling division share: the smallest per-client rate whose `clients`-fold
/// sum covers `target`.
pub open spec fn spec_per_client_target(target: u64, clients: u64) -> int {
    if target % clients == 0 {
        target as int / clients as int
    } else {
        target as int / clients as int + 1
    }
}

/// Compute the per-client share of a probe target, rounding up.
pub fn per_client_share(target: u64, clients: u64) -> (r: u64)
    requires
        1 <= clients,
    ensures
        r == spec_per_client_target(target, clients),
        clients * r >= target,
        r >= 1 ==> clients * (r - 1) < target,
{
    let q = target / clients;
    let m = target % clients;
    proof {
        vstd::arithmetic::div_mod::lemma_fundamental_div_mod(target as int, clients as int);
        let qi = target as int / clients as int;
        let mi = target as int % clients as int;
        assert(clients * qi == target - mi) by (nonlinear_arith)
            requires
                target == clients * qi + mi,
        ;
        assert(clients * (qi + 1) == target - mi + clients) by (nonlinear_arith)
            requires
                target == clients * qi + mi,
        ;
        assert(clients * (qi - 1) == clients * qi - clients) by (nonlinear_arith);
        assert(mi != 0 ==> qi < target) by (nonlinear_arith)
            requires
                target == clients * qi + mi,
                clients >= 1,
                0 <= mi < clients,
                0 <= qi,
        ;
    }
    if m == 0 {
        q
    } else {
        q + 1
    }
}

/// The overload signals one finished client contributes: everything its
/// stream raised, then a process-failure signal if it exited non-zero.
pub open spec fn slot_signals(s: ClientSlot, i: int) -> Seq<OverloadSignal> {
    s.obs.signals@ + if s.exit_ok {
        Seq::empty()
    } else {
        seq![OverloadSignal::ProcessFailure { client: i as usize }]
    }
}

/// The merge of the first `n` clients' signals, in client order.
pub open spec fn merged_upto(slots: Seq<ClientSlot>, n: int) -> Seq<OverloadSignal>
    decreases n,
{
    if n <= 0 {
        Seq::empty()
    } else {
        merged_upto(slots, n - 1) + slot_signals(slots[n - 1], n - 1)
    }
}

/// Drives one probe at one target through its phases; the caller performs
/// the remote work of each phase and reports how it went.
pub struct RunDriver {
    /// The load target of this probe.
    pub target: u64,
    /// How many client processes the probe fans out to.
    pub client_count: usize,
    /// The rounded-up per-client share of the target.
    pub per_client_target: u64,
    /// Where the probe stands.
    pub phase: DriverPhase,
    /// One slot per client, present while clients run and afterwards.
    pub slots: Vec<ClientSlot>,
    /// The merged overload signals, fixed when the clients' results merge
    /// (or a lone prime-failure signal).
    pub signals: Vec<OverloadSignal>,
    /// The outcome, decided by the time cleanup starts.
    pub outcome: Option<RunOutcome>,
    /// Which output files exist so far.
    pub artifacts: Artifacts,
    /// How often cleanup has run; exactly once by the time the probe is done.
    pub cleanup_runs: u64,
    /// Whether cleanup worked, recorded separately from the outcome.
    pub cleanup_ok: Option<bool>,
}

impl RunDriver {
    /// Structural invariant of the probe state machine.
    pub open spec fn wf(self) -> bool {
        &&& 1 <= self.client_count
        &&& self.per_client_target == spec_per_client_target(
            self.target,
            self.client_count as u64,
        )
        &&& self.cleanup_runs == (if self.phase is Done {
            1int
        } else {
            0int
        })
        &&& (self.phase is Done <==> self.cleanup_ok is Some)
        &&& (match self.outcome {
            Some(o) => (o is Overloaded <==> self.signals.len() >= 1),
            None => self.signals.len() == 0,
        })
        &&& (self.outcome is Some <==> (self.phase is Cleanup || self.phase is Done))
        &&& (self.artifacts.raw_log && (self.artifacts.statistics ==> self.outcome == Some(
            RunOutcome::Success,
        )) && self.artifacts.histograms == (if self.artifacts.statistics {
            self.client_count as int
        } else {
            0int
        }))
        &&& match self.phase {
            DriverPhase::Priming => self.slots.len() == 0,
            DriverPhase::CancelGate => self.slots.len() == 0,
            DriverPhase::Running => {
                &&& self.slots.len() == self.client_count
                &&& forall|i: int|
                    0 <= i < self.slots.len() ==> (#[trigger] self.slots[i]).obs.per_client_target
                        == self.per_client_target && (self.slots[i].obs.finished <==> self.slots[i].done)
            },
            DriverPhase::Collecting => {
                &&& self.slots.len() == self.client_count
                &&& forall|i: int|
                    0 <= i < self.slots.len() ==> (#[trigger] self.slots[i]).done
                        && self.slots[i].exit_ok
            },
            DriverPhase::Cleanup => true,
            DriverPhase::Done => true,
        }
    }

    /// A probe at `target` fanning out to `client_count` clients, ready to
    /// prime.
    pub fn new(target: u64, client_count: usize) -> (r: Self)
        requires
            1 <= client_count,
        ensures
            r.wf(),
            r.target == target,
            r.client_count == client_count,
            r.per_client_target == spec_per_client_target(target, client_count as u64),
            r.phase is Priming,
    {
        let per = per_client_share(target, client_count as u64);
        RunDriver {
            target,
            client_count,
            per_client_target: per,
            phase: DriverPhase::Priming,
            slots: Vec::new(),
            signals: Vec::new(),
            outcome: None,
            artifacts: Artifacts { raw_log: true, statistics: false, histograms: 0 },
            cleanup_runs: 0,
            cleanup_ok: None,
        }
    }

    /// Report how the priming pass exited. A non-zero exit is overload
    /// feedback (`PrimeFailure`) and the probe skips straight to cleanup.
    pub fn prime_finished(&mut self, exit_ok: bool)
        requires
            old(self).wf(),
            old(self).phase is Priming,
        ensures
            final(self).wf(),
            final(self).target == old(self).target,
            final(self).client_count == old(self).client_count,
            final(self).per_client_target == old(self).per_client_target,
            exit_ok ==> final(self).phase is CancelGate && final(self).signals@ == old(
                self,
            ).signals@ && final(self).outcome is None,
            !exit_ok ==> final(self).phase is Cleanup && final(self).outcome == Some(
                RunOutcome::Overloaded,
            ) && final(self).signals@ == seq![OverloadSignal::PrimeFailure],
    {
        if exit_ok {
            self.phase = DriverPhase::CancelGate;
        } else {
            self.signals.push(OverloadSignal::PrimeFailure);
            self.outcome = Some(RunOutcome::Overloaded);
            self.phase = DriverPhase::Cleanup;
            proof {
                assert(self.signals@ =~= seq![OverloadSignal::PrimeFailure]);
            }
        }
    }

    /// Sample the cancellation token before any client starts: a cancelled
    /// probe never spawns a client and ends aborted — neither success nor
    /// overload.
    pub fn cancel_gate(&mut self, cancelled: bool)
        requires
            old(self).wf(),
            old(self).phase is CancelGate,
        ensures
            final(self).wf(),
            final(self).target == old(self).target,
            final(self).client_count == old(self).client_count,
            final(self).per_client_target == old(self).per_client_target,
            final(self).signals@ == old(self).signals@,
            cancelled ==> final(self).phase is Cleanup && final(self).outcome == Some(
                RunOutcome::Aborted,
            ),
            !cancelled ==> {
                &&& final(self).phase is Running
                &&& final(self).outcome is None
                &&& final(self).slots@.len() == old(self).client_count
                &&& forall|i: int|
                    0 <= i < final(self).slots@.len() ==> {
                        let s = #[trigger] final(self).slots@[i];
                        &&& s.obs.per_client_target == old(self).per_client_target
                        &&& s.obs.data_lines == 0
                        &&& s.obs.signals@ == Seq::<OverloadSignal>::empty()
                        &&& !s.obs.finished
                        &&& !s.done
                    }
            },
    {
        if cancelled {
            self.outcome = Some(RunOutcome::Aborted);
            self.phase = DriverPhase::Cleanup;
        } else {
            let mut i: usize = 0;
            while i < self.client_count
                invariant
                    old(self).wf(),
                    old(self).phase is CancelGate,
                    self.target == old(self).target,
                    self.client_count == old(self).client_count,
                    self.per_client_target == old(self).per_client_target,
                    self.signals == old(self).signals,
                    self.outcome == old(self).outcome,
                    self.phase == old(self).phase,
                    self.artifacts == old(self).artifacts,
                    self.cleanup_runs == old(self).cleanup_runs,
                    self.cleanup_ok == old(self).cleanup_ok,
                    i <= self.client_count,
                    self.slots@.len() == i,
                    forall|k: int|
                        0 <= k < i ==> {
                            let s = #[trigger] self.slots@[k];
                            &&& s.obs.per_client_target == self.per_client_target
                            &&& s.obs.data_lines == 0
                            &&& s.obs.signals@ == Seq::<OverloadSignal>::empty()
                            &&& !s.obs.finished
                            &&& !s.done
                        },
                decreases self.client_count - i,
            {
                let obs = ClientObserver::new(self.per_client_target);
                self.slots.push(ClientSlot { obs, done: false, exit_ok: false });
                i = i + 1;
            }
            self.phase = DriverPhase::Running;
        }
    }

    /// Classify one line of one running client's output.
    pub fn client_line(&mut self, client: usize, line: &[u8])
        requires
            old(self).wf(),
            old(self).phase is Running,
            client < old(self).client_count,
            !old(self).slots@[client as int].done,
        ensures
            final(self).wf(),
            final(self).target == old(self).target,
            final(self).client_count == old(self).client_count,
            final(self).per_client_target == old(self).per_client_target,
            final(self).phase is Running,
            final(self).slots@.len() == old(self).slots@.len(),
            forall|k: int|
                0 <= k < final(self).slots@.len() && k != client ==> final(self).slots@[k] == old(
                    self,
                ).slots@[k],
            ({
                let pre = old(self).slots@[client as int];
                let post = final(self).slots@[client as int];
                let ev = spec_classify(line@);
                &&& !post.done
                &&& post.exit_ok == pre.exit_ok
                &&& !post.obs.finished
                &&& post.obs.per_client_target == pre.obs.per_client_target
                &&& post.obs.signals@ == (match line_signal(pre.obs.per_client_target, ev) {
                    Some(sig) => pre.obs.signals@.push(sig),
                    None => pre.obs.signals@,
                })
                &&& (post.obs.data_lines == 0 <==> pre.obs.data_lines == 0 && !(ev is Data))
            }),
    {
        let slot = &mut self.slots[client];
        slot.obs.observe_line(line);
    }

    /// Report that one running client's process exited; its stream is closed
    /// (raising `MissingOutput` if it never produced a data line) and its
    /// exit status recorded.
    pub fn client_exited(&mut self, client: usize, exit_ok: bool)
        requires
            old(self).wf(),
            old(self).phase is Running,
            client < old(self).client_count,
            !old(self).slots@[client as int].done,
        ensures
            final(self).wf(),
            final(self).target == old(self).target,
            final(self).client_count == old(self).client_count,
            final(self).per_client_target == old(self).per_client_target,
            final(self).phase is Running,
            final(self).slots@.len() == old(self).slots@.len(),
            forall|k: int|
                0 <= k < final(self).slots@.len() && k != client ==> final(self).slots@[k] == old(
                    self,
                ).slots@[k],
            ({
                let pre = old(self).slots@[client as int];
                let post = final(self).slots@[client as int];
                &&& post.done
                &&& post.exit_ok == exit_ok
                &&& post.obs.per_client_target == pre.obs.per_client_target
                &&& post.obs.data_lines == pre.obs.data_lines
                &&& post.obs.signals@ == (if pre.obs.data_lines == 0 {
                    pre.obs.signals@.push(OverloadSignal::MissingOutput)
                } else {
                    pre.obs.signals@
                })
            }),
    {
        let slot = &mut self.slots[client];
        slot.obs.end_of_stream();
        slot.done = true;
        slot.exit_ok = exit_ok;
    }

    /// Merge the clients' results once all of them have exited: any signal
    /// (or any non-zero exit) makes the probe overloaded and skips
    /// collection; a fully clean run moves on to collecting artifacts.
    pub fn clients_finished(&mut self)
        requires
            old(self).wf(),
            old(self).phase is Running,
            forall|i: int| 0 <= i < old(self).slots@.len() ==> (#[trigger] old(self).slots@[i]).done,
        ensures
            final(self).wf(),
            final(self).target == old(self).target,
            final(self).client_count == old(self).client_count,
            final(self).per_client_target == old(self).per_client_target,
            final(self).slots@ == old(self).slots@,
            final(self).signals@ == merged_upto(old(self).slots@, old(self).slots@.len() as int),
            final(self).signals@.len() >= 1 ==> final(self).phase is Cleanup && final(self).outcome
                == Some(RunOutcome::Overloaded),
            final(self).signals@.len() == 0 ==> final(self).phase is Collecting
                && final(self).outcome is None,
    {
        let n = self.client_count;
        let mut merged: Vec<OverloadSignal> = Vec::new();
        let mut i: usize = 0;
        while i < n
            invariant
                old(self).wf(),
                old(self).phase is Running,
                *self == *old(self),
                i <= n,
                n == self.client_count,
                merged@ == merged_upto(self.slots@, i as int),
            decreases n - i,
        {
            let sigs = &self.slots[i].obs.signals;
            let mut j: usize = 0;
            while j < sigs.len()
                invariant
                    old(self).wf(),
                    *self == *old(self),
                    i < self.slots@.len(),
                    sigs == &self.slots@[i as int].obs.signals,
                    j <= sigs.len(),
                    merged@ == merged_upto(self.slots@, i as int) + sigs@.take(j as int),
                decreases sigs.len() - j,
            {
                let s = sigs[j];
                merged.push(s);
                proof {
                    assert(sigs@.take(j + 1) =~= sigs@.take(j as int).push(sigs@[j as int]));
                }
                j = j + 1;
            }
            proof {
                assert(sigs@.take(sigs@.len() as int) =~= sigs@);
            }
            if !self.slots[i].exit_ok {
                merged.push(OverloadSignal::ProcessFailure { client: i });
            }
            proof {
                assert(merged@ =~= merged_upto(self.slots@, i + 1));
            }
            i = i + 1;
        }
        self.signals = merged;
        if self.signals.len() > 0 {
            self.outcome = Some(RunOutcome::Overloaded);
            self.phase = DriverPhase::Cleanup;
        } else {
            self.phase = DriverPhase::Collecting;
            proof {
                assert(forall|k: int|
                    0 <= k < self.slots@.len() ==> (#[trigger] self.slots@[k]).done);
                assert forall|k: int|
                    0 <= k < self.slots@.len() implies (#[trigger] self.slots@[k]).exit_ok by {
                    if !self.slots@[k].exit_ok {
                        lemma_merged_upto_includes_failure(self.slots@, k, self.slots@.len() as int);
                    }
                }
            }
        }
    }

    /// Report whether pulling the statistics snapshot and histograms worked.
    /// A transfer failure is infrastructure trouble, not capacity feedback;
    /// the raw log remains either way.
    pub fn collect_finished(&mut self, ok: bool)
        requires
            old(self).wf(),
            old(self).phase is Collecting,
        ensures
            final(self).wf(),
            final(self).target == old(self).target,
            final(self).client_count == old(self).client_count,
            final(self).per_client_target == old(self).per_client_target,
            final(self).signals@ == old(self).signals@,
            final(self).phase is Cleanup,
            ok ==> final(self).outcome == Some(RunOutcome::Success) && final(self).artifacts == (
            Artifacts {
                raw_log: true,
                statistics: true,
                histograms: old(self).client_count as u64,
            }),
            !ok ==> final(self).outcome == Some(RunOutcome::InfraFailed) && final(self).artifacts
                == old(self).artifacts,
    {
        if ok {
            self.outcome = Some(RunOutcome::Success);
            self.artifacts = Artifacts {
                raw_log: true,
                statistics: true,
                histograms: self.client_count as u64,
            };
        } else {
            self.outcome = Some(RunOutcome::InfraFailed);
        }
        self.phase = DriverPhase::Cleanup;
    }

    /// Report an infrastructure failure (spawn, stream read, connection):
    /// the probe aborts to cleanup and the failure propagates afterwards,
    /// never as capacity feedback.
    pub fn infra_failed(&mut self)
        requires
            old(self).wf(),
            old(self).phase is Priming || old(self).phase is CancelGate || old(self).phase
                is Running || old(self).phase is Collecting,
        ensures
            final(self).wf(),
            final(self).target == old(self).target,
            final(self).client_count == old(self).client_count,
            final(self).per_client_target == old(self).per_client_target,
            final(self).signals@ == old(self).signals@,
            final(self).phase is Cleanup,
            final(self).outcome == Some(RunOutcome::InfraFailed),
    {
        self.outcome = Some(RunOutcome::InfraFailed);
        self.phase = DriverPhase::Cleanup;
    }

    /// Report how stopping the server went. This is the only step that
    /// finishes a probe, and it can run only once; its success or failure is
    /// recorded beside the outcome, never instead of it.
    pub fn cleanup_finished(&mut self, ok: bool)
        requires
            old(self).wf(),
            old(self).phase is Cleanup,
        ensures
            final(self).wf(),
            final(self).target == old(self).target,
            final(self).client_count == old(self).client_count,
            final(self).per_client_target == old(self).per_client_target,
            final(self).signals@ == old(self).signals@,
            final(self).outcome == old(self).outcome,
            final(self).artifacts == old(self).artifacts,
            final(self).phase is Done,
            final(self).cleanup_runs == old(self).cleanup_runs + 1,
            final(self).cleanup_ok == Some(ok),
    {
        self.cleanup_runs = self.cleanup_runs + 1;
        self.cleanup_ok = Some(ok);
        self.phase = DriverPhase::Done;
    }

    /// The verdict of a finished probe.
    pub fn into_verdict(self) -> (v: RunVerdict)
        requires
            self.wf(),
            self.phase is Done,
        ensures
            v.target == self.target,
            Some(v.outcome) == self.outcome,
            v.succeeded == (self.outcome == Some(RunOutcome::Success)),
            v.signals@ == self.signals@,
            v.overload == (if self.signals@.len() > 0 {
                Some(self.signals@[0])
            } else {
                None::<OverloadSignal>
            }),
            (v.overload is Some <==> v.outcome is Overloaded),
            v.artifacts == self.artifacts,
            Some(v.cleanup_ok) == self.cleanup_ok,
    {
        let outcome = match self.outcome {
            Some(o) => o,
            None => RunOutcome::InfraFailed,
        };
        let cleanup_ok = match self.cleanup_ok {
            Some(b) => b,
            None => false,
        };
        let overload = if self.signals.len() > 0 {
            Some(self.signals[0])
        } else {
            None
        };
        RunVerdict {
            target: self.target,
            outcome,
            succeeded: matches!(outcome, RunOutcome::Success),
            overload,
            signals: self.signals,
            artifacts: self.artifacts,
            cleanup_ok,
        }
    }
}

/// If some client among the first `n` exited non-zero, the merged signal
/// record is non-empty.
proof fn lemma_merged_upto_includes_failure(slots: Seq<ClientSlot>, k: int, n: int)
    requires
        0 <= k < n,
        !slots[k].exit_ok,
    ensures
        merged_upto(slots, n).len() >= 1,
    decreases n,
{
    if k < n - 1 {
        lemma_merged_upto_includes_failure(slots, k, n - 1);
    }
}

/// Cleanup (the server stop) is invoked exactly once per probe, whatever
/// happened in the priming, running, or collecting phases and whether or not
/// cancellation was observed: a probe that is done has run it once, and a
/// probe that is not yet done has never run it.
pub proof fn lemma_cleanup_exactly_once(d: RunDriver)
    requires
        d.wf(),
    ensures
        d.phase is Done ==> d.cleanup_runs == 1,
        !(d.phase is Done) ==> d.cleanup_runs == 0,
{
}

} // verus!
