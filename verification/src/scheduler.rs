//! Bounded-concurrency scheduler: admits targets from a finite list so that
//! at most `max_in_flight` are active at once, and collects one result per
//! target. A slot is freed by whichever in-flight target finishes first —
//! completion order, not submission order — and a target that fails frees
//! its slot exactly as one that completes, so no failure blocks a sibling.
//!
//! The well-formedness invariant carries the accounting: the in-flight
//! targets and the finished targets together are exactly the targets
//! admitted so far, so no target is ever dropped or duplicated.
use vstd::prelude::*;
use crate::records::{Target, TargetResult, TargetResultView, TargetView};

verus! {

/// One finished target with its result.
pub struct CompletedTarget {
    pub target: Target,
    pub result: TargetResult,
}

/// Mathematical model of `CompletedTarget`.
#[verifier::ext_equal]
pub ghost struct CompletedView {
    pub target: TargetView,
    pub result: TargetResultView,
}

impl View for CompletedTarget {
    type V = CompletedView;

    open spec fn view(&self) -> CompletedView {
        CompletedView { target: self.target@, result: self.result@ }
    }
}

/// The scheduler's state: the targets in submission order, how many of them
/// have been admitted, the targets currently in flight, the finished targets
/// with their results, and the concurrency bound.
pub struct Scheduler {
    pub targets: Vec<Target>,
    pub next_idx: usize,
    pub in_flight: Vec<Target>,
    pub results: Vec<CompletedTarget>,
    pub max_in_flight: usize,
}

/// The targets a sequence of completions came from.
pub open spec fn completed_targets(rs: Seq<CompletedView>) -> Seq<TargetView> {
    rs.map_values(|c: CompletedView| c.target)
}

impl Scheduler {
    pub open spec fn targets_view(&self) -> Seq<TargetView> {
        self.targets@.map_values(|t: Target| t@)
    }

    pub open spec fn in_flight_view(&self) -> Seq<TargetView> {
        self.in_flight@.map_values(|t: Target| t@)
    }

    pub open spec fn results_view(&self) -> Seq<CompletedView> {
        self.results@.map_values(|c: CompletedTarget| c@)
    }

    /// Well-formedness: the concurrency bound holds, and the in-flight and
    /// finished targets together are exactly the admitted prefix of the
    /// target list.
    pub open spec fn wf(&self) -> bool {
        &&& self.max_in_flight >= 1
        &&& self.next_idx <= self.targets@.len()
        &&& self.in_flight@.len() <= self.max_in_flight
        &&& self.in_flight@.len() + self.results@.len() == self.next_idx
        &&& self.in_flight_view().to_multiset().add(
            completed_targets(self.results_view()).to_multiset(),
        ) == self.targets_view().take(self.next_idx as int).to_multiset()
    }

    /// A scheduler over `targets` with concurrency bound `max_in_flight`.
    pub fn new(targets: Vec<Target>, max_in_flight: usize) -> (r: Scheduler)
        requires
            max_in_flight >= 1,
        ensures
            r.wf(),
            r.targets_view() == targets@.map_values(|t: Target| t@),
            r.targets@.len() == targets@.len(),
            r.in_flight@.len() == 0,
            r.results@.len() == 0,
            r.next_idx == 0,
            r.in_flight_view() == Seq::<TargetView>::empty(),
            r.results_view() == Seq::<CompletedView>::empty(),
            r.max_in_flight == max_in_flight,
    {
        let r = Scheduler {
            targets,
            next_idx: 0,
            in_flight: Vec::new(),
            results: Vec::new(),
            max_in_flight,
        };
        proof {
            broadcast use vstd::seq_lib::group_to_multiset_ensures;

            assert(r.in_flight_view() =~= Seq::<TargetView>::empty());
            assert(r.results_view() =~= Seq::<CompletedView>::empty());
            assert(completed_targets(r.results_view()) =~= Seq::<TargetView>::empty());
            assert(r.targets_view().take(0) =~= Seq::<TargetView>::empty());
            assert(Seq::<TargetView>::empty().to_multiset().add(
                Seq::<TargetView>::empty().to_multiset(),
            ) =~= Seq::<TargetView>::empty().to_multiset());
        }
        r
    }

    /// How many targets have not been admitted yet.
    pub fn remaining(&self) -> (r: usize)
        requires
            self.wf(),
        ensures
            r == self.targets@.len() - self.next_idx,
    {
        self.targets.len() - self.next_idx
    }

    /// Whether a free slot is open under the concurrency bound.
    pub fn has_capacity(&self) -> (r: bool)
        ensures
            r == (self.in_flight@.len() < self.max_in_flight),
    {
        self.in_flight.len() < self.max_in_flight
    }

    /// Admit the next target when one is pending and a slot is free. The
    /// admitted target joins the in-flight set and is returned; with no
    /// pending target or no free slot, nothing changes.
    pub fn start_next(&mut self) -> (r: Option<Target>)
        requires
            old(self).wf(),
        ensures
            final(self).wf(),
            final(self).targets_view() == old(self).targets_view(),
            final(self).targets@.len() == old(self).targets@.len(),
            final(self).max_in_flight == old(self).max_in_flight,
            final(self).results_view() == old(self).results_view(),
            final(self).results@.len() == old(self).results@.len(),
            (old(self).next_idx < old(self).targets@.len() && old(self).in_flight@.len() < old(
                self,
            ).max_in_flight) ==> {
                &&& final(self).next_idx == old(self).next_idx + 1
                &&& final(self).in_flight@.len() == old(self).in_flight@.len() + 1
                &&& r matches Option::Some(t) && t@ == old(self).targets_view()[old(
                    self,
                ).next_idx as int]
                &&& final(self).in_flight_view() == old(self).in_flight_view().push(
                    old(self).targets_view()[old(self).next_idx as int],
                )
            },
            !(old(self).next_idx < old(self).targets@.len() && old(self).in_flight@.len() < old(
                self,
            ).max_in_flight) ==> {
                &&& r is None
                &&& *final(self) == *old(self)
            },
    {
        if self.next_idx < self.targets.len() && self.in_flight.len() < self.max_in_flight {
            let t = self.targets[self.next_idx].duplicate();
            let t2 = t.duplicate();
            self.in_flight.push(t);
            self.next_idx = self.next_idx + 1;
            proof {
                broadcast use vstd::seq_lib::group_to_multiset_ensures;

                assert(self.in_flight_view() =~= old(self).in_flight_view().push(
                    old(self).targets_view()[old(self).next_idx as int],
                ));
                assert(self.targets_view().take(self.next_idx as int) =~= old(
                    self,
                ).targets_view().take(old(self).next_idx as int).push(
                    old(self).targets_view()[old(self).next_idx as int],
                ));
                assert(self.in_flight_view().to_multiset().add(
                    completed_targets(self.results_view()).to_multiset(),
                ) =~= self.targets_view().take(self.next_idx as int).to_multiset());
            }
            Option::Some(t2)
        } else {
            Option::None
        }
    }

    /// Record that the in-flight target at `idx` finished with `result` —
    /// completed or failed alike: the slot is freed and the siblings are
    /// untouched either way.
    pub fn complete(&mut self, idx: usize, result: TargetResult)
        requires
            old(self).wf(),
            idx < old(self).in_flight@.len(),
        ensures
            final(self).wf(),
            final(self).targets_view() == old(self).targets_view(),
            final(self).targets@.len() == old(self).targets@.len(),
            final(self).max_in_flight == old(self).max_in_flight,
            final(self).next_idx == old(self).next_idx,
            final(self).in_flight@.len() == old(self).in_flight@.len() - 1,
            final(self).results@.len() == old(self).results@.len() + 1,
            final(self).in_flight_view() == old(self).in_flight_view().remove(idx as int),
            final(self).results_view() == old(self).results_view().push(
                CompletedView {
                    target: old(self).in_flight_view()[idx as int],
                    result: result@,
                },
            ),
    {
        let t = self.in_flight.remove(idx);
        self.results.push(CompletedTarget { target: t, result });
        proof {
            broadcast use vstd::seq_lib::group_to_multiset_ensures;

            assert(self.in_flight_view() =~= old(self).in_flight_view().remove(idx as int));
            assert(self.results_view() =~= old(self).results_view().push(
                CompletedView {
                    target: old(self).in_flight_view()[idx as int],
                    result: result@,
                },
            ));
            assert(completed_targets(self.results_view()) =~= completed_targets(
                old(self).results_view(),
            ).push(old(self).in_flight_view()[idx as int]));
            let x = old(self).in_flight_view()[idx as int];
            assert(old(self).in_flight_view().to_multiset().contains(x));
            assert(self.in_flight_view().to_multiset().add(
                completed_targets(self.results_view()).to_multiset(),
            ) =~= self.targets_view().take(self.next_idx as int).to_multiset());
        }
    }

    /// Whether every target has been admitted and every slot has drained.
    pub fn finished(&self) -> (r: bool)
        ensures
            r == (self.next_idx == self.targets@.len() && self.in_flight@.len() == 0),
    {
        self.next_idx == self.targets.len() && self.in_flight.len() == 0
    }
}

/// No target is lost and none is duplicated: once every target has been
/// admitted and every slot has drained, the finished targets are exactly the
/// submitted targets — one result each, whatever each result says.
pub proof fn lemma_no_target_lost(s: Scheduler)
    requires
        s.wf(),
        s.next_idx == s.targets@.len(),
        s.in_flight@.len() == 0,
    ensures
        s.results@.len() == s.targets@.len(),
        completed_targets(s.results_view()).to_multiset() == s.targets_view().to_multiset(),
{
    broadcast use vstd::seq_lib::group_to_multiset_ensures;

    assert(s.in_flight_view() =~= Seq::<TargetView>::empty());
    assert(s.targets_view().take(s.next_idx as int) =~= s.targets_view());
    assert(Seq::<TargetView>::empty().to_multiset().add(
        completed_targets(s.results_view()).to_multiset(),
    ) =~= completed_targets(s.results_view()).to_multiset());
}

} // verus!
