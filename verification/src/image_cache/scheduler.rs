//! The download scheduler: it admits the fetches of the files that are still
//! missing, at most `CONCURRENT_DOWNLOADS` at a time and in the order of their
//! indices, and records how each of them ended.
//!
//! The scheduler decides; the application runs the fetches and reports back.
//! A failed fetch stops nothing: every unit is admitted and runs to its end.

use vstd::prelude::*;
use crate::image_cache::CONCURRENT_DOWNLOADS;

verus! {

/// How the fetch of one file ended.
#[derive(Clone, Copy, Debug, PartialEq, Eq)]
pub enum UnitOutcome {
    /// The file was fetched and written.
    Succeeded,
    /// Every attempt failed.
    Failed,
    /// The unit of work itself broke off before it could report.
    Aborted,
}

/// Where the fetch of one file stands.
#[derive(Clone, Copy, Debug, PartialEq, Eq)]
pub enum UnitState {
    /// Not admitted yet.
    Pending,
    /// Admitted and not yet reported back.
    Running,
    /// Reported back.
    Finished(UnitOutcome),
}

/// The scheduler as a mathematical value.
pub struct SchedulerView {
    /// The indices of the files to fetch, ascending.
    pub queue: Seq<usize>,
    /// The state of each unit, by its place in `queue`.
    pub units: Seq<UnitState>,
    /// How many units have been admitted.
    pub started: nat,
    /// The largest number of units that were ever running at once.
    pub peak: nat,
}

/// The plan holds the index `i`.
pub open spec fn plans(plan: Seq<usize>, i: int) -> bool {
    exists|k: int| 0 <= k < plan.len() && plan[k] == i
}

/// The indices `i` with `present[i]` false are exactly the entries of `plan`,
/// in ascending order.
pub open spec fn is_plan_of(plan: Seq<usize>, present: Seq<bool>) -> bool {
    &&& forall|k: int| 0 <= k < plan.len() ==> plan[k] < present.len() && !present[plan[k] as int]
    &&& forall|k: int, l: int| 0 <= k < l < plan.len() ==> plan[k] < plan[l]
    &&& forall|i: int| 0 <= i < present.len() && !present[i] ==> #[trigger] plans(plan, i)
}

/// How many units are running.
pub open spec fn count_running(units: Seq<UnitState>) -> nat
    decreases units.len(),
{
    if units.len() == 0 {
        0
    } else {
        count_running(units.drop_last()) + if units.last() is Running {
            1nat
        } else {
            0nat
        }
    }
}

impl SchedulerView {
    /// How many units are running.
    pub open spec fn in_flight(self) -> nat {
        count_running(self.units)
    }

    /// What holds of every scheduler: units are admitted in the order of the
    /// queue, and never more than `CONCURRENT_DOWNLOADS` of them are running.
    pub open spec fn wf(self) -> bool {
        &&& self.queue.len() == self.units.len()
        &&& forall|k: int, l: int| 0 <= k < l < self.queue.len() ==> self.queue[k] < self.queue[l]
        &&& self.started <= self.units.len()
        &&& forall|k: int|
            0 <= k < self.units.len() ==> (#[trigger] self.units[k] is Pending <==> k
                >= self.started)
        &&& self.in_flight() <= self.peak
        &&& self.peak <= CONCURRENT_DOWNLOADS
    }

    /// A unit waits and a slot is free.
    pub open spec fn can_start(self) -> bool {
        self.started < self.units.len() && self.in_flight() < CONCURRENT_DOWNLOADS
    }

    /// The scheduler after it has admitted the next unit.
    pub open spec fn after_start(self) -> SchedulerView {
        SchedulerView {
            queue: self.queue,
            units: self.units.update(self.started as int, UnitState::Running),
            started: self.started + 1,
            peak: if self.in_flight() + 1 > self.peak {
                self.in_flight() + 1
            } else {
                self.peak
            },
        }
    }

    /// The unit for file `index` is running, and stands at place `at`.
    pub open spec fn runs_at(self, index: usize, at: int) -> bool {
        0 <= at < self.units.len() && at < self.queue.len() && self.queue[at] == index
            && self.units[at] is Running
    }

    /// The unit for file `index` is running.
    pub open spec fn is_running(self, index: usize) -> bool {
        exists|at: int| self.runs_at(index, at)
    }

    /// The scheduler after the unit at place `at` has reported `outcome`.
    pub open spec fn after_finish(self, at: int, outcome: UnitOutcome) -> SchedulerView {
        SchedulerView {
            queue: self.queue,
            units: self.units.update(at, UnitState::Finished(outcome)),
            started: self.started,
            peak: self.peak,
        }
    }

    /// Every unit has been admitted and has reported back.
    pub open spec fn is_done(self) -> bool {
        self.started == self.units.len() && self.in_flight() == 0
    }

    /// Some unit ended otherwise than in success.
    pub open spec fn any_failed(self) -> bool {
        exists|k: int|
            0 <= k < self.units.len() && (#[trigger] self.units[k] matches UnitState::Finished(o)
                && o != UnitOutcome::Succeeded)
    }

    /// The state of the unit for file `index`, if the queue holds that file.
    pub open spec fn state_of(self, index: usize) -> Option<UnitState> {
        if exists|k: int| 0 <= k < self.queue.len() && k < self.units.len() && self.queue[k] == index {
            let k = choose|k: int|
                0 <= k < self.queue.len() && k < self.units.len() && self.queue[k] == index;
            Some(self.units[k])
        } else {
            None
        }
    }
}

/// Replacing one unit's state changes the number of running units by what
/// that unit adds or takes away.
pub proof fn lemma_count_update(units: Seq<UnitState>, at: int, state: UnitState)
    requires
        0 <= at < units.len(),
    ensures
        count_running(units.update(at, state)) + (if units[at] is Running {
            1nat
        } else {
            0nat
        }) == count_running(units) + (if state is Running {
            1nat
        } else {
            0nat
        }),
    decreases units.len(),
{
    let changed = units.update(at, state);
    if at == units.len() - 1 {
        assert(changed.drop_last() =~= units.drop_last());
    } else {
        assert(changed.drop_last() =~= units.drop_last().update(at, state));
        lemma_count_update(units.drop_last(), at, state);
    }
}

/// No more units are running than there are units, and none is running
/// exactly when the count is zero.
pub proof fn lemma_count_bounds(units: Seq<UnitState>)
    ensures
        count_running(units) <= units.len(),
        count_running(units) == 0 <==> forall|k: int|
            0 <= k < units.len() ==> !(#[trigger] units[k] is Running),
    decreases units.len(),
{
    if units.len() > 0 {
        let front = units.drop_last();
        lemma_count_bounds(front);
        if count_running(units) == 0 {
            assert forall|k: int| 0 <= k < units.len() implies !(#[trigger] units[k] is Running) by {
                if k < front.len() {
                    assert(front[k] == units[k]);
                }
            }
        } else if forall|k: int| 0 <= k < units.len() ==> !(#[trigger] units[k] is Running) {
            assert forall|k: int| 0 <= k < front.len() implies !(#[trigger] front[k] is Running) by {
                assert(front[k] == units[k]);
            }
            assert(!(units.last() is Running));
        }
    }
}

/// Admitting a unit keeps the scheduler well formed: the bound on the number
/// of running units holds after every admission.
pub proof fn lemma_start_keeps_wf(v: SchedulerView)
    requires
        v.wf(),
        v.can_start(),
    ensures
        v.after_start().wf(),
        v.after_start().in_flight() == v.in_flight() + 1,
        v.after_start().in_flight() <= CONCURRENT_DOWNLOADS,
{
    lemma_count_update(v.units, v.started as int, UnitState::Running);
    assert(v.units[v.started as int] is Pending);
}

/// A report from a running unit keeps the scheduler well formed and frees
/// one slot.
pub proof fn lemma_finish_keeps_wf(v: SchedulerView, at: int, outcome: UnitOutcome)
    requires
        v.wf(),
        0 <= at < v.units.len(),
        v.units[at] is Running,
    ensures
        v.after_finish(at, outcome).wf(),
        v.after_finish(at, outcome).in_flight() + 1 == v.in_flight(),
{
    lemma_count_update(v.units, at, UnitState::Finished(outcome));
    let w = v.after_finish(at, outcome);
    assert forall|k: int| 0 <= k < w.units.len() implies (#[trigger] w.units[k] is Pending <==> k
        >= w.started) by {
        if k != at {
            assert(w.units[k] == v.units[k]);
        }
    }
}

/// At most `CONCURRENT_DOWNLOADS` fetches are in flight in any state of the
/// scheduler, and the largest number ever seen is within that bound too.
pub proof fn lemma_concurrency_bound(v: SchedulerView)
    requires
        v.wf(),
    ensures
        v.in_flight() <= CONCURRENT_DOWNLOADS,
        v.peak <= CONCURRENT_DOWNLOADS,
{
}

/// When the scheduler is done, every unit of the queue has reported back; if
/// none failed, every one of them succeeded.
pub proof fn lemma_done_means_all_reported(v: SchedulerView)
    requires
        v.wf(),
        v.is_done(),
    ensures
        forall|k: int| 0 <= k < v.units.len() ==> #[trigger] v.units[k] is Finished,
        !v.any_failed() ==> forall|k: int|
            0 <= k < v.units.len() ==> #[trigger] v.units[k] == UnitState::Finished(
                UnitOutcome::Succeeded,
            ),
{
    lemma_count_bounds(v.units);
    assert forall|k: int| 0 <= k < v.units.len() implies #[trigger] v.units[k] is Finished by {
        assert(!(v.units[k] is Pending));
        assert(!(v.units[k] is Running));
    }
    if !v.any_failed() {
        assert forall|k: int| 0 <= k < v.units.len() implies #[trigger] v.units[k]
            == UnitState::Finished(UnitOutcome::Succeeded) by {
            assert(v.units[k] is Finished);
        }
    }
}

/// As long as the scheduler is not done, a unit can be admitted or a running
/// one is still to report: the application never waits for nothing.
pub proof fn lemma_progress(v: SchedulerView)
    requires
        v.wf(),
        !v.is_done(),
    ensures
        v.can_start() || v.in_flight() > 0,
{
}

/// The scheduler of one download run.
pub struct DownloadScheduler {
    queue: Vec<usize>,
    units: Vec<UnitState>,
    started: usize,
    in_flight: usize,
    peak: usize,
}

impl View for DownloadScheduler {
    type V = SchedulerView;

    closed spec fn view(&self) -> SchedulerView {
        SchedulerView {
            queue: self.queue@,
            units: self.units@,
            started: self.started as nat,
            peak: self.peak as nat,
        }
    }
}

impl DownloadScheduler {
    #[verifier::type_invariant]
    spec fn inv(self) -> bool {
        self@.wf() && self.in_flight == count_running(self.units@)
    }

    /// A scheduler with nothing to do: its queue is empty, so that no unit
    /// waits, runs or has reported. It stands in for a scheduler while that
    /// one is taken apart and put together again.
    fn idle() -> (s: DownloadScheduler)
        ensures
            s@ == (SchedulerView {
                queue: Seq::<usize>::empty(),
                units: Seq::<UnitState>::empty(),
                started: 0,
                peak: 0,
            }),
    {
        DownloadScheduler {
            queue: Vec::new(),
            units: Vec::new(),
            started: 0,
            in_flight: 0,
            peak: 0,
        }
    }

    /// A scheduler for the files that are not on disk yet: `present[i]` says
    /// whether the file with index `i` exists. Nothing is running yet.
    pub fn plan(present: &Vec<bool>) -> (s: DownloadScheduler)
        ensures
            s@.wf(),
            is_plan_of(s@.queue, present@),
            s@.started == 0,
            s@.peak == 0,
            s@.units.len() == s@.queue.len(),
            forall|k: int| 0 <= k < s@.units.len() ==> s@.units[k] is Pending,
    {
        let mut queue: Vec<usize> = Vec::new();
        let mut units: Vec<UnitState> = Vec::new();
        let mut i: usize = 0;
        while i < present.len()
            invariant
                i <= present.len(),
                queue.len() == units.len(),
                forall|k: int| 0 <= k < queue.len() ==> queue[k] < i && !present[queue[k] as int],
                forall|k: int, l: int| 0 <= k < l < queue.len() ==> queue[k] < queue[l],
                forall|j: int| 0 <= j < i && !present[j] ==> #[trigger] plans(queue@, j),
                forall|k: int| 0 <= k < units.len() ==> units[k] is Pending,
            decreases present.len() - i,
        {
            if !present[i] {
                let ghost before = queue@;
                queue.push(i);
                units.push(UnitState::Pending);
                proof {
                    assert(queue@[before.len() as int] == i);
                    assert forall|j: int| 0 <= j < i + 1 && !present[j] implies #[trigger] plans(
                        queue@,
                        j,
                    ) by {
                        if j < i {
                            assert(plans(before, j));
                            let k = choose|k: int| 0 <= k < before.len() && before[k] == j;
                            assert(queue@[k] == j);
                        }
                    }
                }
            }
            i += 1;
        }
        proof {
            lemma_count_bounds(units@);
        }
        DownloadScheduler { queue, units, started: 0, in_flight: 0, peak: 0 }
    }

    /// The indices of the files to fetch, ascending.
    pub fn queue(&self) -> (q: &Vec<usize>)
        ensures
            q@ == self@.queue,
    {
        &self.queue
    }

    /// How many units are running.
    pub fn in_flight(&self) -> (n: usize)
        ensures
            n == self@.in_flight(),
            n <= CONCURRENT_DOWNLOADS,
            self@.wf(),
    {
        proof {
            use_type_invariant(self);
        }
        self.in_flight
    }

    /// The largest number of units that were ever running at once.
    pub fn peak_in_flight(&self) -> (n: usize)
        ensures
            n == self@.peak,
            n <= CONCURRENT_DOWNLOADS,
    {
        proof {
            use_type_invariant(self);
        }
        self.peak
    }

    /// How many units wait to be admitted.
    pub fn pending(&self) -> (n: usize)
        ensures
            n == self@.units.len() - self@.started,
    {
        proof {
            use_type_invariant(self);
        }
        self.units.len() - self.started
    }

    /// Admits the next unit if one waits and a slot is free, and returns the
    /// index of its file. Otherwise nothing changes.
    pub fn start_next(&mut self) -> (next: Option<usize>)
        ensures
            old(self)@.wf(),
            final(self)@.wf(),
            old(self)@.can_start() ==> next == Some(old(self)@.queue[old(self)@.started as int])
                && final(self)@ == old(self)@.after_start(),
            !old(self)@.can_start() ==> next is None && final(self)@ == old(self)@,
    {
        proof {
            use_type_invariant(&*self);
            lemma_count_bounds(self.units@);
        }
        if self.started < self.units.len() && self.in_flight < CONCURRENT_DOWNLOADS {
            proof {
                lemma_start_keeps_wf(self@);
            }
            let mut taken = DownloadScheduler::idle();
            core::mem::swap(self, &mut taken);
            let DownloadScheduler { queue, mut units, started, in_flight, peak } = taken;
            let index = queue[started];
            units.set(started, UnitState::Running);
            let peak = if in_flight + 1 > peak {
                in_flight + 1
            } else {
                peak
            };
            *self = DownloadScheduler {
                queue,
                units,
                started: started + 1,
                in_flight: in_flight + 1,
                peak,
            };
            Some(index)
        } else {
            None
        }
    }

    /// Records that the unit for file `index` ended with `outcome`, and frees
    /// its slot. A report for a file that is not being fetched changes
    /// nothing and returns `false`.
    pub fn finish(&mut self, index: usize, outcome: UnitOutcome) -> (known: bool)
        ensures
            old(self)@.wf(),
            final(self)@.wf(),
            known == old(self)@.is_running(index),
            known ==> exists|at: int|
                old(self)@.runs_at(index, at) && final(self)@ == old(self)@.after_finish(
                    at,
                    outcome,
                ),
            !known ==> final(self)@ == old(self)@,
    {
        proof {
            use_type_invariant(&*self);
        }
        let mut k: usize = 0;
        while k < self.started
            invariant
                k <= self.started,
                self.started <= self.units.len(),
                self.queue.len() == self.units.len(),
                *self == *old(self),
                self@.wf(),
                self.in_flight == count_running(self.units@),
                forall|j: int| 0 <= j < k ==> !self@.runs_at(index, j),
            decreases self.started - k,
        {
            if self.queue[k] == index {
                match self.units[k] {
                    UnitState::Running => {
                        proof {
                            lemma_finish_keeps_wf(self@, k as int, outcome);
                            lemma_count_bounds(self.units@);
                            assert(old(self)@.runs_at(index, k as int));
                        }
                        let mut taken = DownloadScheduler::idle();
                        core::mem::swap(self, &mut taken);
                        let DownloadScheduler { queue, mut units, started, in_flight, peak } =
                            taken;
                        units.set(k, UnitState::Finished(outcome));
                        *self = DownloadScheduler {
                            queue,
                            units,
                            started,
                            in_flight: in_flight - 1,
                            peak,
                        };
                        return true;
                    },
                    _ => {},
                }
            }
            k += 1;
        }
        proof {
            assert forall|at: int| !old(self)@.runs_at(index, at) by {
                if 0 <= at < self.units.len() && at >= self.started {
                    assert(self@.units[at] is Pending);
                }
            }
        }
        false
    }

    /// Whether every unit has been admitted and has reported back.
    pub fn is_done(&self) -> (done: bool)
        ensures
            done == self@.is_done(),
    {
        proof {
            use_type_invariant(self);
        }
        self.started == self.units.len() && self.in_flight == 0
    }

    /// Whether some unit ended otherwise than in success.
    pub fn any_failed(&self) -> (failed: bool)
        ensures
            failed == self@.any_failed(),
    {
        let mut k: usize = 0;
        while k < self.units.len()
            invariant
                k <= self.units.len(),
                forall|j: int|
                    0 <= j < k ==> !(#[trigger] self.units@[j] matches UnitState::Finished(o) && o
                        != UnitOutcome::Succeeded),
            decreases self.units.len() - k,
        {
            match self.units[k] {
                UnitState::Finished(UnitOutcome::Succeeded) => {},
                UnitState::Finished(_) => {
                    return true;
                },
                _ => {},
            }
            k += 1;
        }
        false
    }

    /// The state of the unit for file `index`, if the queue holds that file.
    pub fn state_of(&self, index: usize) -> (state: Option<UnitState>)
        ensures
            state == self@.state_of(index),
    {
        proof {
            use_type_invariant(self);
        }
        let mut k: usize = 0;
        while k < self.queue.len()
            invariant
                k <= self.queue.len(),
                self.queue.len() == self.units.len(),
                self@.wf(),
                forall|j: int| 0 <= j < k ==> self.queue@[j] != index,
            decreases self.queue.len() - k,
        {
            if self.queue[k] == index {
                proof {
                    let c = choose|c: int|
                        0 <= c < self@.queue.len() && c < self@.units.len() && self@.queue[c]
                            == index;
                    if c < k {
                        assert(self.queue@[c] != index);
                    } else if c > k {
                        assert(self@.queue[k as int] < self@.queue[c]);
                    }
                }
                return Some(self.units[k]);
            }
            k += 1;
        }
        None
    }
}

} // verus!
