use vstd::prelude::*;
use vstd::set_lib::{lemma_int_range, lemma_len_subset, lemma_subset_equality, set_int_range};

verus! {

/// The admission gate of a scan over `total` endpoints, numbered by their
/// position in the input: it hands out each index once, in input order, and
/// never lets more than `rate` probes run at once. Completions may come back
/// in any order; each index is counted once.
pub struct Scheduler {
    total: usize,
    rate: usize,
    next: usize,
    completed: usize,
    done: Vec<bool>,
    finished: Ghost<Set<int>>,
}

impl Scheduler {
    /// Number of endpoints in the scan.
    pub closed spec fn total_spec(&self) -> nat {
        self.total as nat
    }

    /// The most probes that may run at once.
    pub closed spec fn rate_spec(&self) -> nat {
        self.rate as nat
    }

    /// Number of indices handed out so far: exactly the indices below it.
    pub closed spec fn launched(&self) -> nat {
        self.next as nat
    }

    /// The indices whose outcome has come back.
    pub closed spec fn finished_set(&self) -> Set<int> {
        self.finished@
    }

    /// Number of probes handed out whose outcome has not come back.
    pub open spec fn in_flight_spec(&self) -> int {
        self.launched() - self.finished_set().len()
    }

    pub closed spec fn wf(&self) -> bool {
        &&& self.rate > 0
        &&& self.done@.len() == self.total
        &&& self.next <= self.total
        &&& self.completed <= self.next
        &&& self.next - self.completed <= self.rate
        &&& self.finished@.finite()
        &&& self.finished@.len() == self.completed
        &&& forall|i: int| #[trigger]
            self.finished@.contains(i) <==> (0 <= i < self.total && self.done@[i])
        &&& forall|i: int| #[trigger] self.finished@.contains(i) ==> i < self.next
    }

    /// A gate for `total` endpoints with at most `rate` probes at once.
    pub fn new(total: usize, rate: usize) -> (r: Scheduler)
        requires
            rate > 0,
        ensures
            r.wf(),
            r.total_spec() == total,
            r.rate_spec() == rate,
            r.launched() == 0,
            r.finished_set() == Set::<int>::empty(),
    {
        let mut done: Vec<bool> = Vec::new();
        let mut i: usize = 0;
        while i < total
            invariant
                i <= total,
                done@.len() == i,
                forall|j: int| 0 <= j < i ==> !#[trigger] done@[j],
            decreases total - i,
        {
            done.push(false);
            i = i + 1;
        }
        Scheduler { total, rate, next: 0, completed: 0, done, finished: Ghost(Set::empty()) }
    }

    pub fn total(&self) -> (r: usize)
        requires
            self.wf(),
        ensures
            r == self.total_spec(),
    {
        self.total
    }

    pub fn rate(&self) -> (r: usize)
        requires
            self.wf(),
        ensures
            r == self.rate_spec(),
    {
        self.rate
    }

    /// Number of outcomes that have come back.
    pub fn completed(&self) -> (r: usize)
        requires
            self.wf(),
        ensures
            r == self.finished_set().len(),
    {
        self.completed
    }

    /// Number of probes running.
    pub fn in_flight(&self) -> (r: usize)
        requires
            self.wf(),
        ensures
            r == self.in_flight_spec(),
    {
        self.next - self.completed
    }

    /// Whether every endpoint's outcome has come back.
    pub fn is_done(&self) -> (r: bool)
        requires
            self.wf(),
        ensures
            r == (self.finished_set().len() == self.total_spec()),
    {
        self.completed == self.total
    }

    /// Hands out the next index when one is left and a probe slot is free.
    pub fn dispatch(&mut self) -> (r: Option<usize>)
        requires
            old(self).wf(),
        ensures
            final(self).wf(),
            final(self).total_spec() == old(self).total_spec(),
            final(self).rate_spec() == old(self).rate_spec(),
            final(self).finished_set() == old(self).finished_set(),
            old(self).launched() < old(self).total_spec() && old(self).in_flight_spec() < old(
                self,
            ).rate_spec() ==> r == Some(old(self).launched() as usize) && final(self).launched()
                == old(self).launched() + 1,
            !(old(self).launched() < old(self).total_spec() && old(self).in_flight_spec() < old(
                self,
            ).rate_spec()) ==> r is None && final(self).launched() == old(self).launched(),
    {
        if self.next < self.total && self.next - self.completed < self.rate {
            let i = self.next;
            self.next = self.next + 1;
            Some(i)
        } else {
            None
        }
    }

    /// Records that the outcome of `index` came back. Returns false, and
    /// changes nothing, for an index not handed out or already recorded.
    pub fn complete(&mut self, index: usize) -> (r: bool)
        requires
            old(self).wf(),
        ensures
            final(self).wf(),
            final(self).total_spec() == old(self).total_spec(),
            final(self).rate_spec() == old(self).rate_spec(),
            final(self).launched() == old(self).launched(),
            r == (index < old(self).launched() && !old(self).finished_set().contains(index as int)),
            r ==> final(self).finished_set() == old(self).finished_set().insert(index as int),
            !r ==> final(self).finished_set() == old(self).finished_set(),
    {
        if index < self.next && !self.done[index] {
            proof {
                let range = set_int_range(0, self.next as int);
                lemma_int_range(0, self.next as int);
                assert(self.finished@.subset_of(range.remove(index as int)));
                lemma_len_subset(self.finished@, range.remove(index as int));
            }
            self.done.set(index, true);
            self.finished = Ghost(self.finished@.insert(index as int));
            self.completed = self.completed + 1;
            assert forall|i: int| #[trigger]
                self.finished@.contains(i) <==> (0 <= i < self.total && self.done@[i]) by {
                if i == index as int {
                } else {
                    assert(self.finished@.contains(i) == old(self).finished@.contains(i));
                }
            }
            true
        } else {
            false
        }
    }
}

/// At any moment at most `rate` probes run.
pub proof fn lemma_concurrency_bound(s: &Scheduler)
    requires
        s.wf(),
    ensures
        0 <= s.in_flight_spec() <= s.rate_spec(),
        s.finished_set().len() <= s.launched() <= s.total_spec(),
{
}

/// The scan never stalls: until every outcome is back, either a new probe can
/// be started or one is running whose outcome is awaited.
pub proof fn lemma_no_stall(s: &Scheduler)
    requires
        s.wf(),
        s.finished_set().len() < s.total_spec(),
    ensures
        (s.launched() < s.total_spec() && s.in_flight_spec() < s.rate_spec()) || s.in_flight_spec()
            > 0,
{
}

/// When the scan is done, each endpoint's outcome came back exactly once:
/// the recorded indices are exactly those of the input.
pub proof fn lemma_done_covers_all(s: &Scheduler)
    requires
        s.wf(),
        s.finished_set().len() == s.total_spec(),
    ensures
        s.finished_set() == set_int_range(0, s.total_spec() as int),
        s.launched() == s.total_spec(),
        s.in_flight_spec() == 0,
{
    lemma_int_range(0, s.total_spec() as int);
    assert(s.finished_set().subset_of(set_int_range(0, s.total_spec() as int)));
    lemma_subset_equality(s.finished_set(), set_int_range(0, s.total_spec() as int));
}

} // verus!
