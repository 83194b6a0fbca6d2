use vstd::prelude::*;
use crate::endpoint::Endpoint;
use crate::schedule::{lemma_done_covers_all, Scheduler};

verus! {

/// The endpoints among the items, in order: those to print.
pub open spec fn alive_items(items: Seq<Option<Endpoint>>) -> Seq<Endpoint>
    decreases items.len(),
{
    if items.len() == 0 {
        Seq::empty()
    } else {
        let rest = alive_items(items.drop_last());
        match items.last() {
            Some(e) => rest.push(e),
            None => rest,
        }
    }
}

/// Number of items that stand for a failed probe.
pub open spec fn silent_count(items: Seq<Option<Endpoint>>) -> nat
    decreases items.len(),
{
    if items.len() == 0 {
        0
    } else {
        silent_count(items.drop_last()) + if items.last() is None {
            1nat
        } else {
            0nat
        }
    }
}

/// The single consumer of a scan's outcomes: for each item it says what to
/// print and advances the progress count by one.
pub struct Reporter {
    total: u64,
    progress: u64,
    finished: bool,
    received: Ghost<Seq<Option<Endpoint>>>,
}

impl Reporter {
    /// The items received so far, in order.
    pub closed spec fn received_spec(&self) -> Seq<Option<Endpoint>> {
        self.received@
    }

    pub closed spec fn progress_spec(&self) -> nat {
        self.progress as nat
    }

    pub closed spec fn total_spec(&self) -> nat {
        self.total as nat
    }

    pub closed spec fn finished_spec(&self) -> bool {
        self.finished
    }

    pub closed spec fn wf(&self) -> bool {
        self.progress == self.received@.len()
    }

    /// A reporter for a scan of `total` endpoints, with nothing received.
    pub fn new(total: u64) -> (r: Reporter)
        ensures
            r.wf(),
            r.total_spec() == total,
            r.received_spec() == Seq::<Option<Endpoint>>::empty(),
            r.progress_spec() == 0,
            !r.finished_spec(),
    {
        Reporter { total, progress: 0, finished: false, received: Ghost(Seq::empty()) }
    }

    /// Takes one item: returns the endpoint to print, if any, and advances
    /// progress by one.
    pub fn receive(&mut self, item: Option<Endpoint>) -> (r: Option<Endpoint>)
        requires
            old(self).wf(),
            !old(self).finished_spec(),
            old(self).progress_spec() < u64::MAX,
        ensures
            final(self).wf(),
            r == item,
            final(self).received_spec() == old(self).received_spec().push(item),
            final(self).progress_spec() == old(self).progress_spec() + 1,
            final(self).total_spec() == old(self).total_spec(),
            !final(self).finished_spec(),
    {
        self.progress = self.progress + 1;
        self.received = Ghost(self.received@.push(item));
        item
    }

    /// Number of items received.
    pub fn progress(&self) -> (r: u64)
        requires
            self.wf(),
        ensures
            r == self.received_spec().len(),
    {
        self.progress
    }

    /// Number of endpoints in the scan.
    pub fn total(&self) -> (r: u64)
        ensures
            r == self.total_spec(),
    {
        self.total
    }

    /// Whether room is left to count one more item.
    pub fn can_receive(&self) -> (r: bool)
        ensures
            r == (!self.finished_spec() && self.progress_spec() < u64::MAX),
    {
        !self.finished && self.progress < u64::MAX
    }

    pub fn is_finished(&self) -> (r: bool)
        ensures
            r == self.finished_spec(),
    {
        self.finished
    }

    /// Closes the reporter once the input is exhausted; returns the final
    /// progress count.
    pub fn finish(&mut self) -> (r: u64)
        requires
            old(self).wf(),
        ensures
            final(self).wf(),
            final(self).finished_spec(),
            final(self).received_spec() == old(self).received_spec(),
            final(self).total_spec() == old(self).total_spec(),
            r == old(self).received_spec().len(),
    {
        self.finished = true;
        self.progress
    }
}

/// Every item advances progress by one, whether it names an endpoint or not:
/// the items to print and the silent ones together are all the items.
pub proof fn lemma_alive_and_silent(items: Seq<Option<Endpoint>>)
    ensures
        alive_items(items).len() + silent_count(items) == items.len(),
    decreases items.len(),
{
    if items.len() > 0 {
        lemma_alive_and_silent(items.drop_last());
    }
}

/// The progress count of a reporter is the number of items it received,
/// those that name an endpoint and those that do not.
pub proof fn lemma_progress_counts_items(r: &Reporter)
    requires
        r.wf(),
    ensures
        r.progress_spec() == r.received_spec().len(),
        r.progress_spec() == alive_items(r.received_spec()).len() + silent_count(r.received_spec()),
{
    lemma_alive_and_silent(r.received_spec());
}

/// At the end of a scan that hands the reporter one item per recorded
/// outcome, the final progress count is the number of endpoints.
pub proof fn lemma_final_progress_is_total(s: &Scheduler, r: &Reporter)
    requires
        s.wf(),
        r.wf(),
        s.finished_set().len() == s.total_spec(),
        r.received_spec().len() == s.finished_set().len(),
    ensures
        r.progress_spec() == s.total_spec(),
        s.launched() == s.total_spec(),
{
    lemma_done_covers_all(s);
}

} // verus!
