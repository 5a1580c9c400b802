//! The bounded in-memory opportunity history: the last thousand records,
//! oldest dropped first.

use vstd::prelude::*;
use crate::types::{ArbitrageOpportunity, OppView};

verus! {

/// How many opportunities are kept.
pub const OPPORTUNITY_HISTORY_CAP: usize = 1000;

/// The most recent opportunities, oldest first.
pub struct OpportunityHistory {
    items: Vec<ArbitrageOpportunity>,
}

impl OpportunityHistory {
    /// The held records, oldest first.
    pub closed spec fn view_items(&self) -> Seq<OppView> {
        Seq::new(self.items@.len(), |i: int| self.items@[i]@)
    }

    /// Never more than the cap.
    pub closed spec fn wf(&self) -> bool {
        self.view_items().len() <= OPPORTUNITY_HISTORY_CAP
    }

    /// An empty history.
    pub fn new() -> (r: OpportunityHistory)
        ensures
            r.wf(),
            r.view_items().len() == 0,
    {
        OpportunityHistory { items: Vec::new() }
    }

    /// How many records are held.
    pub fn len(&self) -> (r: usize)
        ensures
            r == self.view_items().len(),
    {
        self.items.len()
    }

    /// Appends a record; when the history is full the oldest record makes
    /// way, so the newest records are always the ones kept.
    pub fn push(&mut self, opp: ArbitrageOpportunity)
        requires
            old(self).wf(),
        ensures
            final(self).wf(),
            final(self).view_items().len() <= OPPORTUNITY_HISTORY_CAP,
            final(self).view_items().last() == opp@,
            final(self).view_items().len() > 0,
            old(self).view_items().len() < OPPORTUNITY_HISTORY_CAP ==> final(self).view_items()
                =~= old(self).view_items().push(opp@),
            old(self).view_items().len() == OPPORTUNITY_HISTORY_CAP ==> final(self).view_items()
                =~= old(self).view_items().drop_first().push(opp@),
    {
        if self.items.len() == OPPORTUNITY_HISTORY_CAP {
            let _ = self.items.remove(0);
        }
        self.items.push(opp);
    }

    /// A copy of the held records, oldest first.
    pub fn all(&self) -> (r: Vec<ArbitrageOpportunity>)
        ensures
            r@.len() == self.view_items().len(),
            forall|i: int| 0 <= i < r@.len() ==> r@[i]@ == self.view_items()[i],
    {
        let n = self.items.len();
        let mut out: Vec<ArbitrageOpportunity> = Vec::new();
        let mut i: usize = 0;
        while i < n
            invariant
                n == self.items@.len(),
                i <= n,
                out@.len() == i,
                forall|k: int| 0 <= k < i ==> out@[k]@ == self.view_items()[k],
            decreases n - i,
        {
            out.push(self.items[i].duplicate());
            i = i + 1;
        }
        out
    }
}

} // verus!
