use vstd::prelude::*;

use crate::types::{AccountId, Balance, GovernorError, Proposal, ProposalId};

verus! {

/// Owns the proposal records and the monotonic id sequence.
///
/// A proposal's id is its index in `items`: ids start at zero, grow by one
/// for each created proposal, and are never reused — a record, once stored,
/// is never removed.
pub struct ProposalRegistry {
    pub items: Vec<Proposal>,
}

impl View for ProposalRegistry {
    type V = Seq<Proposal>;

    open spec fn view(&self) -> Seq<Proposal> {
        self.items@
    }
}

impl ProposalRegistry {
    /// The registry's lookup as a partial function from id to record.
    pub open spec fn spec_get(self, id: ProposalId) -> Option<Proposal> {
        if id < self@.len() {
            Some(self@[id as int])
        } else {
            None
        }
    }

    /// Every stored record satisfies the proposal invariant.
    pub open spec fn wf(self) -> bool {
        forall|i: int| 0 <= i < self@.len() ==> (#[trigger] self@[i]).wf()
    }

    /// A registry holding no proposals; the first assigned id will be zero.
    pub fn empty() -> (r: Self)
        ensures
            r@ == Seq::<Proposal>::empty(),
            r.wf(),
    {
        ProposalRegistry { items: Vec::new() }
    }

    /// The id the next created proposal will get.
    pub fn next_id(&self) -> (r: ProposalId)
        ensures
            r as int == self@.len(),
    {
        self.items.len() as ProposalId
    }

    /// Allocates the next sequential id and stores the record under it.
    ///
    /// The caller validates the inputs first; the registry itself only
    /// demands what its invariant needs.
    pub fn create(&mut self, to: AccountId, amount: Balance, vote_start: u64, vote_end: u64) -> (id:
        ProposalId)
        requires
            old(self).wf(),
            amount > 0,
            vote_start < vote_end,
        ensures
            final(self).wf(),
            id as int == old(self)@.len(),
            final(self)@ == old(self)@.push(
                (Proposal { to, vote_start, vote_end, executed: false, amount }),
            ),
    {
        let id: ProposalId = self.items.len() as ProposalId;
        self.items.push(Proposal { to, vote_start, vote_end, executed: false, amount });
        proof {
            assert forall|i: int| 0 <= i < self@.len() implies (#[trigger] self@[i]).wf() by {
                if i < old(self)@.len() {
                    assert(self@[i] == old(self)@[i]);
                }
            }
        }
        id
    }

    /// Pure lookup of a proposal by id.
    pub fn get(&self, id: ProposalId) -> (r: Option<Proposal>)
        ensures
            r == self.spec_get(id),
    {
        let n: usize = self.items.len();
        if id < n as u64 {
            Some(self.items[id as usize])
        } else {
            None
        }
    }

    /// Sets `executed` on an existing record.  The engine confirms existence
    /// before calling, so `ProposalNotFound` here is an internal-consistency
    /// check, not a user-facing path.
    pub fn mark_executed(&mut self, id: ProposalId) -> (r: Result<(), GovernorError>)
        requires
            old(self).wf(),
        ensures
            final(self).wf(),
            old(self).spec_get(id) is None ==> r == Err::<(), GovernorError>(
                GovernorError::ProposalNotFound,
            ) && final(self)@ == old(self)@,
            old(self).spec_get(id) is Some ==> {
                let p = old(self).spec_get(id).unwrap();
                &&& r == Ok::<(), GovernorError>(())
                &&& final(self)@ == old(self)@.update(
                    id as int,
                    (Proposal {
                        to: p.to,
                        vote_start: p.vote_start,
                        vote_end: p.vote_end,
                        executed: true,
                        amount: p.amount,
                    }),
                )
            },
    {
        let n: usize = self.items.len();
        if id < n as u64 {
            let mut p: Proposal = self.items[id as usize];
            p.executed = true;
            self.items.set(id as usize, p);
            Ok(())
        } else {
            Err(GovernorError::ProposalNotFound)
        }
    }
}

} // verus!
