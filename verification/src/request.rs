//! Distribution requests: an ordered mapping from recipient identifier to
//! allocation, with unique identifiers, and the total the fungible entries
//! request.

use vstd::prelude::*;
use vstd::pervasive::VecAdditionalExecFns;

verus! {

/// One recipient's allocation: either an amount of the fungible asset, in
/// subunits, or a list of non-fungible local ids. The escrow-funded path
/// accepts only the fungible variant; the externally funded path forwards
/// either kind unchanged.
#[derive(Debug)]
pub enum Allocation {
    Fungible(u128),
    NonFungible(Vec<u64>),
}

/// The fungible amount one entry requests; a non-fungible entry requests
/// none.
pub open spec fn spec_allocation_amount(a: Allocation) -> int {
    match a {
        Allocation::Fungible(amount) => amount as int,
        Allocation::NonFungible(_) => 0,
    }
}

/// Every entry carries the fungible tag.
pub open spec fn spec_all_fungible(s: Seq<(u64, Allocation)>) -> bool {
    forall|i: int| 0 <= i < s.len() ==> s[i].1 is Fungible
}

/// The sum of the fungible amounts of all entries. Order of summation does
/// not matter: the amounts are exact integers of subunits.
pub open spec fn spec_total(s: Seq<(u64, Allocation)>) -> int
    decreases s.len(),
{
    if s.len() == 0 {
        0
    } else {
        spec_total(s.drop_last()) + spec_allocation_amount(s.last().1)
    }
}

/// Extending a prefix by one entry adds that entry's fungible amount.
pub proof fn lemma_total_prefix_step(s: Seq<(u64, Allocation)>, i: int)
    requires
        0 <= i < s.len(),
    ensures
        spec_total(s.subrange(0, i + 1)) == spec_total(s.subrange(0, i))
            + spec_allocation_amount(s[i].1),
{
    assert(s.subrange(0, i + 1).drop_last() =~= s.subrange(0, i));
    assert(s.subrange(0, i + 1).last() == s[i]);
}

/// A prefix never requests more than the whole sequence.
pub proof fn lemma_total_prefix_le(s: Seq<(u64, Allocation)>, i: int)
    requires
        0 <= i <= s.len(),
    ensures
        spec_total(s.subrange(0, i)) <= spec_total(s),
    decreases s.len() - i,
{
    if i == s.len() {
        assert(s.subrange(0, i) =~= s);
    } else {
        lemma_total_prefix_step(s, i);
        lemma_total_prefix_le(s, i + 1);
    }
}

/// Some entry names this recipient.
pub open spec fn spec_has_recipient(s: Seq<(u64, Allocation)>, recipient: u64) -> bool {
    exists|i: int| 0 <= i < s.len() && s[i].0 == recipient
}

/// The position of the entry naming `recipient`; meaningful when
/// `spec_has_recipient` holds and the identifiers are unique.
pub open spec fn spec_index_of(s: Seq<(u64, Allocation)>, recipient: u64) -> int {
    choose|i: int| 0 <= i < s.len() && s[i].0 == recipient
}

/// An ordered mapping from recipient identifier to allocation, built for a
/// single distribution call. Insertion order is preserved; identifiers are
/// unique within one request.
pub struct DistributionRequest {
    entries: Vec<(u64, Allocation)>,
}

impl View for DistributionRequest {
    type V = Seq<(u64, Allocation)>;

    closed spec fn view(&self) -> Seq<(u64, Allocation)> {
        self.entries@
    }
}

impl DistributionRequest {
    /// Recipient identifiers are unique within one request.
    pub open spec fn wf(self) -> bool {
        forall|i: int, j: int| 0 <= i < j < self@.len() ==> self@[i].0 != self@[j].0
    }

    pub fn new() -> (r: DistributionRequest)
        ensures
            r@.len() == 0,
            r.wf(),
    {
        DistributionRequest { entries: Vec::new() }
    }

    /// The position of `recipient`, if some entry names it.
    fn position_of(&self, recipient: u64) -> (r: Option<usize>)
        ensures
            match r {
                Some(i) => i < self@.len() && self@[i as int].0 == recipient,
                None => !spec_has_recipient(self@, recipient),
            },
    {
        let mut i: usize = 0;
        while i < self.entries.len()
            invariant
                i <= self@.len(),
                forall|j: int| 0 <= j < i ==> self@[j].0 != recipient,
            decreases self@.len() - i,
        {
            if self.entries[i].0 == recipient {
                return Some(i);
            }
            i = i + 1;
        }
        None
    }

    /// Adds an entry, or replaces in place the allocation of a recipient
    /// already named, keeping its position in the order.
    pub fn insert(&mut self, recipient: u64, allocation: Allocation) -> (replaced: bool)
        requires
            old(self).wf(),
            old(self)@.len() < usize::MAX,
        ensures
            final(self).wf(),
            replaced == spec_has_recipient(old(self)@, recipient),
            replaced ==> final(self)@ == old(self)@.update(
                spec_index_of(old(self)@, recipient),
                (recipient, allocation),
            ),
            !replaced ==> final(self)@ == old(self)@.push((recipient, allocation)),
    {
        let ghost s_old = self@;
        match self.position_of(recipient) {
            Some(i) => {
                self.entries.set(i, (recipient, allocation));
                proof {
                    assert(s_old[i as int].0 == recipient);
                    let k = spec_index_of(s_old, recipient);
                    assert(0 <= k < s_old.len() && s_old[k].0 == recipient);
                    assert(k == i as int);
                    assert(self@ =~= s_old.update(i as int, (recipient, allocation)));
                }
                true
            },
            None => {
                self.entries.push((recipient, allocation));
                proof {
                    assert(self@ =~= s_old.push((recipient, allocation)));
                }
                false
            },
        }
    }

    pub fn len(&self) -> (n: usize)
        ensures
            n == self@.len(),
    {
        self.entries.len()
    }

    pub fn entry_at(&self, i: usize) -> (entry: &(u64, Allocation))
        requires
            i < self@.len(),
        ensures
            *entry == self@[i as int],
    {
        &self.entries[i]
    }

    /// Gives up the request's entries, in order, for handing to the
    /// distribution facility.
    pub fn into_entries(self) -> (entries: Vec<(u64, Allocation)>)
        ensures
            entries@ == self@,
    {
        self.entries
    }
}

} // verus!
