//! The voter registry: who may vote, and how often each voter has voted.

use vstd::prelude::*;
use crate::error::DaoError;
use crate::identity::AccountId;

verus! {

/// One registered voter: an identity and the number of votes it has cast.
#[derive(Clone, Copy, Debug, PartialEq, Eq)]
pub struct VoterEntry {
    /// Who the voter is.
    pub id: AccountId,
    /// How many votes the voter has cast, over all proposals.
    pub tally: u32,
}

/// The tally that `voters` records for `id`; an absent identity has cast no votes.
pub open spec fn tally_of(voters: Map<AccountId, u32>, id: AccountId) -> u32 {
    if voters.contains_key(id) {
        voters[id]
    } else {
        0
    }
}

/// Whether some entry of `entries` belongs to `id`.
pub open spec fn listed(entries: Seq<VoterEntry>, id: AccountId) -> bool {
    exists|i: int| 0 <= i < entries.len() && #[trigger] entries[i].id == id
}

/// The position of an entry of `id` in `entries`.
pub open spec fn position(entries: Seq<VoterEntry>, id: AccountId) -> int {
    choose|i: int| 0 <= i < entries.len() && #[trigger] entries[i].id == id
}

/// No identity has two entries.
pub open spec fn distinct_ids(entries: Seq<VoterEntry>) -> bool {
    forall|i: int, j: int|
        0 <= i < entries.len() && 0 <= j < entries.len() && i != j
            ==> #[trigger] entries[i].id != #[trigger] entries[j].id
}

/// The mapping from identity to tally that `entries` stands for.
pub open spec fn entries_map(entries: Seq<VoterEntry>) -> Map<AccountId, u32> {
    Map::new(
        |id: AccountId| listed(entries, id),
        |id: AccountId| entries[position(entries, id)].tally,
    )
}

/// In a duplicate-free list, the entry at `i` decides what the map holds for its identity.
pub proof fn lemma_entry_in_map(entries: Seq<VoterEntry>, i: int)
    requires
        distinct_ids(entries),
        0 <= i < entries.len(),
    ensures
        entries_map(entries).contains_key(entries[i].id),
        entries_map(entries)[entries[i].id] == entries[i].tally,
        position(entries, entries[i].id) == i,
{
    let id = entries[i].id;
    assert(listed(entries, id));
    let p = position(entries, id);
    assert(0 <= p < entries.len() && entries[p].id == id);
    if p != i {
        assert(entries[p].id != entries[i].id);
    }
}

/// Appending an entry for a new identity inserts it into the map.
pub proof fn lemma_push_inserts(entries: Seq<VoterEntry>, entry: VoterEntry)
    requires
        distinct_ids(entries),
        !listed(entries, entry.id),
    ensures
        distinct_ids(entries.push(entry)),
        entries_map(entries.push(entry)) == entries_map(entries).insert(entry.id, entry.tally),
{
    let after = entries.push(entry);
    let last = entries.len() as int;
    assert(after[last].id == entry.id);
    assert forall|i: int, j: int|
        0 <= i < after.len() && 0 <= j < after.len() && i != j implies #[trigger] after[i].id
        != #[trigger] after[j].id by {
        if i < last && j < last {
            assert(entries[i].id != entries[j].id);
        } else if i < last {
            assert(entries[i].id != entry.id);
        } else {
            assert(entries[j].id != entry.id);
        }
    }
    let expected = entries_map(entries).insert(entry.id, entry.tally);
    assert forall|k: AccountId| #[trigger]
        entries_map(after).contains_key(k) == expected.contains_key(k) by {
        if listed(entries, k) {
            assert(after[position(entries, k)].id == k);
        }
        if listed(after, k) && k != entry.id {
            assert(entries[position(after, k)].id == k);
        }
    }
    assert forall|k: AccountId| entries_map(after).contains_key(k) implies #[trigger]
        entries_map(after)[k] == expected[k] by {
        let p = position(after, k);
        lemma_entry_in_map(after, p);
        if k != entry.id {
            assert(entries[p].id == k);
            lemma_entry_in_map(entries, p);
        } else {
            lemma_entry_in_map(after, last);
        }
    }
    assert(entries_map(after) =~= expected);
}

/// Taking the entry at `at` out of the list removes its identity from the map.
pub proof fn lemma_remove_removes(entries: Seq<VoterEntry>, at: int)
    requires
        distinct_ids(entries),
        0 <= at < entries.len(),
    ensures
        distinct_ids(entries.remove(at)),
        entries_map(entries.remove(at)) == entries_map(entries).remove(entries[at].id),
{
    let after = entries.remove(at);
    let gone = entries[at].id;
    let shifted = |i: int|
        if i < at {
            i
        } else {
            i + 1
        };
    assert forall|i: int| 0 <= i < after.len() implies #[trigger] after[i] == entries[shifted(
        i,
    )] by {}
    assert forall|i: int, j: int|
        0 <= i < after.len() && 0 <= j < after.len() && i != j implies #[trigger] after[i].id
        != #[trigger] after[j].id by {
        assert(entries[shifted(i)].id != entries[shifted(j)].id);
    }
    let expected = entries_map(entries).remove(gone);
    assert forall|k: AccountId| #[trigger]
        entries_map(after).contains_key(k) == expected.contains_key(k) by {
        if listed(after, k) {
            let p = shifted(position(after, k));
            assert(entries[p].id == k);
            assert(entries[p].id != entries[at].id);
        }
        if listed(entries, k) && k != gone {
            let p = position(entries, k);
            let q = if p < at {
                p
            } else {
                p - 1
            };
            assert(after[q].id == k);
        }
    }
    assert forall|k: AccountId| entries_map(after).contains_key(k) implies #[trigger]
        entries_map(after)[k] == expected[k] by {
        let p = position(after, k);
        lemma_entry_in_map(after, p);
        assert(entries[shifted(p)].id == k);
        lemma_entry_in_map(entries, shifted(p));
    }
    assert(entries_map(after) =~= expected);
}

/// Writing a new tally into the entry at `at` writes it into the map.
pub proof fn lemma_retally_inserts(entries: Seq<VoterEntry>, at: int, tally: u32)
    requires
        distinct_ids(entries),
        0 <= at < entries.len(),
    ensures
        distinct_ids(entries.update(at, VoterEntry { id: entries[at].id, tally })),
        entries_map(entries.update(at, VoterEntry { id: entries[at].id, tally })) == entries_map(
            entries,
        ).insert(entries[at].id, tally),
{
    let after = entries.update(at, VoterEntry { id: entries[at].id, tally });
    assert forall|i: int| 0 <= i < after.len() implies #[trigger] after[i].id
        == entries[i].id by {}
    assert forall|i: int, j: int|
        0 <= i < after.len() && 0 <= j < after.len() && i != j implies #[trigger] after[i].id
        != #[trigger] after[j].id by {
        assert(entries[i].id != entries[j].id);
    }
    let expected = entries_map(entries).insert(entries[at].id, tally);
    assert forall|k: AccountId| #[trigger]
        entries_map(after).contains_key(k) == expected.contains_key(k) by {
        if listed(after, k) {
            assert(entries[position(after, k)].id == k);
        }
        if listed(entries, k) {
            assert(after[position(entries, k)].id == k);
        }
        if k == entries[at].id {
            assert(after[at].id == k);
        }
    }
    assert forall|k: AccountId| entries_map(after).contains_key(k) implies #[trigger]
        entries_map(after)[k] == expected[k] by {
        let p = position(after, k);
        lemma_entry_in_map(after, p);
        assert(entries[p].id == k);
        lemma_entry_in_map(entries, p);
    }
    assert(entries_map(after) =~= expected);
}

/// The set of registered voters, each with its tally.
///
/// An identity is a registered voter exactly when the registry holds an entry for it.
pub struct VoterRegistry {
    entries: Vec<VoterEntry>,
}

impl View for VoterRegistry {
    type V = Map<AccountId, u32>;

    /// The registry as a map from each registered identity to its tally.
    closed spec fn view(&self) -> Map<AccountId, u32> {
        entries_map(self.entries@)
    }
}

impl VoterRegistry {
    /// The registry's invariant: no identity is entered twice.
    pub closed spec fn wf(&self) -> bool {
        distinct_ids(self.entries@)
    }

    /// A registry without voters.
    pub fn new() -> (registry: VoterRegistry)
        ensures
            registry.wf(),
            registry@ == Map::<AccountId, u32>::empty(),
    {
        let registry = VoterRegistry { entries: Vec::new() };
        assert(registry@ =~= Map::<AccountId, u32>::empty());
        registry
    }

    /// Rebuilds a registry from its entries. There is no such registry if
    /// two of the entries belong to the same identity.
    pub fn from_entries(entries: Vec<VoterEntry>) -> (r: Option<VoterRegistry>)
        ensures
            r is Some <==> distinct_ids(entries@),
            r matches Some(registry) ==> registry.wf() && registry@ == entries_map(entries@),
    {
        let mut i: usize = 0;
        while i < entries.len()
            invariant
                i <= entries@.len(),
                forall|a: int, b: int|
                    0 <= a < b < i ==> #[trigger] entries@[a].id != #[trigger] entries@[b].id,
            decreases entries@.len() - i,
        {
            let mut j: usize = 0;
            while j < i
                invariant
                    j <= i < entries@.len(),
                    forall|a: int| 0 <= a < j ==> #[trigger] entries@[a].id != entries@[i as int].id,
                decreases i - j,
            {
                if entries[j].id.same(&entries[i].id) {
                    return None;
                }
                j = j + 1;
            }
            i = i + 1;
        }
        proof {
            assert forall|a: int, b: int|
                0 <= a < entries@.len() && 0 <= b < entries@.len() && a != b implies #[trigger] entries@[a].id
                != #[trigger] entries@[b].id by {
                if a < b {
                } else {
                    assert(entries@[b].id != entries@[a].id);
                }
            }
        }
        Some(VoterRegistry { entries })
    }

    /// The registered voters, one entry each, in no particular order.
    pub fn entries(&self) -> (r: Vec<VoterEntry>)
        requires
            self.wf(),
        ensures
            distinct_ids(r@),
            entries_map(r@) == self@,
    {
        let mut r: Vec<VoterEntry> = Vec::new();
        let mut i: usize = 0;
        while i < self.entries.len()
            invariant
                i <= self.entries@.len(),
                r@ == self.entries@.take(i as int),
            decreases self.entries@.len() - i,
        {
            r.push(self.entries[i]);
            proof {
                assert(self.entries@.take(i + 1) =~= self.entries@.take(i as int).push(
                    self.entries@[i as int],
                ));
            }
            i = i + 1;
        }
        proof {
            assert(self.entries@.take(i as int) =~= self.entries@);
        }
        r
    }

    /// Where the entry of `id` stands, if there is one.
    fn find(&self, id: &AccountId) -> (r: Option<usize>)
        requires
            self.wf(),
        ensures
            match r {
                Some(i) => i < self.entries@.len() && self.entries@[i as int].id == *id,
                None => !listed(self.entries@, *id),
            },
    {
        let mut i: usize = 0;
        while i < self.entries.len()
            invariant
                i <= self.entries@.len(),
                forall|j: int| 0 <= j < i ==> self.entries@[j].id != *id,
            decreases self.entries@.len() - i,
        {
            if self.entries[i].id.same(id) {
                return Some(i);
            }
            i = i + 1;
        }
        None
    }

    /// Whether `id` is a registered voter.
    pub fn contains(&self, id: &AccountId) -> (r: bool)
        requires
            self.wf(),
        ensures
            r == self@.contains_key(*id),
    {
        self.find(id).is_some()
    }

    /// The number of votes `id` has cast, or 0 if `id` is not registered.
    pub fn tally(&self, id: &AccountId) -> (n: u32)
        requires
            self.wf(),
        ensures
            n == tally_of(self@, *id),
    {
        match self.find(id) {
            Some(i) => {
                proof {
                    lemma_entry_in_map(self.entries@, i as int);
                }
                self.entries[i].tally
            },
            None => 0,
        }
    }

    /// Enters `id` with a tally of 0, unless it is registered already.
    pub fn register(&mut self, id: AccountId) -> (r: Result<(), DaoError>)
        requires
            old(self).wf(),
        ensures
            final(self).wf(),
            old(self)@.contains_key(id) ==> r == Err::<(), DaoError>(
                DaoError::VoterAlreadyRegistered,
            ) && final(self)@ == old(self)@,
            !old(self)@.contains_key(id) ==> r == Ok::<(), DaoError>(()) && final(self)@ == old(
                self,
            )@.insert(id, 0),
    {
        if self.find(&id).is_some() {
            return Err(DaoError::VoterAlreadyRegistered);
        }
        proof {
            lemma_push_inserts(self.entries@, VoterEntry { id, tally: 0 });
        }
        self.entries.push(VoterEntry { id, tally: 0 });
        Ok(())
    }

    /// Removes the entry of `id`, if it is registered.
    pub fn deregister(&mut self, id: &AccountId) -> (r: Result<(), DaoError>)
        requires
            old(self).wf(),
        ensures
            final(self).wf(),
            old(self)@.contains_key(*id) ==> r == Ok::<(), DaoError>(()) && final(self)@ == old(
                self,
            )@.remove(*id),
            !old(self)@.contains_key(*id) ==> r == Err::<(), DaoError>(
                DaoError::VoterNotRegistered,
            ) && final(self)@ == old(self)@,
    {
        match self.find(id) {
            None => Err(DaoError::VoterNotRegistered),
            Some(at) => {
                proof {
                    lemma_remove_removes(self.entries@, at as int);
                }
                self.entries.remove(at);
                Ok(())
            },
        }
    }

    /// Adds one to the tally of the registered voter `id`.
    pub fn increment(&mut self, id: &AccountId)
        requires
            old(self).wf(),
            old(self)@.contains_key(*id),
            old(self)@[*id] < u32::MAX,
        ensures
            final(self).wf(),
            final(self)@ == old(self)@.insert(*id, (old(self)@[*id] + 1) as u32),
    {
        let found = self.find(id);
        let at = found.unwrap();
        let entry = self.entries[at];
        proof {
            lemma_entry_in_map(self.entries@, at as int);
            lemma_retally_inserts(self.entries@, at as int, (entry.tally + 1) as u32);
        }
        self.entries.set(at, VoterEntry { id: entry.id, tally: entry.tally + 1 });
    }
}

} // verus!
