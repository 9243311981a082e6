//! The ballot table: at most one ballot for each voter and proposal.

use vstd::prelude::*;
use crate::account::AccountId;

verus! {

/// One recorded ballot.
#[derive(Debug, Clone, Copy)]
pub struct Ballot {
    pub voter: AccountId,
    pub proposal: u32,
    pub aye: bool,
}

/// The ballots that were cast, the latest of each voter on each proposal.
#[derive(Debug)]
pub struct BallotTable {
    entries: Vec<Ballot>,
}

/// Whether some entry of `entries` is the ballot of `voter` on `proposal`.
pub open spec fn recorded(entries: Seq<Ballot>, voter: AccountId, proposal: u32) -> bool {
    exists|i: int| 0 <= i < entries.len() && #[trigger] is_ballot_of(entries[i], voter, proposal)
}

/// Whether `ballot` is the one of `voter` on `proposal`.
pub open spec fn is_ballot_of(ballot: Ballot, voter: AccountId, proposal: u32) -> bool {
    ballot.voter == voter && ballot.proposal == proposal
}

/// The place in `entries` of the ballot of `voter` on `proposal`.
pub open spec fn place_of(entries: Seq<Ballot>, voter: AccountId, proposal: u32) -> int {
    choose|i: int| 0 <= i < entries.len() && #[trigger] is_ballot_of(entries[i], voter, proposal)
}

/// No two entries are ballots of the same voter on the same proposal.
pub open spec fn distinct(entries: Seq<Ballot>) -> bool {
    forall|i: int, j: int|
        0 <= i < j < entries.len() ==> !is_ballot_of(
            #[trigger] entries[i],
            (#[trigger] entries[j]).voter,
            entries[j].proposal,
        )
}

/// `entries` as a map from voter and proposal to the ballot.
pub open spec fn table_of(entries: Seq<Ballot>) -> Map<(AccountId, u32), bool> {
    Map::new(
        |k: (AccountId, u32)| recorded(entries, k.0, k.1),
        |k: (AccountId, u32)| entries[place_of(entries, k.0, k.1)].aye,
    )
}

/// The table after the ballots of `cast` were recorded one after the other:
/// a later ballot of a voter on a proposal replaces the earlier one.
pub open spec fn cast_all(cast: Seq<Ballot>) -> Map<(AccountId, u32), bool>
    decreases cast.len(),
{
    if cast.len() == 0 {
        Map::empty()
    } else {
        cast_all(cast.drop_last()).insert((cast.last().voter, cast.last().proposal), cast.last().aye)
    }
}

impl View for BallotTable {
    type V = Map<(AccountId, u32), bool>;

    closed spec fn view(&self) -> Map<(AccountId, u32), bool> {
        table_of(self.entries@)
    }
}

impl BallotTable {
    #[verifier::type_invariant]
    spec fn inv(&self) -> bool {
        distinct(self.entries@)
    }

    /// The empty table.
    pub fn new() -> (table: BallotTable)
        ensures
            table@ == Map::<(AccountId, u32), bool>::empty(),
    {
        let table = BallotTable { entries: Vec::new() };
        assert(table@ =~= Map::<(AccountId, u32), bool>::empty());
        table
    }

    /// The table that holds the ballots of `cast`, recorded in their order.
    pub fn from_ballots(cast: &Vec<Ballot>) -> (table: BallotTable)
        ensures
            table@ == cast_all(cast@),
    {
        let mut table = BallotTable::new();
        let mut i: usize = 0;
        assert(cast@.take(0) =~= Seq::empty());
        while i < cast.len()
            invariant
                i <= cast.len(),
                table@ == cast_all(cast@.take(i as int)),
            decreases cast.len() - i,
        {
            assert(cast@.take(i as int + 1).drop_last() =~= cast@.take(i as int));
            table.insert(cast[i].voter, cast[i].proposal, cast[i].aye);
            i += 1;
        }
        assert(cast@.take(i as int) =~= cast@);
        table
    }

    /// The ballot of `voter` on `proposal`, if one was cast.
    pub fn get(&self, voter: &AccountId, proposal: u32) -> (ballot: Option<bool>)
        ensures
            ballot == if self@.contains_key((*voter, proposal)) {
                Some(self@[(*voter, proposal)])
            } else {
                None
            },
    {
        proof {
            use_type_invariant(self);
        }
        let mut i: usize = 0;
        while i < self.entries.len()
            invariant
                i <= self.entries.len(),
                distinct(self.entries@),
                forall|j: int| 0 <= j < i ==> !is_ballot_of(self.entries@[j], *voter, proposal),
            decreases self.entries.len() - i,
        {
            let entry = &self.entries[i];
            if entry.voter == *voter && entry.proposal == proposal {
                proof {
                    lemma_lookup(self.entries@, i as int);
                }
                return Some(entry.aye);
            }
            i += 1;
        }
        None
    }

    /// Records `aye` as the ballot of `voter` on `proposal`, in place of the
    /// one recorded before, if any.
    pub fn insert(&mut self, voter: AccountId, proposal: u32, aye: bool)
        ensures
            final(self)@ == old(self)@.insert((voter, proposal), aye),
    {
        proof {
            use_type_invariant(&*self);
        }
        let ballot = Ballot { voter, proposal, aye };
        let mut i: usize = 0;
        while i < self.entries.len()
            invariant
                i <= self.entries.len(),
                ballot == (Ballot { voter, proposal, aye }),
                self.entries == old(self).entries,
                distinct(self.entries@),
                forall|j: int| 0 <= j < i ==> !is_ballot_of(self.entries@[j], voter, proposal),
            decreases self.entries.len() - i,
        {
            if self.entries[i].voter == voter && self.entries[i].proposal == proposal {
                proof {
                    lemma_replace(self.entries@, i as int, aye);
                    assert(ballot == Ballot { aye, ..self.entries@[i as int] });
                }
                let mut entries: Vec<Ballot> = Vec::new();
                core::mem::swap(&mut self.entries, &mut entries);
                entries.set(i, ballot);
                self.entries = entries;
                return ;
            }
            i += 1;
        }
        proof {
            lemma_append(self.entries@, ballot);
        }
        let mut entries: Vec<Ballot> = Vec::new();
        core::mem::swap(&mut self.entries, &mut entries);
        entries.push(ballot);
        self.entries = entries;
    }
}

/// In a table without doubles, the entry at `i` is what its voter and
/// proposal map to.
pub proof fn lemma_lookup(entries: Seq<Ballot>, i: int)
    requires
        distinct(entries),
        0 <= i < entries.len(),
    ensures
        table_of(entries).contains_key((entries[i].voter, entries[i].proposal)),
        table_of(entries)[(entries[i].voter, entries[i].proposal)] == entries[i].aye,
{
    let voter = entries[i].voter;
    let proposal = entries[i].proposal;
    assert(is_ballot_of(entries[i], voter, proposal));
    let p = place_of(entries, voter, proposal);
    assert(is_ballot_of(entries[p], voter, proposal));
    if p < i {
        assert(!is_ballot_of(entries[p], entries[i].voter, entries[i].proposal));
    } else if i < p {
        assert(!is_ballot_of(entries[i], entries[p].voter, entries[p].proposal));
    }
}

/// Overwriting the ballot at `i` keeps the table without doubles, and maps
/// its voter and proposal to the new ballot.
pub proof fn lemma_replace(entries: Seq<Ballot>, i: int, aye: bool)
    requires
        distinct(entries),
        0 <= i < entries.len(),
    ensures
        distinct(entries.update(i, Ballot { aye, ..entries[i] })),
        table_of(entries.update(i, Ballot { aye, ..entries[i] })) == table_of(entries).insert(
            (entries[i].voter, entries[i].proposal),
            aye,
        ),
{
    let after = entries.update(i, Ballot { aye, ..entries[i] });
    let key = (entries[i].voter, entries[i].proposal);
    assert forall|a: int, b: int| 0 <= a < b < after.len() implies !is_ballot_of(
        #[trigger] after[a],
        (#[trigger] after[b]).voter,
        after[b].proposal,
    ) by {
        assert(!is_ballot_of(entries[a], entries[b].voter, entries[b].proposal));
    }
    assert forall|k: (AccountId, u32)|
        table_of(after).contains_key(k) == #[trigger] table_of(entries).insert(
            key,
            aye,
        ).contains_key(k) by {
        if recorded(after, k.0, k.1) {
            let p = place_of(after, k.0, k.1);
            assert(is_ballot_of(entries[p], k.0, k.1));
        }
        if recorded(entries, k.0, k.1) {
            let p = place_of(entries, k.0, k.1);
            assert(is_ballot_of(after[p], k.0, k.1));
        }
        if k == key {
            assert(is_ballot_of(after[i], k.0, k.1));
        }
    }
    assert forall|k: (AccountId, u32)| #[trigger]
        table_of(after).contains_key(k) implies table_of(after)[k] == table_of(entries).insert(
        key,
        aye,
    )[k] by {
        let p = place_of(after, k.0, k.1);
        assert(is_ballot_of(after[p], k.0, k.1));
        lemma_lookup(after, p);
        if k != key {
            assert(p != i);
            lemma_lookup(entries, p);
        } else {
            lemma_lookup(after, i);
        }
    }
    assert(table_of(after) =~= table_of(entries).insert(key, aye));
}

/// Appending a ballot whose voter and proposal have none yet keeps the table
/// without doubles, and maps them to the new ballot.
pub proof fn lemma_append(entries: Seq<Ballot>, ballot: Ballot)
    requires
        distinct(entries),
        forall|j: int|
            0 <= j < entries.len() ==> !is_ballot_of(
                #[trigger] entries[j],
                ballot.voter,
                ballot.proposal,
            ),
    ensures
        distinct(entries.push(ballot)),
        table_of(entries.push(ballot)) == table_of(entries).insert(
            (ballot.voter, ballot.proposal),
            ballot.aye,
        ),
{
    let after = entries.push(ballot);
    let key = (ballot.voter, ballot.proposal);
    let last = entries.len() as int;
    assert forall|a: int, b: int| 0 <= a < b < after.len() implies !is_ballot_of(
        #[trigger] after[a],
        (#[trigger] after[b]).voter,
        after[b].proposal,
    ) by {
        if b < last {
            assert(!is_ballot_of(entries[a], entries[b].voter, entries[b].proposal));
        } else {
            assert(!is_ballot_of(entries[a], ballot.voter, ballot.proposal));
        }
    }
    assert(is_ballot_of(after[last], key.0, key.1));
    assert forall|k: (AccountId, u32)|
        table_of(after).contains_key(k) == #[trigger] table_of(entries).insert(
            key,
            ballot.aye,
        ).contains_key(k) by {
        if recorded(after, k.0, k.1) {
            let p = place_of(after, k.0, k.1);
            if p < last {
                assert(is_ballot_of(entries[p], k.0, k.1));
            }
        }
        if recorded(entries, k.0, k.1) {
            let p = place_of(entries, k.0, k.1);
            assert(is_ballot_of(after[p], k.0, k.1));
        }
    }
    assert forall|k: (AccountId, u32)| #[trigger]
        table_of(after).contains_key(k) implies table_of(after)[k] == table_of(entries).insert(
        key,
        ballot.aye,
    )[k] by {
        let p = place_of(after, k.0, k.1);
        assert(is_ballot_of(after[p], k.0, k.1));
        lemma_lookup(after, p);
        if k != key {
            assert(p < last);
            lemma_lookup(entries, p);
        } else {
            lemma_lookup(after, last);
        }
    }
    assert(table_of(after) =~= table_of(entries).insert(key, ballot.aye));
}

} // verus!
