//! The record store collaborator, modeled in memory.
//!
//! The external ledger runtime exposes persistent state to the core through
//! exactly two primitives: create-if-absent, which atomically fails when the
//! target address is already occupied, and mutate-existing, which fails when
//! it is not.  [`RecordStore`] implements that contract over an in-memory
//! association list, viewed in specifications as a map from derived addresses
//! to records, so the request handlers can be verified against it and tests
//! can run against it without a ledger.

use vstd::prelude::*;

use crate::address::{address_eq, Address, AddressView};
use crate::records::{Record, RecordView, RequestError};

verus! {

/// One occupied address and the record stored there.
struct Entry {
    addr: Address,
    rec: Record,
}

/// The map described by a sequence of entries.  A later entry for an address
/// overrides an earlier one; well-formed stores never hold such a pair.
spec fn map_of(s: Seq<Entry>) -> Map<AddressView, RecordView>
    decreases s.len(),
{
    if s.len() == 0 {
        Map::empty()
    } else {
        map_of(s.drop_last()).insert(s.last().addr@, s.last().rec@)
    }
}

/// No two entries occupy the same address.
spec fn dup_free(s: Seq<Entry>) -> bool {
    forall|i: int, j: int| 0 <= i < j < s.len() ==> s[i].addr@ != s[j].addr@
}

/// An address is in the map exactly when some entry occupies it.
proof fn lemma_map_of_contains(s: Seq<Entry>, a: AddressView)
    ensures
        map_of(s).dom().contains(a) <==> exists|i: int| 0 <= i < s.len() && s[i].addr@ == a,
    decreases s.len(),
{
    if s.len() > 0 {
        lemma_map_of_contains(s.drop_last(), a);
        if s.last().addr@ == a {
            assert(s[s.len() - 1].addr@ == a);
        } else {
            if map_of(s).dom().contains(a) {
                let i = choose|i: int| 0 <= i < s.len() - 1 && s.drop_last()[i].addr@ == a;
                assert(s[i].addr@ == a);
            }
            if exists|i: int| 0 <= i < s.len() && s[i].addr@ == a {
                let i = choose|i: int| 0 <= i < s.len() && s[i].addr@ == a;
                assert(s.drop_last()[i].addr@ == a);
            }
        }
    }
}

/// In a duplicate-free sequence, the map sends each entry's address to that
/// entry's record.
proof fn lemma_map_of_index(s: Seq<Entry>, i: int)
    requires
        dup_free(s),
        0 <= i < s.len(),
    ensures
        map_of(s).dom().contains(s[i].addr@),
        map_of(s)[s[i].addr@] == s[i].rec@,
    decreases s.len(),
{
    if i < s.len() - 1 {
        assert(dup_free(s.drop_last())) by {
            assert forall|k: int, l: int|
                0 <= k < l < s.drop_last().len() implies s.drop_last()[k].addr@
                != s.drop_last()[l].addr@ by {
                assert(s[k].addr@ != s[l].addr@);
            }
        }
        assert(s.drop_last()[i] == s[i]);
        lemma_map_of_index(s.drop_last(), i);
        assert(s.last().addr@ != s[i].addr@);
    }
}

/// Replacing the entry at `i` by one for the same address updates the map at
/// that address alone.
proof fn lemma_map_of_update(s: Seq<Entry>, i: int, e: Entry)
    requires
        dup_free(s),
        0 <= i < s.len(),
        e.addr@ == s[i].addr@,
    ensures
        map_of(s.update(i, e)) == map_of(s).insert(e.addr@, e.rec@),
    decreases s.len(),
{
    let t = s.update(i, e);
    if i == s.len() - 1 {
        assert(t.drop_last() =~= s.drop_last());
        assert(map_of(t) =~= map_of(s).insert(e.addr@, e.rec@));
    } else {
        assert(dup_free(s.drop_last())) by {
            assert forall|k: int, l: int|
                0 <= k < l < s.drop_last().len() implies s.drop_last()[k].addr@
                != s.drop_last()[l].addr@ by {
                assert(s[k].addr@ != s[l].addr@);
            }
        }
        assert(s.drop_last()[i] == s[i]);
        lemma_map_of_update(s.drop_last(), i, e);
        assert(t.drop_last() =~= s.drop_last().update(i, e));
        assert(t.last() == s.last());
        assert(s.last().addr@ != s[i].addr@);
        assert(map_of(t) =~= map_of(s).insert(e.addr@, e.rec@));
    }
}

/// The in-memory record store.
///
/// Its abstract value (the `view`) is the map from occupied addresses to the
/// records stored there.
pub struct RecordStore {
    entries: Vec<Entry>,
}

impl View for RecordStore {
    type V = Map<AddressView, RecordView>;

    closed spec fn view(&self) -> Map<AddressView, RecordView> {
        map_of(self.entries@)
    }
}

impl RecordStore {
    /// Well-formedness: no address is occupied twice.  Established by
    /// [`RecordStore::new`] and preserved by every operation.
    pub closed spec fn wf(&self) -> bool {
        dup_free(self.entries@)
    }

    /// Creates an empty store.
    pub fn new() -> (s: RecordStore)
        ensures
            s.wf(),
            s@ == Map::<AddressView, RecordView>::empty(),
    {
        RecordStore { entries: Vec::new() }
    }

    /// Finds the index of the entry occupying `addr`, if any.
    fn find(&self, addr: &Address) -> (r: Option<usize>)
        ensures
            match r {
                Some(i) => (i as int) < self.entries@.len() && self.entries@[i as int].addr@
                    == addr@,
                None => forall|i: int|
                    0 <= i < self.entries@.len() ==> self.entries@[i].addr@ != addr@,
            },
    {
        let mut i: usize = 0;
        while i < self.entries.len()
            invariant
                i <= self.entries@.len(),
                forall|j: int| 0 <= j < i ==> self.entries@[j].addr@ != addr@,
            decreases self.entries@.len() - i,
        {
            if address_eq(&self.entries[i].addr, addr) {
                return Some(i);
            }
            i = i + 1;
        }
        None
    }

    /// Reads the record at `addr`, or `None` if the address is unoccupied.
    pub fn read(&self, addr: &Address) -> (r: Option<&Record>)
        requires
            self.wf(),
        ensures
            match r {
                Some(rec) => self@.dom().contains(addr@) && rec@ == self@[addr@],
                None => !self@.dom().contains(addr@),
            },
    {
        proof {
            lemma_map_of_contains(self.entries@, addr@);
        }
        match self.find(addr) {
            Some(i) => {
                proof {
                    lemma_map_of_index(self.entries@, i as int);
                }
                Some(&self.entries[i].rec)
            },
            None => None,
        }
    }

    /// Creates a record at `addr`.  Fails atomically, changing nothing, if
    /// the address is already occupied: this rejection is the system's sole
    /// uniqueness and concurrency-correctness primitive.
    pub fn create_if_absent(&mut self, addr: Address, rec: Record) -> (r: Result<
        (),
        RequestError,
    >)
        requires
            old(self).wf(),
        ensures
            final(self).wf(),
            old(self)@.dom().contains(addr@) ==> r == Err::<(), RequestError>(
                RequestError::AddressInUse,
            ) && final(self)@ == old(self)@,
            !old(self)@.dom().contains(addr@) ==> r == Ok::<(), RequestError>(())
                && final(self)@ == old(self)@.insert(addr@, rec@),
    {
        proof {
            lemma_map_of_contains(self.entries@, addr@);
        }
        match self.find(&addr) {
            Some(_) => Err(RequestError::AddressInUse),
            None => {
                let ghost s0 = self.entries@;
                let ghost av = addr@;
                let ghost rv = rec@;
                self.entries.push(Entry { addr, rec });
                proof {
                    assert(self.entries@.drop_last() =~= s0);
                    assert(self.entries@.last().addr@ == av);
                    assert(self.entries@.last().rec@ == rv);
                    assert forall|i: int, j: int|
                        0 <= i < j < self.entries@.len() implies self.entries@[i].addr@
                        != self.entries@[j].addr@ by {
                        if j < self.entries@.len() - 1 {
                            assert(s0[i].addr@ != s0[j].addr@);
                        } else {
                            assert(s0[i].addr@ != av);
                        }
                    }
                }
                Ok(())
            },
        }
    }

    /// Replaces the record at `addr` with `rec`.  Fails, changing nothing,
    /// if the address is unoccupied.
    pub fn update(&mut self, addr: Address, rec: Record) -> (r: Result<(), RequestError>)
        requires
            old(self).wf(),
        ensures
            final(self).wf(),
            old(self)@.dom().contains(addr@) ==> r == Ok::<(), RequestError>(()) && final(self)@
                == old(self)@.insert(addr@, rec@),
            !old(self)@.dom().contains(addr@) ==> r == Err::<(), RequestError>(
                RequestError::AccountNotFound,
            ) && final(self)@ == old(self)@,
    {
        proof {
            lemma_map_of_contains(self.entries@, addr@);
        }
        match self.find(&addr) {
            None => Err(RequestError::AccountNotFound),
            Some(i) => {
                let ghost s0 = self.entries@;
                let ghost av = addr@;
                self.entries[i] = Entry { addr, rec };
                proof {
                    let e = self.entries@[i as int];
                    assert(self.entries@ =~= s0.update(i as int, e));
                    lemma_map_of_update(s0, i as int, e);
                    lemma_map_of_index(s0, i as int);
                    assert forall|k: int, l: int|
                        0 <= k < l < self.entries@.len() implies self.entries@[k].addr@
                        != self.entries@[l].addr@ by {
                        assert(s0[k].addr@ != s0[l].addr@);
                    }
                }
                Ok(())
            },
        }
    }
}

} // verus!
