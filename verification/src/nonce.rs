//! Transaction nonces, one counter per account address.

use vstd::prelude::*;

verus! {

/// Why no nonce was handed out.
#[derive(Clone, Copy, Debug, PartialEq, Eq, Structural)]
pub enum NonceError {
    /// The account's counter stands at the top of its range.
    Exhausted,
}

/// The counter of one address.
struct NonceEntry {
    address: String,
    nonce: u64,
}

/// Tracks the next nonce of each account. An address never seen counts
/// from zero.
pub struct NonceManager {
    entries: Vec<NonceEntry>,
}

/// The counter recorded for an address in a run of entries, zero if none is.
spec fn lookup(entries: Seq<NonceEntry>, address: Seq<char>) -> nat
    decreases entries.len(),
{
    if entries.len() == 0 {
        0
    } else if entries.last().address@ == address {
        entries.last().nonce as nat
    } else {
        lookup(entries.drop_last(), address)
    }
}

/// No address has two entries.
spec fn distinct(entries: Seq<NonceEntry>) -> bool {
    forall|i: int, j: int| 0 <= i < j < entries.len() ==> entries[i].address@ != entries[j].address@
}

/// With distinct addresses, the entry of an address holds its counter.
proof fn lemma_lookup_at(entries: Seq<NonceEntry>, i: int)
    requires
        distinct(entries),
        0 <= i < entries.len(),
    ensures
        lookup(entries, entries[i].address@) == entries[i].nonce,
    decreases entries.len(),
{
    if i < entries.len() - 1 {
        assert(entries.last().address@ != entries[i].address@);
        assert(entries.drop_last()[i] == entries[i]);
        lemma_lookup_at(entries.drop_last(), i);
    }
}

/// An address without an entry counts from zero.
proof fn lemma_lookup_absent(entries: Seq<NonceEntry>, address: Seq<char>)
    requires
        forall|j: int| 0 <= j < entries.len() ==> entries[j].address@ != address,
    ensures
        lookup(entries, address) == 0,
    decreases entries.len(),
{
    if entries.len() > 0 {
        assert(entries.last() == entries[entries.len() - 1]);
        assert forall|j: int| 0 <= j < entries.drop_last().len() implies entries.drop_last()[j].address@
            != address by {
            assert(entries.drop_last()[j] == entries[j]);
        }
        lemma_lookup_absent(entries.drop_last(), address);
    }
}

/// Replacing the counter of one entry changes the lookup of its address
/// alone.
proof fn lemma_lookup_after_update(
    before: Seq<NonceEntry>,
    after: Seq<NonceEntry>,
    i: int,
    other: Seq<char>,
)
    requires
        0 <= i < before.len(),
        after.len() == before.len(),
        after[i].address@ == before[i].address@,
        forall|j: int| 0 <= j < before.len() && j != i ==> after[j] == before[j],
        other != before[i].address@,
    ensures
        lookup(after, other) == lookup(before, other),
    decreases before.len(),
{
    let n = before.len() - 1;
    assert(before.last() == before[n]);
    assert(after.last() == after[n]);
    if i == n {
        assert(after.drop_last() =~= before.drop_last());
    } else if before.last().address@ != other {
        assert forall|j: int| 0 <= j < n && j != i implies after.drop_last()[j]
            == before.drop_last()[j] by {
            assert(after.drop_last()[j] == after[j]);
            assert(before.drop_last()[j] == before[j]);
        }
        assert(after.drop_last()[i] == after[i]);
        assert(before.drop_last()[i] == before[i]);
        lemma_lookup_after_update(before.drop_last(), after.drop_last(), i, other);
    }
}

impl NonceManager {
    /// The next nonce of an address.
    pub closed spec fn nonce_of(&self, address: Seq<char>) -> nat {
        lookup(self.entries@, address)
    }

    /// No address has two counters.
    pub closed spec fn wf(&self) -> bool {
        distinct(self.entries@)
    }

    /// A manager that has seen no address.
    pub fn new() -> (r: Self)
        ensures
            r.wf(),
            forall|address: Seq<char>| r.nonce_of(address) == 0,
    {
        NonceManager { entries: Vec::new() }
    }

    /// The position of the entry of an address, if it has one.
    fn find(&self, address: &String) -> (r: Option<usize>)
        ensures
            match r {
                Some(i) => i < self.entries@.len() && self.entries@[i as int].address@ == address@,
                None => forall|j: int|
                    0 <= j < self.entries@.len() ==> self.entries@[j].address@ != address@,
            },
    {
        let mut i: usize = 0;
        while i < self.entries.len()
            invariant
                i <= self.entries@.len(),
                forall|j: int| 0 <= j < i ==> self.entries@[j].address@ != address@,
            decreases self.entries@.len() - i,
        {
            if self.entries[i].address == *address {
                return Some(i);
            }
            i = i + 1;
        }
        None
    }

    /// Sets the counter of an address, known or not.
    fn store(&mut self, address: String, nonce: u64)
        requires
            old(self).wf(),
        ensures
            final(self).wf(),
            final(self).nonce_of(address@) == nonce,
            forall|other: Seq<char>|
                other != address@ ==> final(self).nonce_of(other) == old(self).nonce_of(other),
    {
        match self.find(&address) {
            Some(i) => {
                let ghost before = self.entries@;
                self.entries.set(i, NonceEntry { address, nonce });
                proof {
                    lemma_lookup_at(self.entries@, i as int);
                    assert forall|other: Seq<char>| other != address@ implies lookup(
                        self.entries@,
                        other,
                    ) == lookup(before, other) by {
                        lemma_lookup_after_update(before, self.entries@, i as int, other);
                    }
                }
            },
            None => {
                let ghost before = self.entries@;
                self.entries.push(NonceEntry { address, nonce });
                proof {
                    assert(self.entries@.drop_last() == before);
                }
            },
        }
    }

    /// Hands out the next nonce of an address and advances its counter.
    /// At the top of the range nothing is handed out and nothing changes.
    pub fn get_next_nonce(&mut self, address: &str) -> (r: Result<u64, NonceError>)
        requires
            old(self).wf(),
        ensures
            final(self).wf(),
            old(self).nonce_of(address@) < u64::MAX ==> r == Ok::<u64, NonceError>(
                old(self).nonce_of(address@) as u64,
            ) && final(self).nonce_of(address@) == old(self).nonce_of(address@) + 1,
            old(self).nonce_of(address@) >= u64::MAX ==> r == Err::<u64, NonceError>(
                NonceError::Exhausted,
            ) && final(self).nonce_of(address@) == old(self).nonce_of(address@),
            forall|other: Seq<char>|
                other != address@ ==> final(self).nonce_of(other) == old(self).nonce_of(other),
    {
        let current: u64 = self.get_current_nonce(address);
        if current == u64::MAX {
            return Err(NonceError::Exhausted);
        }
        self.store(address.to_owned(), current + 1);
        Ok(current)
    }

    /// Sets the next nonce of an address.
    pub fn reset_nonce(&mut self, address: &str, nonce: u64)
        requires
            old(self).wf(),
        ensures
            final(self).wf(),
            final(self).nonce_of(address@) == nonce,
            forall|other: Seq<char>|
                other != address@ ==> final(self).nonce_of(other) == old(self).nonce_of(other),
    {
        self.store(address.to_owned(), nonce);
    }

    /// The next nonce of an address, without advancing it.
    pub fn get_current_nonce(&self, address: &str) -> (r: u64)
        requires
            self.wf(),
        ensures
            r == self.nonce_of(address@),
    {
        let key: String = address.to_owned();
        match self.find(&key) {
            Some(i) => {
                proof {
                    lemma_lookup_at(self.entries@, i as int);
                }
                self.entries[i].nonce
            },
            None => {
                proof {
                    lemma_lookup_absent(self.entries@, address@);
                }
                0
            },
        }
    }
}

} // verus!
