use vstd::prelude::*;
use crate::key::Key;
use crate::account::{JournalEntry, JournalError, UserProfile};

verus! {

/// What an address holds.
#[derive(Clone, Debug)]
pub enum Account {
    Profile(UserProfile),
    Entry(JournalEntry),
}

/// An account and the address it lives at.
struct Slot {
    address: Key,
    account: Account,
}

/// The accounts of one program, each at its own address.
pub struct Ledger {
    program_id: Key,
    slots: Vec<Slot>,
    contents: Ghost<Map<Seq<u8>, Account>>,
}

impl View for Ledger {
    type V = Map<Seq<u8>, Account>;

    closed spec fn view(&self) -> Map<Seq<u8>, Account> {
        self.contents@
    }
}

impl JournalEntry {
    /// A field-by-field copy.
    pub fn duplicate(&self) -> (r: JournalEntry)
        ensures
            r == *self,
    {
        JournalEntry {
            authority: self.authority,
            id: self.id,
            title: self.title.clone(),
            message: self.message.clone(),
            timestamp: self.timestamp,
            bump: self.bump,
        }
    }
}

impl Ledger {
    /// Each address occurs once, and the map holds exactly the slots.
    pub closed spec fn wf(&self) -> bool {
        &&& forall|i: int, j: int|
            0 <= i < self.slots@.len() && 0 <= j < self.slots@.len() && i != j
                ==> (#[trigger] self.slots@[i]).address@ != (#[trigger] self.slots@[j]).address@
        &&& forall|i: int| 0 <= i < self.slots@.len() ==> {
            &&& self.contents@.contains_key((#[trigger] self.slots@[i]).address@)
            &&& self.contents@[self.slots@[i].address@] == self.slots@[i].account
        }
        &&& forall|k: Seq<u8>| #[trigger] self.contents@.contains_key(k)
            ==> exists|i: int| 0 <= i < self.slots@.len() && (#[trigger] self.slots@[i]).address@ == k
    }

    /// The program whose addresses this ledger holds.
    pub closed spec fn program(&self) -> Seq<u8> {
        self.program_id@
    }

    /// An empty ledger for `program_id`.
    pub fn new(program_id: Key) -> (r: Ledger)
        ensures
            r.wf(),
            r@ == Map::<Seq<u8>, Account>::empty(),
            r.program() == program_id@,
    {
        Ledger { program_id, slots: Vec::new(), contents: Ghost(Map::empty()) }
    }

    pub fn program_id(&self) -> (r: Key)
        ensures
            r@ == self.program(),
    {
        self.program_id
    }

    fn find(&self, address: &Key) -> (r: Option<usize>)
        requires
            self.wf(),
        ensures
            match r {
                Some(i) => i < self.slots@.len() && self.slots@[i as int].address@ == address@,
                None => !self@.contains_key(address@),
            },
    {
        let mut i: usize = 0;
        while i < self.slots.len()
            invariant
                i <= self.slots@.len(),
                forall|j: int| 0 <= j < i ==> (#[trigger] self.slots@[j]).address@ != address@,
            decreases self.slots@.len() - i,
        {
            if self.slots[i].address.same_as(address) {
                return Some(i);
            }
            i = i + 1;
        }
        None
    }

    /// The account at `address`, if any.
    pub fn get(&self, address: &Key) -> (r: Option<&Account>)
        requires
            self.wf(),
        ensures
            match r {
                Some(a) => self@.contains_key(address@) && self@[address@] == *a,
                None => !self@.contains_key(address@),
            },
    {
        match self.find(address) {
            Some(i) => Some(&self.slots[i].account),
            None => None,
        }
    }

    /// Puts `account` at a free `address`.
    fn insert(&mut self, address: Key, account: Account)
        requires
            old(self).wf(),
            !old(self)@.contains_key(address@),
        ensures
            final(self).wf(),
            final(self)@ == old(self)@.insert(address@, account),
            final(self).program() == old(self).program(),
    {
        let ghost a = account;
        self.slots.push(Slot { address, account });
        self.contents = Ghost(self.contents@.insert(address@, a));
        proof {
            let n = self.slots@.len() - 1;
            assert forall|k: Seq<u8>| #[trigger] self.contents@.contains_key(k)
                implies exists|i: int| 0 <= i < self.slots@.len() && (#[trigger] self.slots@[i]).address@ == k by {
                if k == address@ {
                    assert(self.slots@[n].address@ == k);
                } else {
                    assert(old(self).contents@.contains_key(k));
                    let i = choose|i: int| 0 <= i < old(self).slots@.len() && (#[trigger] old(self).slots@[i]).address@ == k;
                    assert(self.slots@[i] == old(self).slots@[i]);
                }
            }
        }
    }

    /// Replaces the account at slot `i`.
    fn replace(&mut self, i: usize, account: Account)
        requires
            old(self).wf(),
            i < old(self).slots@.len(),
        ensures
            final(self).wf(),
            final(self)@ == old(self)@.insert(old(self).slots@[i as int].address@, account),
            final(self).program() == old(self).program(),
    {
        let ghost a = account;
        let address = self.slots[i].address;
        self.slots.set(i, Slot { address, account });
        self.contents = Ghost(self.contents@.insert(address@, a));
        proof {
            assert forall|k: Seq<u8>| #[trigger] self.contents@.contains_key(k)
                implies exists|j: int| 0 <= j < self.slots@.len() && (#[trigger] self.slots@[j]).address@ == k by {
                if k == address@ {
                    assert(self.slots@[i as int].address@ == k);
                } else {
                    let j = choose|j: int| 0 <= j < old(self).slots@.len() && (#[trigger] old(self).slots@[j]).address@ == k;
                    assert(self.slots@[j] == old(self).slots@[j]);
                }
            }
        }
    }

    /// Removes the account at slot `i`.
    fn remove_at(&mut self, i: usize)
        requires
            old(self).wf(),
            i < old(self).slots@.len(),
        ensures
            final(self).wf(),
            final(self)@ == old(self)@.remove(old(self).slots@[i as int].address@),
            final(self).program() == old(self).program(),
    {
        let ghost address = self.slots@[i as int].address@;
        let ghost before = self.slots@;
        self.slots.remove(i);
        self.contents = Ghost(self.contents@.remove(address));
        proof {
            assert forall|j: int| 0 <= j < self.slots@.len() implies
                (#[trigger] self.slots@[j]) == before[if j < i { j } else { j + 1 }] by {}
            assert forall|j: int| 0 <= j < self.slots@.len() implies {
                &&& self.contents@.contains_key((#[trigger] self.slots@[j]).address@)
                &&& self.contents@[self.slots@[j].address@] == self.slots@[j].account
            } by {
                let jj = if j < i { j } else { j + 1 };
                assert(self.slots@[j] == before[jj]);
                assert(before[jj].address@ != before[i as int].address@);
            }
            assert forall|k: Seq<u8>| #[trigger] self.contents@.contains_key(k)
                implies exists|j: int| 0 <= j < self.slots@.len() && (#[trigger] self.slots@[j]).address@ == k by {
                let j = choose|j: int| 0 <= j < before.len() && (#[trigger] before[j]).address@ == k;
                assert(j != i);
                let jj = if j < i { j } else { j - 1 };
                assert(self.slots@[jj] == before[j]);
            }
            assert forall|a: int, b: int|
                0 <= a < self.slots@.len() && 0 <= b < self.slots@.len() && a != b
                implies (#[trigger] self.slots@[a]).address@ != (#[trigger] self.slots@[b]).address@ by {
                let aa = if a < i { a } else { a + 1 };
                let bb = if b < i { b } else { b + 1 };
                assert(self.slots@[a] == before[aa]);
                assert(self.slots@[b] == before[bb]);
            }
        }
    }

    /// Puts `account` at `address`, replacing what was there.
    pub(crate) fn put(&mut self, address: Key, account: Account)
        requires
            old(self).wf(),
        ensures
            final(self).wf(),
            final(self)@ == old(self)@.insert(address@, account),
            final(self).program() == old(self).program(),
    {
        match self.find(&address) {
            Some(i) => self.replace(i, account),
            None => self.insert(address, account),
        }
    }

    /// Removes the account at `address`, if any.
    pub(crate) fn take_out(&mut self, address: &Key)
        requires
            old(self).wf(),
        ensures
            final(self).wf(),
            final(self)@ == old(self)@.remove(address@),
            final(self).program() == old(self).program(),
    {
        match self.find(address) {
            Some(i) => self.remove_at(i),
            None => {
                assert(self@ =~= old(self)@.remove(address@));
            },
        }
    }
}

} // verus!
