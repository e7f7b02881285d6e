//! In-memory tables of the ledger and the fork that a transaction works on.

use vstd::prelude::*;

use crate::assoc::{
    has_key, keys_distinct, lemma_distinct_index, lemma_distinct_len, lemma_push_inserts,
    lemma_update_inserts,
    pairs_map,
};
use crate::crypto::PublicKey;
use crate::currency::wallet::{Wallet, WalletView};
use crate::lvm::contract::{Contract, ContractView};

verus! {

/// A value that can be stored in a table: it can be copied, and the copy has
/// the same view.
pub trait Record: View + Sized {
    fn duplicate(&self) -> (copy: Self)
        ensures
            copy@ == self@,
    ;
}

/// A table from public keys to records.
///
/// It is held as a list of entries in which no key occurs twice.
#[derive(Debug)]
pub struct MapIndex<V: View> {
    entries: Vec<(PublicKey, V)>,
}

/// The entries of a list as pure values.
pub open spec fn viewed<V: View>(entries: Seq<(PublicKey, V)>) -> Seq<(Seq<u8>, V::V)> {
    entries.map_values(|e: (PublicKey, V)| (e.0@, e.1@))
}

impl<V: View> View for MapIndex<V> {
    type V = Map<Seq<u8>, V::V>;

    closed spec fn view(&self) -> Map<Seq<u8>, V::V> {
        pairs_map(self.pairs())
    }
}

impl<V: View> MapIndex<V> {
    /// The entries as pure values, in the order in which they are held.
    spec fn pairs(&self) -> Seq<(Seq<u8>, V::V)> {
        viewed(self.entries@)
    }

    #[verifier::type_invariant]
    spec fn well_formed(&self) -> bool {
        keys_distinct(self.pairs())
    }

    /// A table without entries.
    pub fn new() -> (index: Self)
        ensures
            index@ == Map::<Seq<u8>, V::V>::empty(),
    {
        let index = MapIndex { entries: Vec::new() };
        assert(index.pairs() =~= Seq::<(Seq<u8>, V::V)>::empty());
        assert(index@ =~= Map::<Seq<u8>, V::V>::empty());
        index
    }

    /// Number of entries.
    pub fn len(&self) -> (n: usize)
        ensures
            self@.dom().finite(),
            n == self@.dom().len(),
    {
        proof {
            use_type_invariant(self);
            lemma_distinct_len(self.pairs());
        }
        self.entries.len()
    }

    fn position(&self, key: &PublicKey) -> (r: Option<usize>)
        ensures
            r is Some <==> has_key(self.pairs(), key@),
            r is Some ==> r->Some_0 < self.pairs().len() && self.pairs()[r->Some_0 as int].0 == key@,
    {
        let mut i: usize = 0;
        while i < self.entries.len()
            invariant
                i <= self.entries@.len(),
                forall|j: int| 0 <= j < i ==> (#[trigger] self.pairs()[j]).0 != key@,
            decreases self.entries@.len() - i,
        {
            if self.entries[i].0 == *key {
                assert(self.pairs()[i as int].0 == key@);
                return Some(i);
            }
            i += 1;
        }
        None
    }

    /// Point lookup.
    pub fn get(&self, key: &PublicKey) -> (r: Option<&V>)
        ensures
            r is Some <==> self@.contains_key(key@),
            r is Some ==> r->Some_0@ == self@[key@],
    {
        proof {
            use_type_invariant(self);
        }
        match self.position(key) {
            Some(i) => {
                proof {
                    lemma_distinct_index(self.pairs(), i as int);
                }
                Some(&self.entries[i].1)
            },
            None => None,
        }
    }

    /// Whether the table has an entry for the key.
    pub fn contains(&self, key: &PublicKey) -> (r: bool)
        ensures
            r == self@.contains_key(key@),
    {
        self.position(key).is_some()
    }

    /// The keys of the table, each once, in no particular order.
    pub fn keys(&self) -> (keys: Vec<PublicKey>)
        ensures
            keys@.len() == self@.dom().len(),
            forall|i: int| 0 <= i < keys@.len() ==> self@.contains_key(#[trigger] keys@[i]@),
            forall|key: Seq<u8>|
                self@.contains_key(key) ==> exists|i: int|
                    0 <= i < keys@.len() && #[trigger] keys@[i]@ == key,
            forall|i: int, j: int| 0 <= i < j < keys@.len() ==> keys@[i]@ != keys@[j]@,
    {
        proof {
            use_type_invariant(self);
        }
        let mut keys: Vec<PublicKey> = Vec::new();
        let mut i: usize = 0;
        while i < self.entries.len()
            invariant
                i <= self.entries@.len(),
                keys@.len() == i,
                forall|j: int| 0 <= j < i ==> (#[trigger] keys@[j])@ == self.pairs()[j].0,
            decreases self.entries@.len() - i,
        {
            keys.push(self.entries[i].0);
            i += 1;
        }
        proof {
            lemma_distinct_len(self.pairs());
            assert forall|j: int| 0 <= j < keys@.len() implies self@.contains_key(
                #[trigger] keys@[j]@,
            ) by {
                lemma_distinct_index(self.pairs(), j);
            }
            assert forall|key: Seq<u8>| self@.contains_key(key) implies exists|j: int|
                0 <= j < keys@.len() && #[trigger] keys@[j]@ == key by {
                let j = choose|j: int| 0 <= j < self.pairs().len() && #[trigger] self.pairs()[j].0 == key;
                assert(keys@[j]@ == key);
            }
        }
        keys
    }

    /// Point write: stores the value under the key, in place of a value that
    /// was there.
    pub fn put(&mut self, key: &PublicKey, value: V)
        ensures
            final(self)@ == old(self)@.insert(key@, value@),
    {
        proof {
            use_type_invariant(&*self);
        }
        let ghost before = self.pairs();
        let found = self.position(key);
        let mut entries: Vec<(PublicKey, V)> = Vec::new();
        std::mem::swap(&mut self.entries, &mut entries);
        assert(self.pairs() =~= Seq::<(Seq<u8>, V::V)>::empty());
        match found {
            Some(i) => {
                proof {
                    lemma_update_inserts(before, i as int, value@);
                }
                entries.set(i, (*key, value));
            },
            None => {
                proof {
                    lemma_push_inserts(before, (key@, value@));
                    assert(keys_distinct(before.push((key@, value@))));
                }
                entries.push((*key, value));
            },
        }
        let ghost after = viewed(entries@);
        assert(found is Some ==> after =~= before.update(
            found->Some_0 as int,
            (before[found->Some_0 as int].0, value@),
        ));
        assert(found is None ==> after =~= before.push((key@, value@)));
        std::mem::swap(&mut self.entries, &mut entries);
    }
}

impl<V: Record> MapIndex<V> {
    /// A copy of the table.
    pub fn snapshot(&self) -> (copy: Self)
        ensures
            copy@ == self@,
    {
        proof {
            use_type_invariant(self);
        }
        let mut entries: Vec<(PublicKey, V)> = Vec::new();
        let mut i: usize = 0;
        while i < self.entries.len()
            invariant
                i <= self.entries@.len(),
                entries@.len() == i,
                viewed(entries@) == self.pairs().subrange(0, i as int),
            decreases self.entries@.len() - i,
        {
            let key = self.entries[i].0;
            let value = self.entries[i].1.duplicate();
            let ghost done = entries@;
            entries.push((key, value));
            proof {
                let target = self.pairs().subrange(0, i + 1);
                assert forall|j: int| 0 <= j < i + 1 implies viewed(entries@)[j] == target[j] by {
                    if j < i {
                        assert(entries@[j] == done[j]);
                        assert(viewed(done)[j] == self.pairs().subrange(0, i as int)[j]);
                    }
                }
                assert(viewed(entries@) =~= target);
            }
            i += 1;
        }
        assert(viewed(entries@) =~= self.pairs());
        MapIndex { entries }
    }
}

/// The ledger state that one transaction reads and writes: the table of
/// contracts and the table of accounts.
#[derive(Debug)]
pub struct Fork {
    pub contracts: MapIndex<Contract>,
    pub wallets: MapIndex<Wallet>,
}

/// A fork as pure values.
pub struct ForkView {
    pub contracts: Map<Seq<u8>, ContractView>,
    pub wallets: Map<Seq<u8>, WalletView>,
}

impl View for Fork {
    type V = ForkView;

    open spec fn view(&self) -> ForkView {
        ForkView { contracts: self.contracts@, wallets: self.wallets@ }
    }
}

impl ForkView {
    /// The contract stored under a key, if there is one.
    pub open spec fn contract(self, key: Seq<u8>) -> Option<ContractView> {
        if self.contracts.contains_key(key) {
            Some(self.contracts[key])
        } else {
            None
        }
    }

    /// The account stored under a key, if there is one.
    pub open spec fn wallet(self, key: Seq<u8>) -> Option<WalletView> {
        if self.wallets.contains_key(key) {
            Some(self.wallets[key])
        } else {
            None
        }
    }
}

/// A readable view of the ledger: a fork, borrowed for reading or for writing.
pub trait Snapshot {
    /// The ledger state that the view shows.
    spec fn state(&self) -> ForkView;

    /// The fork behind the view.
    fn fork(&self) -> (fork: &Fork)
        ensures
            fork@ == self.state(),
    ;
}

impl<'a> Snapshot for &'a Fork {
    open spec fn state(&self) -> ForkView {
        (**self)@
    }

    fn fork(&self) -> (fork: &Fork) {
        &**self
    }
}

impl<'a> Snapshot for &'a mut Fork {
    open spec fn state(&self) -> ForkView {
        (**self)@
    }

    fn fork(&self) -> (fork: &Fork) {
        &**self
    }
}

impl Fork {
    /// A fork over an empty ledger.
    pub fn new() -> (fork: Fork)
        ensures
            fork@.contracts == Map::<Seq<u8>, ContractView>::empty(),
            fork@.wallets == Map::<Seq<u8>, WalletView>::empty(),
    {
        Fork { contracts: MapIndex::new(), wallets: MapIndex::new() }
    }

    /// A copy of the fork, to go back to when a transaction fails.
    pub fn snapshot(&self) -> (copy: Fork)
        ensures
            copy@ == self@,
    {
        Fork { contracts: self.contracts.snapshot(), wallets: self.wallets.snapshot() }
    }
}

} // verus!
