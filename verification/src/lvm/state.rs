//! The key/value state of a contract as the host holds it.

use vstd::prelude::*;
use vstd::std_specs::cmp::PartialEqSpecImpl;

use crate::assoc::{
    has_key, keys_distinct, lemma_distinct_index, lemma_distinct_len, lemma_push_inserts,
    lemma_update_inserts,
    pairs_map,
};

verus! {

/// One entry of a state, as pure text.
pub type Pair = (Seq<char>, Seq<char>);

/// The state of a contract: a mapping from text keys to text values.
///
/// It is held as a list of entries in which no key occurs twice; the order of
/// the list carries no meaning.
#[derive(Debug)]
pub struct State {
    entries: Vec<(String, String)>,
}

impl View for State {
    type V = Map<Seq<char>, Seq<char>>;

    closed spec fn view(&self) -> Map<Seq<char>, Seq<char>> {
        pairs_map(self.pairs())
    }
}

impl State {
    /// The entries as pure text, in the order in which they are held.
    spec fn pairs(&self) -> Seq<Pair> {
        text_of(self.entries@)
    }

    #[verifier::type_invariant]
    spec fn well_formed(&self) -> bool {
        keys_distinct(self.pairs())
    }

    /// A state without entries.
    pub fn new() -> (state: State)
        ensures
            state@ == Map::<Seq<char>, Seq<char>>::empty(),
    {
        let state = State { entries: Vec::new() };
        assert(state.pairs() =~= Seq::<Pair>::empty());
        assert(state@ =~= Map::<Seq<char>, Seq<char>>::empty());
        state
    }

    /// Number of entries.
    pub fn len(&self) -> (n: usize)
        ensures
            self@.dom().finite(),
            n == self@.dom().len(),
    {
        proof {
            use_type_invariant(self);
            lemma_distinct_len(self.pairs());
        }
        self.entries.len()
    }

    /// Whether the state has no entry.
    pub fn is_empty(&self) -> (r: bool)
        ensures
            r == (self@ == Map::<Seq<char>, Seq<char>>::empty()),
    {
        proof {
            if self.entries@.len() > 0 {
                assert(self.pairs()[0].0 == self.pairs()[0].0);
                assert(has_key(self.pairs(), self.pairs()[0].0));
                assert(self@.contains_key(self.pairs()[0].0));
            } else {
                assert(self@ =~= Map::<Seq<char>, Seq<char>>::empty());
            }
        }
        self.entries.len() == 0
    }

    fn position(&self, key: &String) -> (r: Option<usize>)
        ensures
            r is Some <==> has_key(self.pairs(), key@),
            r is Some ==> r->Some_0 < self.pairs().len() && self.pairs()[r->Some_0 as int].0 == key@,
    {
        let mut i: usize = 0;
        while i < self.entries.len()
            invariant
                i <= self.entries@.len(),
                forall|j: int| 0 <= j < i ==> (#[trigger] self.pairs()[j]).0 != key@,
            decreases self.entries@.len() - i,
        {
            if self.entries[i].0 == *key {
                assert(self.pairs()[i as int].0 == key@);
                return Some(i);
            }
            i += 1;
        }
        None
    }

    /// The value stored under a key.
    pub fn get(&self, key: &str) -> (r: Option<&String>)
        ensures
            r is Some <==> self@.contains_key(key@),
            r is Some ==> r->Some_0@ == self@[key@],
    {
        proof {
            use_type_invariant(self);
        }
        let owned = key.to_owned();
        match self.position(&owned) {
            Some(i) => {
                proof {
                    lemma_distinct_index(self.pairs(), i as int);
                }
                Some(&self.entries[i].1)
            },
            None => None,
        }
    }

    /// Whether a value is stored under a key.
    pub fn contains_key(&self, key: &str) -> (r: bool)
        ensures
            r == self@.contains_key(key@),
    {
        let owned = key.to_owned();
        self.position(&owned).is_some()
    }

    /// Stores a value under a key, in place of the value that was there.
    pub fn insert(&mut self, key: String, value: String)
        ensures
            final(self)@ == old(self)@.insert(key@, value@),
    {
        proof {
            use_type_invariant(&*self);
        }
        let ghost before = self.pairs();
        let found = self.position(&key);
        let mut entries: Vec<(String, String)> = Vec::new();
        std::mem::swap(&mut self.entries, &mut entries);
        assert(self.pairs() =~= Seq::<Pair>::empty());
        match found {
            Some(i) => {
                proof {
                    lemma_update_inserts(before, i as int, value@);
                }
                entries.set(i, (key, value));
            },
            None => {
                proof {
                    lemma_push_inserts(before, (key@, value@));
                    assert(keys_distinct(before.push((key@, value@))));
                }
                entries.push((key, value));
            },
        }
        let ghost after = text_of(entries@);
        assert(found is Some ==> after =~= before.update(
            found->Some_0 as int,
            (before[found->Some_0 as int].0, value@),
        ));
        assert(found is None ==> after =~= before.push((key@, value@)));
        std::mem::swap(&mut self.entries, &mut entries);
    }

    /// Copies of the entries, one pair for each key, in no particular order.
    pub fn to_pairs(&self) -> (pairs: Vec<(String, String)>)
        ensures
            keys_distinct(text_of(pairs@)),
            pairs_map(text_of(pairs@)) == self@,
    {
        proof {
            use_type_invariant(self);
        }
        let mut pairs: Vec<(String, String)> = Vec::new();
        let mut i: usize = 0;
        while i < self.entries.len()
            invariant
                i <= self.entries@.len(),
                pairs@ == self.entries@.subrange(0, i as int),
            decreases self.entries@.len() - i,
        {
            let key = self.entries[i].0.clone();
            let value = self.entries[i].1.clone();
            pairs.push((key, value));
            assert(pairs@ =~= self.entries@.subrange(0, i + 1));
            i += 1;
        }
        assert(pairs@ =~= self.entries@);
        pairs
    }

    /// Builds a state from a list of entries; of two entries with one key the
    /// later one counts.
    pub fn from_pairs(pairs: &Vec<(String, String)>) -> (state: State)
        ensures
            state@ == pairs_map(text_of(pairs@)),
    {
        let mut state = State::new();
        let mut i: usize = 0;
        assert(pairs_map(text_of(pairs@).subrange(0, 0)) =~= Map::<Seq<char>, Seq<char>>::empty());
        while i < pairs.len()
            invariant
                i <= pairs@.len(),
                state@ == pairs_map(text_of(pairs@).subrange(0, i as int)),
            decreases pairs@.len() - i,
        {
            let key = pairs[i].0.clone();
            let value = pairs[i].1.clone();
            proof {
                let done = text_of(pairs@).subrange(0, i as int);
                lemma_push_inserts(done, (key@, value@));
                assert(done.push((key@, value@)) =~= text_of(pairs@).subrange(0, i + 1));
            }
            state.insert(key, value);
            i += 1;
        }
        assert(text_of(pairs@).subrange(0, pairs@.len() as int) =~= text_of(pairs@));
        state
    }

    /// Whether every entry of this state is an entry of the other.
    fn included_in(&self, other: &State) -> (r: bool)
        ensures
            r == self@.submap_of(other@),
    {
        proof {
            use_type_invariant(self);
        }
        let mut i: usize = 0;
        while i < self.entries.len()
            invariant
                i <= self.entries@.len(),
                keys_distinct(self.pairs()),
                forall|j: int|
                    0 <= j < i ==> other@.contains_key((#[trigger] self.pairs()[j]).0) && other@[self.pairs()[j].0]
                        == self.pairs()[j].1,
            decreases self.entries@.len() - i,
        {
            proof {
                lemma_distinct_index(self.pairs(), i as int);
            }
            let same = match other.get(self.entries[i].0.as_str()) {
                Some(value) => *value == self.entries[i].1,
                None => false,
            };
            if !same {
                return false;
            }
            i += 1;
        }
        proof {
            assert forall|key: Seq<char>| self@.contains_key(key) implies #[trigger] other@.contains_key(key)
                && self@[key] == other@[key] by {
                let j = choose|j: int| 0 <= j < self.pairs().len() && #[trigger] self.pairs()[j].0 == key;
                lemma_distinct_index(self.pairs(), j);
            }
        }
        true
    }
}

/// The entries of a list as pure text.
pub open spec fn text_of(pairs: Seq<(String, String)>) -> Seq<Pair> {
    pairs.map_values(|e: (String, String)| (e.0@, e.1@))
}

impl Clone for State {
    fn clone(&self) -> (copy: State)
        ensures
            copy@ == self@,
    {
        let entries = self.to_pairs();
        State { entries }
    }
}

impl PartialEq for State {
    fn eq(&self, other: &State) -> (r: bool) {
        let r = self.included_in(other) && other.included_in(self);
        assert(r == (self@ =~= other@));
        r
    }
}

impl PartialEqSpecImpl for State {
    open spec fn obeys_eq_spec() -> bool {
        true
    }

    open spec fn eq_spec(&self, other: &State) -> bool {
        self@ == other@
    }
}

} // verus!
