//! The contract record.

use vstd::prelude::*;

use crate::crypto::PublicKey;
use crate::lvm::state::State;
use crate::storage::Record;

verus! {

/// A published script with its mutable state, addressed by a public key.
#[derive(Debug)]
pub struct Contract {
    pub pub_key: PublicKey,
    pub code: String,
    pub state: State,
}

/// A contract as pure values.
pub struct ContractView {
    pub pub_key: Seq<u8>,
    pub code: Seq<char>,
    pub state: Map<Seq<char>, Seq<char>>,
}

impl View for Contract {
    type V = ContractView;

    open spec fn view(&self) -> ContractView {
        ContractView { pub_key: self.pub_key@, code: self.code@, state: self.state@ }
    }
}

impl ContractView {
    /// The contract as it is right after creation: the given source, no state.
    pub open spec fn created(pub_key: Seq<u8>, code: Seq<char>) -> ContractView {
        ContractView { pub_key, code, state: Map::empty() }
    }
}

impl Contract {
    /// A contract with the given source and an empty state.
    pub fn new(pub_key: &PublicKey, code: &str) -> (contract: Contract)
        ensures
            contract@ == ContractView::created(pub_key@, code@),
    {
        Contract { pub_key: *pub_key, code: code.to_owned(), state: State::new() }
    }
}

impl Record for Contract {
    fn duplicate(&self) -> (copy: Contract) {
        Contract { pub_key: self.pub_key, code: self.code.clone(), state: self.state.clone() }
    }
}

impl Clone for Contract {
    fn clone(&self) -> (copy: Contract)
        ensures
            copy@ == self@,
    {
        self.duplicate()
    }
}

} // verus!
