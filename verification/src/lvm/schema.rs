//! The contract store: the table of contracts in a view of the ledger.

use vstd::prelude::*;

use crate::crypto::PublicKey;
use crate::lvm::contract::{Contract, ContractView};
use crate::storage::{Fork, MapIndex, Snapshot};

verus! {

/// Typed access to the contracts in a view of the ledger.
#[derive(Debug)]
pub struct Schema<T> {
    pub view: T,
}

impl<T: Snapshot> Schema<T> {
    /// Wraps a view of the ledger.
    pub fn new(view: T) -> (schema: Self)
        ensures
            schema.view == view,
    {
        Schema { view }
    }

    /// The table of contracts.
    pub fn contracts(&self) -> (contracts: &MapIndex<Contract>)
        ensures
            contracts@ == self.view.state().contracts,
    {
        &self.view.fork().contracts
    }

    /// Point lookup of a contract; reads only.
    pub fn contract(&self, pub_key: &PublicKey) -> (r: Option<Contract>)
        ensures
            match r {
                Some(contract) => self.view.state().contract(pub_key@) == Some(contract@),
                None => self.view.state().contract(pub_key@) is None,
            },
    {
        match self.contracts().get(pub_key) {
            Some(contract) => Some(contract.clone()),
            None => None,
        }
    }
}

impl<'a> Schema<&'a mut Fork> {
    /// The table of contracts, for writing.
    pub fn contracts_mut(&mut self) -> (contracts: &mut MapIndex<Contract>)
        ensures
            *contracts == old(self).view.contracts,
            final(self).view.contracts == *final(contracts),
            final(self).view.wallets == old(self).view.wallets,
            *final(final(self).view) == *final(old(self).view),
    {
        &mut self.view.contracts
    }

    /// Stores a new contract with the given source and an empty state under
    /// the key, in place of a contract that was there.
    pub fn create_contract(&mut self, pub_key: &PublicKey, code: &str)
        ensures
            final(self).view@.contracts == old(self).view@.contracts.insert(
                pub_key@,
                ContractView::created(pub_key@, code@),
            ),
            final(self).view@.wallets == old(self).view@.wallets,
            *final(final(self).view) == *final(old(self).view),
    {
        let contract = Contract::new(pub_key, code);
        self.view.contracts.put(pub_key, contract);
    }
}

} // verus!
