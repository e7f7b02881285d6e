//! The query that the service answers: a contract by its address.

use vstd::prelude::*;

use crate::crypto::PublicKey;
use crate::lvm::contract::Contract;
use crate::lvm::schema::Schema;
use crate::storage::Fork;

verus! {

/// Asks for the contract at an address.
#[derive(Debug, Clone, Copy)]
pub struct ContractQuery {
    pub pub_key: PublicKey,
}

/// The answer to a query: the address asked for, and the record stored
/// there, if any.
#[derive(Debug)]
pub struct ContractInfo {
    pub pub_key: PublicKey,
    pub contract: Option<Contract>,
}

/// The public queries of the contract service.
#[derive(Debug, Clone, Copy)]
pub struct PublicApi;

impl PublicApi {
    /// Looks the contract up in a committed state of the ledger. The answer
    /// is fixed by that state and the address: asking again gives the same.
    pub fn contract_info(snapshot: &Fork, query: ContractQuery) -> (info: ContractInfo)
        ensures
            info.pub_key@ == query.pub_key@,
            match info.contract {
                Some(contract) => snapshot@.contract(query.pub_key@) == Some(contract@),
                None => snapshot@.contract(query.pub_key@) is None,
            },
    {
        let lvm_schema = Schema::new(snapshot);
        let contract = lvm_schema.contract(&query.pub_key);
        ContractInfo { pub_key: query.pub_key, contract }
    }
}

} // verus!
