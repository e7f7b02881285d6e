//! The transactions of the contract service and what they do to the ledger.

use vstd::prelude::*;
use vstd::std_specs::convert::FromSpecImpl;
use vstd::string::StringExecFns;

use crate::blockchain::{ExecutionError, ExecutionErrorView, ExecutionResult, TransactionContext};
use crate::crypto::{short_hex, PublicKey};
use crate::currency::schema::{opened, Schema as CurrencySchema};
use crate::lvm::contract::{Contract, ContractView};
use crate::lvm::runner::context_wrap::{
    account_at, after_transfers, lemma_transfers_keep_contracts, Binding, Bound, TransferCall,
};
use crate::lvm::runner::lua_api::MAX_ARGUMENTS;
use crate::lvm::runner::{Runner, TOO_MANY_ARGUMENTS};
use crate::lvm::schema::Schema as LvmSchema;
use crate::storage::{Fork, ForkView};

verus! {

/// The failures of the contract service.
#[derive(Debug, Clone, Copy, PartialEq, Eq, Structural)]
pub enum Error {
    /// Creation was asked for an address already bound to a contract or an
    /// account.
    ContractAlreadyExists,
    /// Invocation was asked for an address with no contract or no account.
    ContractNotExists,
    /// The run in the sandbox failed.
    ContractExecutionError,
}

impl Error {
    /// The stable code of the failure, in contracts.
    pub open spec fn code_value(&self) -> u8 {
        match self {
            Error::ContractAlreadyExists => 0,
            Error::ContractNotExists => 1,
            Error::ContractExecutionError => 2,
        }
    }

    /// The text of the failure, in contracts.
    pub open spec fn description_text(&self) -> Seq<char> {
        match self {
            Error::ContractAlreadyExists => "Contract already exists"@,
            Error::ContractNotExists => "Contract not exists"@,
            Error::ContractExecutionError => "Contract execution error"@,
        }
    }

    /// The failure as a recorded outcome, in contracts.
    pub open spec fn recorded(&self) -> ExecutionErrorView {
        ExecutionErrorView { code: self.code_value(), description: Some(self.description_text()) }
    }

    /// The stable code of the failure.
    pub fn code(&self) -> (code: u8)
        ensures
            code == self.code_value(),
    {
        match self {
            Error::ContractAlreadyExists => 0,
            Error::ContractNotExists => 1,
            Error::ContractExecutionError => 2,
        }
    }

    /// The text of the failure.
    pub fn description(&self) -> (text: String)
        ensures
            text@ == self.description_text(),
    {
        match self {
            Error::ContractAlreadyExists => "Contract already exists".to_owned(),
            Error::ContractNotExists => "Contract not exists".to_owned(),
            Error::ContractExecutionError => "Contract execution error".to_owned(),
        }
    }
}

impl From<Error> for ExecutionError {
    fn from(value: Error) -> (error: ExecutionError)
        ensures
            error@ == value.recorded(),
    {
        let description = value.description();
        ExecutionError::with_description(value.code(), description)
    }
}

/// A recorded outcome holds text, and ghost code has no way to make a text:
/// what `from` returns is stated by its own `ensures`, over views.
impl FromSpecImpl<Error> for ExecutionError {
    open spec fn obeys_from_spec() -> bool {
        false
    }

    open spec fn from_spec(value: Error) -> ExecutionError {
        arbitrary()
    }
}

/// The recorded outcome of a transaction, as pure values.
pub open spec fn outcome(r: ExecutionResult) -> Result<(), ExecutionErrorView> {
    match r {
        Ok(_) => Ok(()),
        Err(error) => Err(error@),
    }
}

/// Name of the account that is created together with a contract.
pub open spec fn contract_wallet_name(pub_key: Seq<u8>) -> Seq<char> {
    "contract-"@ + short_hex(pub_key)
}

/// Whether the address is bound to a contract or to an account.
pub open spec fn address_in_use(fork: ForkView, pub_key: Seq<u8>) -> bool {
    fork.contracts.contains_key(pub_key) || fork.wallets.contains_key(pub_key)
}

/// The outcome of creating a contract at an address.
pub open spec fn create_contract_outcome(fork: ForkView, pub_key: Seq<u8>) -> Result<
    (),
    ExecutionErrorView,
> {
    if address_in_use(fork, pub_key) {
        Err(Error::ContractAlreadyExists.recorded())
    } else {
        Ok(())
    }
}

/// The ledger after creating a contract at an address: where the address is
/// free, the contract and its account are both there; where it is not, the
/// ledger is as it was.
pub open spec fn create_contract_fork(
    fork: ForkView,
    pub_key: Seq<u8>,
    code: Seq<char>,
    tx_hash: Seq<u8>,
) -> ForkView {
    if address_in_use(fork, pub_key) {
        fork
    } else {
        ForkView {
            contracts: fork.contracts.insert(pub_key, ContractView::created(pub_key, code)),
            wallets: fork.wallets.insert(
                pub_key,
                opened(pub_key, contract_wallet_name(pub_key), tx_hash),
            ),
        }
    }
}

/// A contract can be invoked at an address at which a contract and its
/// account are held, each under that key and naming that key.
pub open spec fn invocable(fork: ForkView, pub_key: Seq<u8>) -> bool {
    &&& fork.contracts.contains_key(pub_key)
    &&& fork.contracts[pub_key].pub_key == pub_key
    &&& account_at(fork.wallets, pub_key)
}

/// What invoking a contract may do to the ledger, whatever the script is.
///
/// Without a contract or without an account at the address the invocation
/// fails as `ContractNotExists` and the ledger is as it was. Otherwise it
/// either fails as `ContractExecutionError`, with a description, and the
/// ledger is as it was; or it succeeds, and then the accounts are what a
/// series of calls of the capability, none of which failed, made of them,
/// the contract at the address has its key and source as before, and every
/// other contract is untouched.
pub open spec fn call_contract_effect(
    before: ForkView,
    after: ForkView,
    pub_key: Seq<u8>,
    tx_hash: Seq<u8>,
    r: Result<(), ExecutionErrorView>,
) -> bool {
    if !invocable(before, pub_key) {
        r == Err::<(), ExecutionErrorView>(Error::ContractNotExists.recorded()) && after == before
    } else {
        match r {
            Err(error) => error.code == Error::ContractExecutionError.code_value()
                && error.description is Some && after == before,
            Ok(_) => exists|calls: Seq<TransferCall>|
                {
                    let end = #[trigger] after_transfers(
                        Bound {
                            binding: Binding { account: pub_key, tx_hash, failure: None },
                            fork: before,
                        },
                        calls,
                    );
                    &&& end.binding.failure is None
                    &&& after.wallets == end.fork.wallets
                    &&& after.contracts.contains_key(pub_key)
                    &&& after.contracts == before.contracts.insert(pub_key, after.contracts[pub_key])
                    &&& after.contracts[pub_key].pub_key == pub_key
                    &&& after.contracts[pub_key].code == before.contracts[pub_key].code
                },
        }
    }
}

/// Publishes a script at an address and opens the account that goes with it.
#[derive(Debug)]
pub struct CreateContract {
    pub pub_key: PublicKey,
    pub code: String,
}

/// Invokes an entry point of the contract at an address.
#[derive(Debug)]
pub struct CallContract {
    pub pub_key: PublicKey,
    pub fn_name: String,
    pub args: Vec<String>,
}

/// The transactions of the contract service.
#[derive(Debug)]
pub enum LvmTransactions {
    CreateContract(CreateContract),
    CallContract(CallContract),
}

impl CreateContract {
    /// Creates the contract and its account, both or neither: the address
    /// must be free of either before anything is written.
    pub fn execute(&self, context: TransactionContext) -> (r: ExecutionResult)
        ensures
            outcome(r) == create_contract_outcome(old(context.fork)@, self.pub_key@),
            final(context.fork)@ == create_contract_fork(
                old(context.fork)@,
                self.pub_key@,
                self.code@,
                context.tx_hash@,
            ),
    {
        let TransactionContext { fork, tx_hash, author: _ } = context;
        let taken = {
            let schema = LvmSchema::new(&*fork);
            schema.contract(&self.pub_key).is_some()
        } || {
            let schema = CurrencySchema::new(&*fork);
            schema.wallet(&self.pub_key).is_some()
        };
        if taken {
            return Err(ExecutionError::from(Error::ContractAlreadyExists));
        }
        {
            let mut schema = LvmSchema::new(&mut *fork);
            schema.create_contract(&self.pub_key, self.code.as_str());
        }
        {
            let mut schema = CurrencySchema::new(&mut *fork);
            let name = "contract-".to_owned().concat(self.pub_key.to_short_hex().as_str());
            schema.create_wallet(&self.pub_key, name.as_str(), &tx_hash);
        }
        Ok(())
    }
}

impl CallContract {
    /// Runs the entry point in the sandbox. On success the contract is
    /// stored with the state that the script left, beside the transfers that
    /// the script made; on failure nothing of the run is kept.
    ///
    /// A record that is stored at the address but names another key counts
    /// as absent. A list of more than [`MAX_ARGUMENTS`] arguments fails the
    /// execution before anything runs. The call returns when the script
    /// does: nothing meters a script.
    pub fn execute(&self, context: TransactionContext) -> (r: ExecutionResult)
        ensures
            call_contract_effect(
                old(context.fork)@,
                final(context.fork)@,
                self.pub_key@,
                context.tx_hash@,
                outcome(r),
            ),
            invocable(old(context.fork)@, self.pub_key@) && self.args@.len() > MAX_ARGUMENTS
                ==> outcome(r) == Err::<(), ExecutionErrorView>(
                ExecutionErrorView {
                    code: Error::ContractExecutionError.code_value(),
                    description: Some(TOO_MANY_ARGUMENTS@),
                },
            ),
    {
        let TransactionContext { fork, tx_hash, author } = context;
        let contract = {
            let schema = LvmSchema::new(&*fork);
            match schema.contract(&self.pub_key) {
                Some(contract) => contract,
                None => {
                    return Err(ExecutionError::from(Error::ContractNotExists));
                },
            }
        };
        if !(contract.pub_key == self.pub_key) {
            return Err(ExecutionError::from(Error::ContractNotExists));
        }
        let contract_wallet = {
            let schema = CurrencySchema::new(&*fork);
            match schema.wallet(&self.pub_key) {
                Some(wallet) => wallet,
                None => {
                    return Err(ExecutionError::from(Error::ContractNotExists));
                },
            }
        };
        if !(contract_wallet.pub_key == self.pub_key) {
            return Err(ExecutionError::from(Error::ContractNotExists));
        }
        let saved = fork.snapshot();
        let ghost before = fork@;
        let ghost start = Bound {
            binding: Binding { account: contract_wallet.pub_key@, tx_hash: tx_hash@, failure: None },
            fork: before,
        };
        let runner = Runner {
            contract,
            contract_wallet,
            context: TransactionContext { fork: &mut *fork, tx_hash, author },
        };
        let args = self.args.clone();
        let result = runner.exec(self.fn_name.as_str(), args);
        proof {
            if result is Ok {
                let calls = choose|calls: Seq<TransferCall>|
                    {
                        let end = #[trigger] after_transfers(start, calls);
                        &&& fork@ == end.fork
                        &&& end.binding.failure is None
                    };
                lemma_transfers_keep_contracts(start, calls);
            }
        }
        let r = self.settle(fork, saved, result);
        proof {
            if r is Ok {
                assert(fork@.contracts =~= before.contracts.insert(
                    self.pub_key@,
                    fork@.contracts[self.pub_key@],
                ));
            }
        }
        r
    }

    /// Ends an invocation, from what the runner returned: stores the updated
    /// contract, or goes back to the ledger as it was saved before the run
    /// and records the failure with the runner's description.
    pub fn settle(&self, fork: &mut Fork, saved: Fork, result: Result<Contract, String>) -> (r:
        ExecutionResult)
        ensures
            match result {
                Ok(contract) => r is Ok && final(fork)@ == (ForkView {
                    contracts: old(fork)@.contracts.insert(self.pub_key@, contract@),
                    wallets: old(fork)@.wallets,
                }),
                Err(description) => outcome(r) == Err::<(), ExecutionErrorView>(
                    ExecutionErrorView {
                        code: Error::ContractExecutionError.code_value(),
                        description: Some(description@),
                    },
                ) && final(fork)@ == saved@,
            },
    {
        match result {
            Ok(contract) => {
                let mut schema = LvmSchema::new(&mut *fork);
                schema.contracts_mut().put(&self.pub_key, contract);
                Ok(())
            },
            Err(description) => {
                *fork = saved;
                Err(ExecutionError::with_description(Error::ContractExecutionError.code(), description))
            },
        }
    }
}

impl LvmTransactions {
    /// Executes the transaction.
    pub fn execute(&self, context: TransactionContext) -> (r: ExecutionResult)
        ensures
            match self {
                LvmTransactions::CreateContract(tx) => outcome(r) == create_contract_outcome(
                    old(context.fork)@,
                    tx.pub_key@,
                ) && final(context.fork)@ == create_contract_fork(
                    old(context.fork)@,
                    tx.pub_key@,
                    tx.code@,
                    context.tx_hash@,
                ),
                LvmTransactions::CallContract(tx) => call_contract_effect(
                    old(context.fork)@,
                    final(context.fork)@,
                    tx.pub_key@,
                    context.tx_hash@,
                    outcome(r),
                ) && (invocable(old(context.fork)@, tx.pub_key@) && tx.args@.len() > MAX_ARGUMENTS
                    ==> outcome(r) == Err::<(), ExecutionErrorView>(
                    ExecutionErrorView {
                        code: Error::ContractExecutionError.code_value(),
                        description: Some(TOO_MANY_ARGUMENTS@),
                    },
                )),
            },
    {
        match self {
            LvmTransactions::CreateContract(tx) => tx.execute(context),
            LvmTransactions::CallContract(tx) => tx.execute(context),
        }
    }
}

} // verus!
