//! What holds of the contract service on every ledger, stated over the
//! same functions as the contracts of the transactions and of the bridge.

use vstd::prelude::*;

use crate::blockchain::ExecutionErrorView;
use crate::crypto::hex_decoded;
use crate::currency::schema::{credited, debited};
use crate::currency::wallet::WalletView;
use crate::lvm::contract::ContractView;
use crate::lvm::runner::context_wrap::{
    account_at, after_transfer, after_transfers, lemma_transfers_keep_contracts,
    transfer_failure, transfer_wallets, Binding, Bound, TransferCall,
};
use crate::lvm::transactions::{
    call_contract_effect, create_contract_fork, create_contract_outcome, invocable, Error,
};
use crate::storage::ForkView;

verus! {

/// Every account is stored under its own key.
pub open spec fn well_keyed(wallets: Map<Seq<u8>, WalletView>) -> bool {
    forall|key: Seq<u8>| wallets.contains_key(key) ==> (#[trigger] wallets[key]).pub_key == key
}

/// Every contract has an account at its address.
pub open spec fn paired(fork: ForkView) -> bool {
    forall|key: Seq<u8>| fork.contracts.contains_key(key) ==> fork.wallets.contains_key(key)
}

/// Creating a contract keeps the ledger sound: every account stays under
/// its own key, and every contract keeps its account.
pub proof fn law_creation_keeps_ledger_sound(
    fork: ForkView,
    pub_key: Seq<u8>,
    code: Seq<char>,
    tx_hash: Seq<u8>,
)
    requires
        well_keyed(fork.wallets),
        paired(fork),
    ensures
        well_keyed(create_contract_fork(fork, pub_key, code, tx_hash).wallets),
        paired(create_contract_fork(fork, pub_key, code, tx_hash)),
{
}

/// Invoking a contract neither makes nor loses a contract or an account,
/// whatever the script does, and it keeps the ledger sound: where every
/// account was under its own key it still is, and where every contract had
/// its account it still has.
pub proof fn law_call_keeps_ledger_sound(
    before: ForkView,
    after: ForkView,
    pub_key: Seq<u8>,
    tx_hash: Seq<u8>,
    r: Result<(), ExecutionErrorView>,
)
    requires
        call_contract_effect(before, after, pub_key, tx_hash, r),
    ensures
        after.wallets.dom() == before.wallets.dom(),
        after.contracts.dom() == before.contracts.dom(),
        well_keyed(before.wallets) ==> well_keyed(after.wallets),
        paired(before) ==> paired(after),
{
    if r is Ok && invocable(before, pub_key) {
        let start = Bound {
            binding: Binding { account: pub_key, tx_hash, failure: None },
            fork: before,
        };
        let calls = choose|calls: Seq<TransferCall>|
            {
                let end = #[trigger] after_transfers(start, calls);
                &&& end.binding.failure is None
                &&& after.wallets == end.fork.wallets
                &&& after.contracts.contains_key(pub_key)
                &&& after.contracts == before.contracts.insert(pub_key, after.contracts[pub_key])
                &&& after.contracts[pub_key].pub_key == pub_key
                &&& after.contracts[pub_key].code == before.contracts[pub_key].code
            };
        law_transfers_keep_accounts(start, calls);
        assert(after.contracts.dom() =~= before.contracts.dom());
    }
}

/// Creating a contract twice at one address fails the second time as
/// `ContractAlreadyExists`, whatever the first creation did, and the second
/// creation leaves the ledger, and so the first contract, as it was.
pub proof fn law_second_creation_fails(
    fork: ForkView,
    pub_key: Seq<u8>,
    first_code: Seq<char>,
    first_hash: Seq<u8>,
    second_code: Seq<char>,
    second_hash: Seq<u8>,
)
    ensures
        ({
            let once = create_contract_fork(fork, pub_key, first_code, first_hash);
            &&& create_contract_outcome(once, pub_key) == Err::<(), ExecutionErrorView>(
                Error::ContractAlreadyExists.recorded(),
            )
            &&& create_contract_fork(once, pub_key, second_code, second_hash) == once
        }),
{
}

/// A contract created with a source reads back with that source and an
/// empty state.
pub proof fn law_created_contract_reads_back(
    fork: ForkView,
    pub_key: Seq<u8>,
    code: Seq<char>,
    tx_hash: Seq<u8>,
)
    requires
        create_contract_outcome(fork, pub_key) is Ok,
    ensures
        create_contract_fork(fork, pub_key, code, tx_hash).contract(pub_key) == Some(
            ContractView { pub_key, code, state: Map::empty() },
        ),
{
}

/// Creating a contract opens its account in the same step, and touches no
/// other contract and no other account.
pub proof fn law_creation_is_paired(
    fork: ForkView,
    pub_key: Seq<u8>,
    code: Seq<char>,
    tx_hash: Seq<u8>,
    other: Seq<u8>,
)
    ensures
        ({
            let after = create_contract_fork(fork, pub_key, code, tx_hash);
            &&& create_contract_outcome(fork, pub_key) is Ok ==> after.contracts.contains_key(pub_key)
                && after.wallets.contains_key(pub_key)
            &&& create_contract_outcome(fork, pub_key) is Err ==> after == fork
            &&& other != pub_key ==> after.contract(other) == fork.contract(other) && after.wallet(
                other,
            ) == fork.wallet(other)
        }),
{
}

/// A query for a contract is answered from the table of contracts alone:
/// asked again of the same contracts, whatever else happened to the ledger,
/// it gives the same answer.
pub proof fn law_reads_agree(first: ForkView, second: ForkView, pub_key: Seq<u8>)
    requires
        first.contracts == second.contracts,
    ensures
        first.contract(pub_key) == second.contract(pub_key),
{
}

/// No call of the capability changes the answer to a query for a contract.
pub proof fn law_transfers_keep_reads(bound: Bound, calls: Seq<TransferCall>, pub_key: Seq<u8>)
    ensures
        after_transfers(bound, calls).fork.contract(pub_key) == bound.fork.contract(pub_key),
{
    lemma_transfers_keep_contracts(bound, calls);
}

/// Invoking an address at which no contract was created fails as
/// `ContractNotExists` and changes nothing.
pub proof fn law_call_without_contract(
    before: ForkView,
    after: ForkView,
    pub_key: Seq<u8>,
    tx_hash: Seq<u8>,
    r: Result<(), ExecutionErrorView>,
)
    requires
        call_contract_effect(before, after, pub_key, tx_hash, r),
        !before.contracts.contains_key(pub_key),
    ensures
        r == Err::<(), ExecutionErrorView>(Error::ContractNotExists.recorded()),
        after == before,
{
}

/// A failed invocation changes nothing: neither a balance nor the state of
/// a contract.
pub proof fn law_failed_call_changes_nothing(
    before: ForkView,
    after: ForkView,
    pub_key: Seq<u8>,
    tx_hash: Seq<u8>,
    r: Result<(), ExecutionErrorView>,
)
    requires
        call_contract_effect(before, after, pub_key, tx_hash, r),
        r is Err,
    ensures
        after == before,
{
}

/// A successful invocation touches no contract but the one invoked, and of
/// that one neither the key nor the source.
pub proof fn law_call_keeps_other_contracts(
    before: ForkView,
    after: ForkView,
    pub_key: Seq<u8>,
    tx_hash: Seq<u8>,
    r: Result<(), ExecutionErrorView>,
    other: Seq<u8>,
)
    requires
        call_contract_effect(before, after, pub_key, tx_hash, r),
        other != pub_key,
    ensures
        after.contract(other) == before.contract(other),
        after.contracts.dom() == before.contracts.dom(),
        before.contracts.contains_key(pub_key) ==> after.contracts[pub_key].code
            == before.contracts[pub_key].code,
{
    if r is Ok && invocable(before, pub_key) {
        assert(after.contracts.dom() =~= before.contracts.dom());
    }
}

/// A transfer that goes through takes the amount from the account of the
/// contract and adds it to the account of the receiver; no other account
/// changes, and none is made or lost. A transfer of a contract to itself
/// leaves its balance as it was.
pub proof fn law_transfer_moves_amount(
    wallets: Map<Seq<u8>, WalletView>,
    account: Seq<u8>,
    tx_hash: Seq<u8>,
    call: TransferCall,
)
    requires
        transfer_failure(wallets, account, tx_hash, call) is None,
    ensures
        ({
            let receiver = hex_decoded(call.receiver);
            let after = transfer_wallets(wallets, account, tx_hash, call);
            &&& after.dom() == wallets.dom()
            &&& account != receiver ==> after[account].balance == wallets[account].balance
                - call.amount && after[receiver].balance == wallets[receiver].balance + call.amount
            &&& account == receiver ==> after[account].balance == wallets[account].balance
            &&& forall|key: Seq<u8>|
                wallets.contains_key(key) && key != account && key != receiver ==> after[key]
                    == wallets[key]
        }),
{
    let receiver = hex_decoded(call.receiver);
    let paid = debited(wallets, wallets[account], call.amount, tx_hash);
    let after = credited(paid, paid[receiver], call.amount, tx_hash);
    assert(after.dom() =~= wallets.dom());
}

/// Whether it goes through or not, one call of the capability makes no
/// account and loses none, keeps the key and the name of each, and takes
/// balance from no account but that of the contract.
pub proof fn law_transfer_keeps_accounts(bound: Bound, call: TransferCall)
    ensures
        ({
            let before = bound.fork.wallets;
            let after = after_transfer(bound, call).fork.wallets;
            &&& after.dom() == before.dom()
            &&& well_keyed(before) ==> well_keyed(after)
            &&& forall|key: Seq<u8>|
                before.contains_key(key) ==> (#[trigger] after[key]).name == before[key].name
                    && after[key].pub_key == before[key].pub_key
            &&& forall|key: Seq<u8>|
                before.contains_key(key) && key != bound.binding.account ==> (
                #[trigger] after[key]).balance >= before[key].balance
            &&& before.contains_key(bound.binding.account) ==> after[bound.binding.account].balance
                <= before[bound.binding.account].balance
        }),
{
    let wallets = bound.fork.wallets;
    let account = bound.binding.account;
    let tx_hash = bound.binding.tx_hash;
    let receiver = hex_decoded(call.receiver);
    let after = after_transfer(bound, call).fork.wallets;
    if bound.binding.failure is None && account_at(wallets, account) && account_at(
        wallets,
        receiver,
    ) {
        let paid = debited(wallets, wallets[account], call.amount, tx_hash);
        assert(paid.dom() =~= wallets.dom());
        assert(credited(paid, paid[receiver], call.amount, tx_hash).dom() =~= wallets.dom());
    }
    assert(after.dom() =~= wallets.dom());
}

/// A script, whatever it does, makes no account and loses none, keeps the
/// key and the name of each, and takes balance from no account but that of
/// the contract: the capability only moves balance out of that one.
pub proof fn law_transfers_keep_accounts(bound: Bound, calls: Seq<TransferCall>)
    ensures
        ({
            let before = bound.fork.wallets;
            let after = after_transfers(bound, calls).fork.wallets;
            &&& after.dom() == before.dom()
            &&& well_keyed(before) ==> well_keyed(after)
            &&& forall|key: Seq<u8>|
                before.contains_key(key) ==> (#[trigger] after[key]).name == before[key].name
                    && after[key].pub_key == before[key].pub_key
            &&& forall|key: Seq<u8>|
                before.contains_key(key) && key != bound.binding.account ==> (
                #[trigger] after[key]).balance >= before[key].balance
            &&& before.contains_key(bound.binding.account) ==> after[bound.binding.account].balance
                <= before[bound.binding.account].balance
        }),
    decreases calls.len(),
{
    if calls.len() > 0 {
        let front = after_transfers(bound, calls.drop_last());
        law_transfers_keep_accounts(bound, calls.drop_last());
        lemma_transfers_keep_contracts(bound, calls.drop_last());
        law_transfer_keeps_accounts(front, calls.last());
    }
}

/// Once a call of the capability has failed, the failure stays, with its
/// words, and no later call changes the ledger.
pub proof fn law_failure_is_latched(bound: Bound, calls: Seq<TransferCall>)
    requires
        bound.binding.failure is Some,
    ensures
        after_transfers(bound, calls) == bound,
    decreases calls.len(),
{
    if calls.len() > 0 {
        law_failure_is_latched(bound, calls.drop_last());
    }
}

} // verus!
