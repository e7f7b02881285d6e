//! The host capability bridge: the one channel through which a running
//! script can change the ledger.
//!
//! A binding is made for one invocation. It names the account of the contract
//! that runs and the transaction that runs it, and it latches the first
//! failure of a capability call. The fork is lent to the interpreter together
//! with the binding, for the time of the invocation and no longer.

use vstd::prelude::*;

use crate::crypto::{self, hex_decode, hex_decoded, is_hex_text, PublicKey, PUBLIC_KEY_LENGTH};
use crate::currency::schema::{credited, debited, LedgerError, Schema as CurrencySchema};
use crate::currency::wallet::{Wallet, WalletView};
use crate::lvm::runner::lua_api::{
    guard_transfer, scope_create_transfer, table_raw_set, TRANSFER_GUARD,
};
use crate::storage::{Fork, ForkView};

verus! {

/// Why a transfer requested by a script failed.
#[derive(Debug, Clone, Copy, PartialEq, Eq, Structural)]
pub enum TransferError {
    /// The address of the receiver is not hexadecimal text.
    ReceiverNotHex,
    /// The address of the receiver does not have the length of a public key.
    ReceiverWrongLength,
    /// No account is held at the address of the receiver.
    ReceiverNotFound,
    /// No account is held at the address of the contract.
    SenderNotFound,
    /// The ledger refused the debit or the credit.
    Rejected(LedgerError),
}

impl TransferError {
    /// Text of the failure, in contracts.
    pub open spec fn description_text(&self) -> Seq<char> {
        match self {
            TransferError::ReceiverNotHex => "Receiver address is not hexadecimal"@,
            TransferError::ReceiverWrongLength => "Receiver address has a wrong length"@,
            TransferError::ReceiverNotFound => "Receiver doesn't exist"@,
            TransferError::SenderNotFound => "Sender doesn't exist"@,
            TransferError::Rejected(error) => error.description_text(),
        }
    }

    /// Text of the failure.
    pub fn description(&self) -> (text: String)
        ensures
            text@ == self.description_text(),
    {
        match self {
            TransferError::ReceiverNotHex => "Receiver address is not hexadecimal".to_owned(),
            TransferError::ReceiverWrongLength => "Receiver address has a wrong length".to_owned(),
            TransferError::ReceiverNotFound => "Receiver doesn't exist".to_owned(),
            TransferError::SenderNotFound => "Sender doesn't exist".to_owned(),
            TransferError::Rejected(error) => error.description(),
        }
    }
}

/// A binding as pure values.
pub struct Binding {
    pub account: Seq<u8>,
    pub tx_hash: Seq<u8>,
    pub failure: Option<Seq<char>>,
}

/// A binding together with the fork that it works on.
pub struct Bound {
    pub binding: Binding,
    pub fork: ForkView,
}

/// One call of the capability by a script.
pub struct TransferCall {
    pub receiver: Seq<char>,
    pub amount: u64,
}

/// An account is held at a key when a record is stored under the key and
/// the record names that key as its own. A record that names another key is
/// no account of either.
pub open spec fn account_at(wallets: Map<Seq<u8>, WalletView>, key: Seq<u8>) -> bool {
    wallets.contains_key(key) && wallets[key].pub_key == key
}

/// Why a transfer from the account to the receiver fails on the given
/// accounts; `None` where it goes through.
pub open spec fn transfer_failure(
    wallets: Map<Seq<u8>, WalletView>,
    account: Seq<u8>,
    tx_hash: Seq<u8>,
    call: TransferCall,
) -> Option<TransferError> {
    let receiver = hex_decoded(call.receiver);
    if !is_hex_text(call.receiver) {
        Some(TransferError::ReceiverNotHex)
    } else if receiver.len() != PUBLIC_KEY_LENGTH {
        Some(TransferError::ReceiverWrongLength)
    } else if !account_at(wallets, receiver) {
        Some(TransferError::ReceiverNotFound)
    } else if !account_at(wallets, account) {
        Some(TransferError::SenderNotFound)
    } else if wallets[account].balance < call.amount {
        Some(TransferError::Rejected(LedgerError::InsufficientCurrencyAmount))
    } else if debited(wallets, wallets[account], call.amount, tx_hash)[receiver].balance
        + call.amount > u64::MAX {
        Some(TransferError::Rejected(LedgerError::BalanceOverflow))
    } else {
        None
    }
}

/// The accounts after a transfer was attempted. A transfer that goes through
/// debits the account of the contract and then credits the receiver; one that
/// the ledger refuses at the credit leaves the debit behind; any other
/// failure leaves the accounts as they were.
pub open spec fn transfer_wallets(
    wallets: Map<Seq<u8>, WalletView>,
    account: Seq<u8>,
    tx_hash: Seq<u8>,
    call: TransferCall,
) -> Map<Seq<u8>, WalletView> {
    let receiver = hex_decoded(call.receiver);
    let paid = debited(wallets, wallets[account], call.amount, tx_hash);
    match transfer_failure(wallets, account, tx_hash, call) {
        None => credited(paid, paid[receiver], call.amount, tx_hash),
        Some(TransferError::Rejected(LedgerError::BalanceOverflow)) => paid,
        Some(_) => wallets,
    }
}

/// The binding and the fork after one call of the capability. Once a call
/// has failed, the binding refuses every later call and changes nothing.
pub open spec fn after_transfer(bound: Bound, call: TransferCall) -> Bound {
    if bound.binding.failure is Some {
        bound
    } else {
        let account = bound.binding.account;
        let tx_hash = bound.binding.tx_hash;
        let failure = transfer_failure(bound.fork.wallets, account, tx_hash, call);
        Bound {
            binding: Binding {
                failure: match failure {
                    Some(error) => Some(error.description_text()),
                    None => None,
                },
                ..bound.binding
            },
            fork: ForkView {
                wallets: transfer_wallets(bound.fork.wallets, account, tx_hash, call),
                ..bound.fork
            },
        }
    }
}

/// The binding and the fork after a series of calls of the capability.
pub open spec fn after_transfers(bound: Bound, calls: Seq<TransferCall>) -> Bound
    decreases calls.len(),
{
    if calls.len() == 0 {
        bound
    } else {
        after_transfer(after_transfers(bound, calls.drop_last()), calls.last())
    }
}

/// Some series of calls of the capability leads from one state to the other.
pub open spec fn reachable(from: Bound, to: Bound) -> bool {
    exists|calls: Seq<TransferCall>| to == #[trigger] after_transfers(from, calls)
}

/// A state is reached from itself, by no call at all.
pub proof fn lemma_reachable_at_once(bound: Bound)
    ensures
        reachable(bound, bound),
{
    assert(after_transfers(bound, Seq::<TransferCall>::empty()) == bound);
}

/// Calls of the capability touch no contract, and they never change the
/// account or the transaction that the binding names.
pub proof fn lemma_transfers_keep_contracts(bound: Bound, calls: Seq<TransferCall>)
    ensures
        after_transfers(bound, calls).fork.contracts == bound.fork.contracts,
        after_transfers(bound, calls).binding.account == bound.binding.account,
        after_transfers(bound, calls).binding.tx_hash == bound.binding.tx_hash,
    decreases calls.len(),
{
    if calls.len() > 0 {
        lemma_transfers_keep_contracts(bound, calls.drop_last());
    }
}

/// The binding of one invocation.
#[derive(Debug)]
pub struct RunnerCtxWrap {
    account: PublicKey,
    tx_hash: crypto::Hash,
    failure: Option<String>,
}

impl View for RunnerCtxWrap {
    type V = Binding;

    closed spec fn view(&self) -> Binding {
        Binding {
            account: self.account@,
            tx_hash: self.tx_hash@,
            failure: match self.failure {
                Some(text) => Some(text@),
                None => None,
            },
        }
    }
}

impl RunnerCtxWrap {
    /// Binds the capability to the account of the running contract and to
    /// the transaction that runs it.
    pub fn init(contract_wallet: &Wallet, tx_hash: &crypto::Hash) -> (wrap: RunnerCtxWrap)
        ensures
            wrap@ == (Binding {
                account: contract_wallet.pub_key@,
                tx_hash: tx_hash@,
                failure: None,
            }),
    {
        RunnerCtxWrap { account: contract_wallet.pub_key, tx_hash: *tx_hash, failure: None }
    }

    /// Ends the binding and hands out the failure that it latched, if any.
    pub fn reset(self) -> (failure: Option<String>)
        ensures
            match failure {
                Some(text) => self@.failure == Some(text@),
                None => self@.failure is None,
            },
    {
        self.failure
    }

    /// Makes the capability known to the interpreter: binds the name
    /// `transfer` in its globals to a function of two parameters that calls
    /// [`RunnerCtxWrap::transfer`] on this binding and this fork.
    pub fn register_functions<'lua, 'scope>(
        ctx: rlua::Context<'lua>,
        scope: &rlua::Scope<'lua, 'scope>,
        globals: &rlua::Table<'lua>,
        wrap: &'scope mut RunnerCtxWrap,
        fork: &'scope mut Fork,
    ) -> (r: Result<(), rlua::prelude::LuaError>)
        ensures
            reachable(
                Bound { binding: old(wrap)@, fork: old(fork)@ },
                Bound { binding: final(wrap)@, fork: final(fork)@ },
            ),
    {
        let raw = scope_create_transfer(scope, wrap, fork)?;
        let transfer_fn = guard_transfer(ctx, TRANSFER_GUARD, raw)?;
        table_raw_set(globals, "transfer", transfer_fn)?;
        Ok(())
    }

    fn fail(&mut self, error: TransferError) -> (r: Result<(), String>)
        ensures
            final(self)@ == (Binding { failure: Some(error.description_text()), ..old(self)@ }),
            r is Err,
            r->Err_0@ == error.description_text(),
    {
        self.failure = Some(error.description());
        Err(error.description())
    }

    /// Moves an amount from the account of the running contract to the
    /// account at the given hexadecimal address, in the given fork. Both
    /// must be held at their keys: the debit and the credit write where the
    /// records say, and that is where they were looked up.
    pub fn transfer(&mut self, fork: &mut Fork, receiver: &String, amount: u64) -> (r: Result<
        (),
        String,
    >)
        ensures
            (Bound { binding: final(self)@, fork: final(fork)@ }) == after_transfer(
                Bound { binding: old(self)@, fork: old(fork)@ },
                TransferCall { receiver: receiver@, amount },
            ),
            match r {
                Ok(_) => final(self)@.failure is None,
                Err(text) => final(self)@.failure == Some(text@),
            },
    {
        if let Some(text) = &self.failure {
            return Err(text.clone());
        }
        let bytes = match hex_decode(receiver.as_str()) {
            Ok(bytes) => bytes,
            Err(_) => {
                return self.fail(TransferError::ReceiverNotHex);
            },
        };
        let receiver_key = match PublicKey::from_slice(bytes.as_slice()) {
            Some(key) => key,
            None => {
                return self.fail(TransferError::ReceiverWrongLength);
            },
        };
        let mut schema = CurrencySchema::new(&mut *fork);
        let receiver_held = match schema.wallet(&receiver_key) {
            Some(wallet) => wallet.pub_key == receiver_key,
            None => false,
        };
        if !receiver_held {
            return self.fail(TransferError::ReceiverNotFound);
        }
        let sender = match schema.wallet(&self.account) {
            Some(wallet) => wallet,
            None => {
                return self.fail(TransferError::SenderNotFound);
            },
        };
        if !(sender.pub_key == self.account) {
            return self.fail(TransferError::SenderNotFound);
        }
        match schema.decrease_wallet_balance(sender, amount, &self.tx_hash) {
            Ok(()) => {},
            Err(error) => {
                return self.fail(TransferError::Rejected(error));
            },
        }
        // A debit removes no account: the receiver is still there.
        assert(account_at(schema.view@.wallets, receiver_key@));
        let receiver_wallet = match schema.wallet(&receiver_key) {
            Some(wallet) => wallet,
            None => {
                return self.fail(TransferError::ReceiverNotFound);
            },
        };
        match schema.increase_wallet_balance(receiver_wallet, amount, &self.tx_hash) {
            Ok(()) => Ok(()),
            Err(error) => self.fail(TransferError::Rejected(error)),
        }
    }
}

} // verus!
