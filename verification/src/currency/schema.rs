//! The table of accounts in a view of the ledger, and the changes of balance
//! that the ledger accepts.

use vstd::prelude::*;

use crate::crypto::{self, PublicKey};
use crate::currency::service::INITIAL_BALANCE;
use crate::currency::wallet::{Wallet, WalletView};
use crate::storage::{Fork, MapIndex, Snapshot};

verus! {

/// Why the ledger refused a change of balance.
#[derive(Debug, Clone, Copy, PartialEq, Eq, Structural)]
pub enum LedgerError {
    /// The account holds less than the amount to take from it.
    InsufficientCurrencyAmount,
    /// The account cannot hold the amount to add to it.
    BalanceOverflow,
}

impl LedgerError {
    /// Text of the refusal.
    pub fn description(&self) -> (text: String)
        ensures
            text@ == self.description_text(),
    {
        match self {
            LedgerError::InsufficientCurrencyAmount => "Insufficient currency amount".to_owned(),
            LedgerError::BalanceOverflow => "Balance overflow".to_owned(),
        }
    }

    /// Text of the refusal, in contracts.
    pub open spec fn description_text(&self) -> Seq<char> {
        match self {
            LedgerError::InsufficientCurrencyAmount => "Insufficient currency amount"@,
            LedgerError::BalanceOverflow => "Balance overflow"@,
        }
    }
}

/// The account that `create_wallet` stores.
pub open spec fn opened(pub_key: Seq<u8>, name: Seq<char>, transaction: Seq<u8>) -> WalletView {
    WalletView { pub_key, name, balance: INITIAL_BALANCE, history: seq![transaction] }
}

/// The table of accounts after a credit that the ledger accepts.
pub open spec fn credited(
    wallets: Map<Seq<u8>, WalletView>,
    wallet: WalletView,
    amount: u64,
    transaction: Seq<u8>,
) -> Map<Seq<u8>, WalletView> {
    wallets.insert(
        wallet.pub_key,
        wallet.with_balance((wallet.balance + amount) as u64, transaction),
    )
}

/// The table of accounts after a debit that the ledger accepts.
pub open spec fn debited(
    wallets: Map<Seq<u8>, WalletView>,
    wallet: WalletView,
    amount: u64,
    transaction: Seq<u8>,
) -> Map<Seq<u8>, WalletView> {
    wallets.insert(
        wallet.pub_key,
        wallet.with_balance((wallet.balance - amount) as u64, transaction),
    )
}

/// Typed access to the accounts in a view of the ledger.
#[derive(Debug)]
pub struct Schema<T> {
    pub view: T,
}

impl<T: Snapshot> Schema<T> {
    /// Wraps a view of the ledger.
    pub fn new(view: T) -> (schema: Self)
        ensures
            schema.view == view,
    {
        Schema { view }
    }

    /// The table of accounts.
    pub fn wallets(&self) -> (wallets: &MapIndex<Wallet>)
        ensures
            wallets@ == self.view.state().wallets,
    {
        &self.view.fork().wallets
    }

    /// Point lookup of an account; reads only.
    pub fn wallet(&self, pub_key: &PublicKey) -> (r: Option<Wallet>)
        ensures
            match r {
                Some(wallet) => self.view.state().wallet(pub_key@) == Some(wallet@),
                None => self.view.state().wallet(pub_key@) is None,
            },
    {
        match self.wallets().get(pub_key) {
            Some(wallet) => Some(wallet.clone()),
            None => None,
        }
    }
}

impl<'a> Schema<&'a mut Fork> {
    /// Stores a new account with the initial balance under the key, in place
    /// of an account that was there. Its history starts with the transaction.
    pub fn create_wallet(&mut self, key: &PublicKey, name: &str, transaction: &crypto::Hash)
        ensures
            final(self).view@.wallets == old(self).view@.wallets.insert(
                key@,
                opened(key@, name@, transaction@),
            ),
            final(self).view@.contracts == old(self).view@.contracts,
            *final(final(self).view) == *final(old(self).view),
    {
        let wallet = Wallet::new(key, name, INITIAL_BALANCE).set_balance(INITIAL_BALANCE, transaction);
        assert(wallet@.history =~= seq![transaction@]);
        self.view.wallets.put(key, wallet);
    }

    /// Adds the amount to the balance of the given account and stores the
    /// account, with the transaction appended to its history. The ledger
    /// refuses a balance that does not fit, and then changes nothing.
    pub fn increase_wallet_balance(
        &mut self,
        wallet: Wallet,
        amount: u64,
        transaction: &crypto::Hash,
    ) -> (r: Result<(), LedgerError>)
        ensures
            wallet.balance + amount > u64::MAX ==> r == Err::<(), LedgerError>(
                LedgerError::BalanceOverflow,
            ) && final(self).view@ == old(self).view@,
            wallet.balance + amount <= u64::MAX ==> r is Ok && final(self).view@.wallets == credited(
                old(self).view@.wallets,
                wallet@,
                amount,
                transaction@,
            ) && final(self).view@.contracts == old(self).view@.contracts,
            *final(final(self).view) == *final(old(self).view),
    {
        if amount > u64::MAX - wallet.balance {
            return Err(LedgerError::BalanceOverflow);
        }
        let balance = wallet.balance + amount;
        let key = wallet.pub_key;
        let wallet = wallet.set_balance(balance, transaction);
        self.view.wallets.put(&key, wallet);
        Ok(())
    }

    /// Takes the amount from the balance of the given account and stores the
    /// account, with the transaction appended to its history. The ledger
    /// refuses an amount above the balance, and then changes nothing.
    pub fn decrease_wallet_balance(
        &mut self,
        wallet: Wallet,
        amount: u64,
        transaction: &crypto::Hash,
    ) -> (r: Result<(), LedgerError>)
        ensures
            wallet.balance < amount ==> r == Err::<(), LedgerError>(
                LedgerError::InsufficientCurrencyAmount,
            ) && final(self).view@ == old(self).view@,
            wallet.balance >= amount ==> r is Ok && final(self).view@.wallets == debited(
                old(self).view@.wallets,
                wallet@,
                amount,
                transaction@,
            ) && final(self).view@.contracts == old(self).view@.contracts,
            *final(final(self).view) == *final(old(self).view),
    {
        if wallet.balance < amount {
            return Err(LedgerError::InsufficientCurrencyAmount);
        }
        let balance = wallet.balance - amount;
        let key = wallet.pub_key;
        let wallet = wallet.set_balance(balance, transaction);
        self.view.wallets.put(&key, wallet);
        Ok(())
    }
}

} // verus!
