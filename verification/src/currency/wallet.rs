//! Accounts of the currency ledger.

use vstd::prelude::*;

use crate::crypto::{self, PublicKey};
use crate::storage::Record;

verus! {

/// An account: its owner's key, a name, a balance, and the transactions
/// that changed it, oldest first.
#[derive(Debug)]
pub struct Wallet {
    pub pub_key: PublicKey,
    pub name: String,
    pub balance: u64,
    pub history: Vec<crypto::Hash>,
}

/// An account as pure values.
pub struct WalletView {
    pub pub_key: Seq<u8>,
    pub name: Seq<char>,
    pub balance: u64,
    pub history: Seq<Seq<u8>>,
}

/// The hashes of a list as byte strings.
pub open spec fn hashes(history: Seq<crypto::Hash>) -> Seq<Seq<u8>> {
    history.map_values(|h: crypto::Hash| h@)
}

impl View for Wallet {
    type V = WalletView;

    open spec fn view(&self) -> WalletView {
        WalletView {
            pub_key: self.pub_key@,
            name: self.name@,
            balance: self.balance,
            history: hashes(self.history@),
        }
    }
}

impl WalletView {
    /// The account after a change of balance made by a transaction.
    pub open spec fn with_balance(self, balance: u64, transaction: Seq<u8>) -> WalletView {
        WalletView { balance, history: self.history.push(transaction), ..self }
    }
}

impl Wallet {
    /// A new account with an empty history.
    pub fn new(pub_key: &PublicKey, name: &str, balance: u64) -> (wallet: Wallet)
        ensures
            wallet@ == (WalletView {
                pub_key: pub_key@,
                name: name@,
                balance,
                history: Seq::<Seq<u8>>::empty(),
            }),
    {
        let wallet = Wallet {
            pub_key: *pub_key,
            name: name.to_owned(),
            balance,
            history: Vec::new(),
        };
        assert(wallet@.history =~= Seq::<Seq<u8>>::empty());
        wallet
    }

    /// The account with a new balance, and the transaction that set it
    /// appended to its history.
    pub fn set_balance(self, balance: u64, transaction: &crypto::Hash) -> (wallet: Wallet)
        ensures
            wallet@ == self@.with_balance(balance, transaction@),
    {
        let Wallet { pub_key, name, balance: _, history } = self;
        let mut history = history;
        history.push(*transaction);
        let wallet = Wallet { pub_key, name, balance, history };
        assert(wallet@.history =~= self@.history.push(transaction@));
        wallet
    }
}

impl Record for Wallet {
    fn duplicate(&self) -> (copy: Wallet) {
        let mut history: Vec<crypto::Hash> = Vec::new();
        let mut i: usize = 0;
        while i < self.history.len()
            invariant
                i <= self.history@.len(),
                history@ == self.history@.subrange(0, i as int),
            decreases self.history@.len() - i,
        {
            history.push(self.history[i]);
            assert(history@ =~= self.history@.subrange(0, i + 1));
            i += 1;
        }
        assert(history@ =~= self.history@);
        Wallet { pub_key: self.pub_key, name: self.name.clone(), balance: self.balance, history }
    }
}

impl Clone for Wallet {
    fn clone(&self) -> (copy: Wallet)
        ensures
            copy@ == self@,
    {
        self.duplicate()
    }
}

} // verus!
