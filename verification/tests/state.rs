//! Contract state, tables and accounts.

use exonum_lvm::crypto::{self, PublicKey};
use exonum_lvm::currency::schema::{LedgerError, Schema as CurrencySchema};
use exonum_lvm::currency::service::{
    Service as CurrencyService, ServiceFactory as CurrencyServiceFactory,
    CRYPTOCURRENCY_SERVICE_ID, INITIAL_BALANCE,
};
use exonum_lvm::currency::wallet::Wallet;
use exonum_lvm::lvm::contract::Contract;
use exonum_lvm::lvm::schema::Schema;
use exonum_lvm::lvm::service::{Service, ServiceFactory, LVM_SERVICE_ID, SERVICE_NAME};
use exonum_lvm::lvm::state::State;
use exonum_lvm::storage::{Fork, MapIndex, Record};

fn text(s: &str) -> String {
    s.to_string()
}

#[test]
fn state_insert_and_get() {
    let mut state = State::new();
    assert!(state.is_empty());
    assert_eq!(state.len(), 0);
    assert_eq!(state.get("a"), None);
    assert!(!state.contains_key("a"));

    state.insert(text("a"), text("1"));
    state.insert(text("b"), text("2"));
    assert_eq!(state.len(), 2);
    assert!(!state.is_empty());
    assert_eq!(state.get("a"), Some(&text("1")));
    assert_eq!(state.get("b"), Some(&text("2")));
    assert_eq!(state.get("c"), None);
    assert!(state.contains_key("b"));

    state.insert(text("a"), text("3"));
    assert_eq!(state.len(), 2);
    assert_eq!(state.get("a"), Some(&text("3")));
    assert_eq!(state.get("b"), Some(&text("2")));
}

#[test]
fn state_equality_ignores_order() {
    let mut first = State::new();
    first.insert(text("a"), text("1"));
    first.insert(text("b"), text("2"));
    let mut second = State::new();
    second.insert(text("b"), text("2"));
    second.insert(text("a"), text("1"));
    assert_eq!(first, second);
    assert_eq!(first.clone(), first);

    second.insert(text("a"), text("9"));
    assert_ne!(first, second);
    second.insert(text("a"), text("1"));
    second.insert(text("c"), text("3"));
    assert_ne!(first, second);
    assert_ne!(second, first);
    assert_ne!(first, State::new());
}

#[test]
fn state_from_pairs_lets_the_later_entry_count() {
    let pairs = vec![
        (text("a"), text("1")),
        (text("b"), text("2")),
        (text("a"), text("3")),
    ];
    let state = State::from_pairs(&pairs);
    assert_eq!(state.len(), 2);
    assert_eq!(state.get("a"), Some(&text("3")));
    assert_eq!(state.get("b"), Some(&text("2")));

    let mut back = state.to_pairs();
    back.sort();
    assert_eq!(back, vec![(text("a"), text("3")), (text("b"), text("2"))]);
    assert_eq!(State::from_pairs(&Vec::new()), State::new());
}

#[test]
fn contract_new() {
    let key = PublicKey::new([4; 32]);
    let contract = Contract::new(&key, "some code");
    assert_eq!(contract.pub_key, key);
    assert_eq!(contract.code, "some code");
    assert!(contract.state.is_empty());

    let mut changed = contract.clone();
    changed.state.insert(text("k"), text("v"));
    assert!(contract.state.is_empty());
    let copy = changed.duplicate();
    assert_eq!(copy.state, changed.state);
    assert_eq!(copy.code, "some code");
}

#[test]
fn table_get_and_put() {
    let mut table: MapIndex<Contract> = MapIndex::new();
    let first = PublicKey::new([1; 32]);
    let second = PublicKey::new([2; 32]);
    assert_eq!(table.len(), 0);
    assert!(table.get(&first).is_none());
    assert!(!table.contains(&first));

    table.put(&first, Contract::new(&first, "one"));
    table.put(&second, Contract::new(&second, "two"));
    assert_eq!(table.len(), 2);
    assert_eq!(table.get(&first).unwrap().code, "one");
    assert_eq!(table.get(&second).unwrap().code, "two");
    assert!(table.contains(&second));

    table.put(&first, Contract::new(&first, "three"));
    assert_eq!(table.len(), 2);
    assert_eq!(table.get(&first).unwrap().code, "three");
    assert_eq!(table.get(&second).unwrap().code, "two");

    let copy = table.snapshot();
    table.put(&second, Contract::new(&second, "four"));
    assert_eq!(copy.get(&second).unwrap().code, "two");
    assert_eq!(copy.len(), 2);
}

#[test]
fn contract_schema() {
    let mut fork = Fork::new();
    let key = PublicKey::new([1; 32]);
    {
        let schema = Schema::new(&fork);
        assert!(schema.contract(&key).is_none());
        assert_eq!(schema.contracts().len(), 0);
    }
    {
        let mut schema = Schema::new(&mut fork);
        schema.create_contract(&key, "code");
        assert_eq!(schema.contract(&key).unwrap().code, "code");
        let mut updated = Contract::new(&key, "code");
        updated.state.insert(text("k"), text("v"));
        schema.contracts_mut().put(&key, updated);
        assert_eq!(schema.contracts().len(), 1);
    }
    let schema = Schema::new(&fork);
    let contract = schema.contract(&key).unwrap();
    assert_eq!(contract.pub_key, key);
    assert_eq!(contract.state.get("k"), Some(&text("v")));
    assert!(schema.contract(&PublicKey::zero()).is_none());
}

#[test]
fn test_create_wallet() {
    let mut fork = Fork::new();
    let key = PublicKey::new([1; 32]);
    let tx = crypto::Hash::new([5; 32]);
    {
        let mut schema = CurrencySchema::new(&mut fork);
        schema.create_wallet(&key, "Alice", &tx);
    }
    let wallet = CurrencySchema::new(&fork).wallet(&key).unwrap();
    assert_eq!(wallet.pub_key, key);
    assert_eq!(wallet.name, "Alice");
    assert_eq!(wallet.balance, 100);
    assert_eq!(wallet.history, vec![tx]);
    assert_eq!(INITIAL_BALANCE, 100);
    assert!(CurrencySchema::new(&fork).wallet(&PublicKey::zero()).is_none());
    assert_eq!(CurrencySchema::new(&fork).wallets().len(), 1);
}

#[test]
fn ledger_changes_of_balance() {
    let mut fork = Fork::new();
    let key = PublicKey::new([1; 32]);
    let first = crypto::Hash::new([5; 32]);
    let second = crypto::Hash::new([6; 32]);
    let mut schema = CurrencySchema::new(&mut fork);
    schema.create_wallet(&key, "Alice", &first);

    let wallet = schema.wallet(&key).unwrap();
    assert_eq!(schema.increase_wallet_balance(wallet, 10, &second), Ok(()));
    let wallet = schema.wallet(&key).unwrap();
    assert_eq!(wallet.balance, 110);
    assert_eq!(wallet.history, vec![first, second]);

    assert_eq!(schema.decrease_wallet_balance(wallet, 110, &second), Ok(()));
    let wallet = schema.wallet(&key).unwrap();
    assert_eq!(wallet.balance, 0);
    assert_eq!(wallet.history, vec![first, second, second]);

    assert_eq!(
        schema.decrease_wallet_balance(wallet.clone(), 1, &second),
        Err(LedgerError::InsufficientCurrencyAmount)
    );
    assert_eq!(schema.increase_wallet_balance(wallet.clone(), u64::MAX, &second), Ok(()));
    let wallet = schema.wallet(&key).unwrap();
    assert_eq!(wallet.balance, u64::MAX);
    assert_eq!(
        schema.increase_wallet_balance(wallet, 1, &second),
        Err(LedgerError::BalanceOverflow)
    );
    let wallet = schema.wallet(&key).unwrap();
    assert_eq!(wallet.balance, u64::MAX);
    assert_eq!(wallet.history.len(), 4);
    assert_eq!(LedgerError::InsufficientCurrencyAmount.description(), "Insufficient currency amount");
    assert_eq!(LedgerError::BalanceOverflow.description(), "Balance overflow");
}

#[test]
fn wallet_set_balance() {
    let key = PublicKey::new([1; 32]);
    let wallet = Wallet::new(&key, "Bob", 7);
    assert_eq!(wallet.balance, 7);
    assert!(wallet.history.is_empty());
    let tx = crypto::Hash::new([3; 32]);
    let wallet = wallet.set_balance(9, &tx);
    assert_eq!(wallet.balance, 9);
    assert_eq!(wallet.name, "Bob");
    assert_eq!(wallet.pub_key, key);
    assert_eq!(wallet.history, vec![tx]);
    let copy = wallet.duplicate();
    assert_eq!(copy.balance, 9);
    assert_eq!(copy.history, vec![tx]);
}

#[test]
fn fork_snapshot_is_independent() {
    let mut fork = Fork::new();
    let key = PublicKey::new([1; 32]);
    {
        let mut schema = Schema::new(&mut fork);
        schema.create_contract(&key, "code");
    }
    let saved = fork.snapshot();
    {
        let mut schema = Schema::new(&mut fork);
        schema.create_contract(&PublicKey::new([2; 32]), "more");
    }
    assert_eq!(saved.contracts.len(), 1);
    assert_eq!(fork.contracts.len(), 2);
}

#[test]
fn services() {
    assert_eq!(Service.service_id(), 129);
    assert_eq!(Service.service_id(), LVM_SERVICE_ID);
    assert_eq!(Service.service_name(), "lvm");
    assert_eq!(SERVICE_NAME, "lvm");
    assert_eq!(ServiceFactory.service_name(), "lvm");
    assert_eq!(ServiceFactory.make_service().service_id(), 129);
    assert_eq!(CurrencyService.service_id(), 128);
    assert_eq!(CRYPTOCURRENCY_SERVICE_ID, 128);
    assert_eq!(CurrencyService.service_name(), "cryptocurrency");
    assert_eq!(CurrencyServiceFactory.service_name(), "cryptocurrency");
    assert_eq!(CurrencyServiceFactory.make_service().service_id(), 128);
}

#[test]
fn table_keys() {
    let mut table: MapIndex<Wallet> = MapIndex::new();
    assert!(table.keys().is_empty());
    let first = PublicKey::new([1; 32]);
    let second = PublicKey::new([2; 32]);
    table.put(&first, Wallet::new(&first, "one", 1));
    table.put(&second, Wallet::new(&second, "two", 2));
    table.put(&first, Wallet::new(&first, "three", 3));
    let keys = table.keys();
    assert_eq!(keys.len(), 2);
    assert!(keys.contains(&first));
    assert!(keys.contains(&second));
}

#[test]
fn transaction_context() {
    let mut fork = Fork::new();
    let tx = crypto::Hash::new([8; 32]);
    let author = PublicKey::new([9; 32]);
    let mut context = exonum_lvm::blockchain::TransactionContext::new(&mut fork, tx, author);
    assert_eq!(context.tx_hash(), tx);
    assert_eq!(context.author(), author);
    let key = PublicKey::new([1; 32]);
    context.fork().contracts.put(&key, Contract::new(&key, "code"));
    assert_eq!(context.fork.contracts.len(), 1);
    assert_eq!(fork.contracts.get(&key).unwrap().code, "code");
}
