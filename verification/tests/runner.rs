//! The runner and the capability bridge.

use exonum_lvm::blockchain::TransactionContext;
use exonum_lvm::crypto::{self, PublicKey};
use exonum_lvm::currency::schema::{LedgerError, Schema as CurrencySchema};
use exonum_lvm::currency::wallet::Wallet;
use exonum_lvm::lvm::contract::Contract;
use exonum_lvm::lvm::runner::context_wrap::{RunnerCtxWrap, TransferError};
use exonum_lvm::lvm::runner::lua_api::MAX_ARGUMENTS;
use exonum_lvm::lvm::runner::{Failure, FailureKind, Runner, LVM_LUA_SUBSET, TOO_MANY_ARGUMENTS};
use exonum_lvm::lvm::state::State;
use exonum_lvm::storage::Fork;

fn exec(fork: &mut Fork, contract: Contract, fn_name: &str, args: Vec<String>) -> Result<Contract, String> {
    let contract_wallet = Wallet::new(&contract.pub_key, "contract", 100);
    fork.wallets.put(&contract.pub_key, contract_wallet.clone());
    let runner = Runner {
        contract,
        contract_wallet,
        context: TransactionContext::new(fork, crypto::Hash::zero(), PublicKey::zero()),
    };
    runner.exec(fn_name, args)
}

fn state_of(pairs: &[(&str, &str)]) -> State {
    let mut state = State::new();
    for (key, value) in pairs {
        state.insert(key.to_string(), value.to_string());
    }
    state
}

#[test]
fn update_state() {
    let contract = Contract::new(&PublicKey::zero(), r#"
        function set_state_at(key, val)
            state[key] = val
        end
    "#);

    let mut fork = Fork::new();
    let r = exec(&mut fork, contract, "set_state_at", vec!["key".to_string(), "value".to_string()]);
    assert!(r.is_ok());
    assert_eq!(
        r.unwrap().state,
        state_of(&[("key", "value")])
    );
}

#[test]
fn exec_keeps_key_and_source() {
    let code = "function f() state[\"a\"] = 1 end";
    let contract = Contract::new(&PublicKey::new([5; 32]), code);
    let mut fork = Fork::new();
    let updated = exec(&mut fork, contract, "f", vec![]).unwrap();
    assert_eq!(updated.pub_key, PublicKey::new([5; 32]));
    assert_eq!(updated.code, code);
    assert_eq!(updated.state, state_of(&[("a", "1")]));
}

#[test]
fn exec_sees_the_seeded_state() {
    let mut contract = Contract::new(&PublicKey::zero(), r#"
        function copy()
            state["b"] = state["a"]
            state["a"] = nil
        end
    "#);
    contract.state.insert("a".to_string(), "x".to_string());
    contract.state.insert("c".to_string(), "y".to_string());
    let mut fork = Fork::new();
    let updated = exec(&mut fork, contract, "copy", vec![]).unwrap();
    assert_eq!(updated.state, state_of(&[("c", "y"), ("b", "x")]));
}

#[test]
fn exec_passes_arguments_in_order() {
    let contract = Contract::new(&PublicKey::zero(), r#"
        function join(a, b, c)
            state["joined"] = a .. "-" .. b .. "-" .. c
        end
    "#);
    let mut fork = Fork::new();
    let args = vec!["1".to_string(), "2".to_string(), "3".to_string()];
    let updated = exec(&mut fork, contract, "join", args).unwrap();
    assert_eq!(updated.state.get("joined"), Some(&"1-2-3".to_string()));
}

#[test]
fn exec_reports_failures_as_text() {
    let mut fork = Fork::new();
    let broken = Contract::new(&PublicKey::zero(), "function (");
    assert!(exec(&mut fork, broken, "f", vec![]).unwrap_err().starts_with("syntax error"));

    let contract = Contract::new(&PublicKey::zero(), "x = 1");
    assert!(exec(&mut fork, contract, "x", vec![]).is_err());

    let contract = Contract::new(&PublicKey::zero(), "function f() state[\"t\"] = {} end");
    assert!(exec(&mut fork, contract, "f", vec![]).is_err());
}

#[test]
fn the_sandbox_has_no_files_modules_or_console() {
    let names = [
        "io", "os", "require", "package", "dofile", "loadfile", "load", "print", "debug",
        "coroutine", "setmetatable",
    ];
    for name in names.iter() {
        let code = format!("function probe() state[\"found\"] = tostring({} ~= nil) end", name);
        let contract = Contract::new(&PublicKey::zero(), &code);
        let mut fork = Fork::new();
        let updated = exec(&mut fork, contract, "probe", vec![]).unwrap();
        assert_eq!(updated.state.get("found"), Some(&"false".to_string()), "{}", name);
    }
    let present = ["math", "string", "table", "utf8", "transfer", "pairs", "tostring"];
    for name in present.iter() {
        let code = format!("function probe() state[\"found\"] = tostring({} ~= nil) end", name);
        let contract = Contract::new(&PublicKey::zero(), &code);
        let mut fork = Fork::new();
        let updated = exec(&mut fork, contract, "probe", vec![]).unwrap();
        assert_eq!(updated.state.get("found"), Some(&"true".to_string()), "{}", name);
    }
}

#[test]
fn the_library_subset() {
    assert_eq!(LVM_LUA_SUBSET, 0x1 | 0x4 | 0x20 | 0x40 | 0x80);
}

#[test]
fn conclude_prefers_the_latched_failure() {
    let contract = || Contract::new(&PublicKey::zero(), "code");
    let state = state_of(&[("k", "v")]);
    let raised =
        || Failure { kind: FailureKind::MissingEntryPoint, description: "raised".to_string() };

    let r = Runner::conclude(contract(), Ok(state.clone()), None).unwrap();
    assert_eq!(r.code, "code");
    assert_eq!(r.pub_key, PublicKey::zero());
    assert_eq!(r.state, state);

    let r = Runner::conclude(contract(), Ok(state.clone()), Some("latched".to_string()));
    let failure = r.unwrap_err();
    assert_eq!(failure.kind, FailureKind::RuntimeError);
    assert_eq!(failure.description, "latched");

    let failure = Runner::conclude(contract(), Err(raised()), None).unwrap_err();
    assert_eq!(failure.kind, FailureKind::MissingEntryPoint);
    assert_eq!(failure.description, "raised");

    let r = Runner::conclude(contract(), Err(raised()), Some("latched".to_string()));
    let failure = r.unwrap_err();
    assert_eq!(failure.kind, FailureKind::RuntimeError);
    assert_eq!(failure.description, "latched");
}

fn run(fork: &mut Fork, code: &str, fn_name: &str, args: Vec<String>) -> Result<Contract, Failure> {
    let contract = Contract::new(&PublicKey::new([1; 32]), code);
    let contract_wallet = Wallet::new(&contract.pub_key, "contract", 100);
    fork.wallets.put(&contract.pub_key, contract_wallet.clone());
    let runner = Runner {
        contract,
        contract_wallet,
        context: TransactionContext::new(fork, crypto::Hash::zero(), PublicKey::zero()),
    };
    runner.run(fn_name, args)
}

#[test]
fn run_names_the_stage_of_a_failure() {
    let mut fork = Fork::new();

    let failure = run(&mut fork, "function (", "f", vec![]).unwrap_err();
    assert_eq!(failure.kind, FailureKind::LoadError);
    assert!(failure.description.starts_with("syntax error"));

    let failure = run(&mut fork, "error(\"at load\")", "f", vec![]).unwrap_err();
    assert_eq!(failure.kind, FailureKind::LoadError);

    let failure = run(&mut fork, "function f() end", "g", vec![]).unwrap_err();
    assert_eq!(failure.kind, FailureKind::MissingEntryPoint);

    let failure = run(&mut fork, "f = 5", "f", vec![]).unwrap_err();
    assert_eq!(failure.kind, FailureKind::MissingEntryPoint);

    let failure = run(&mut fork, "function f() error(\"bad\") end", "f", vec![]).unwrap_err();
    assert_eq!(failure.kind, FailureKind::RuntimeError);
    assert!(failure.description.contains("bad"));

    let failure = run(&mut fork, "function f() state.t = {} end", "f", vec![]).unwrap_err();
    assert_eq!(failure.kind, FailureKind::RuntimeError);

    let failure = run(&mut fork, "function f() transfer(\"00\", 1) end", "f", vec![]).unwrap_err();
    assert_eq!(failure.kind, FailureKind::RuntimeError);
    assert_eq!(failure.description, "Receiver address has a wrong length");

    let updated = run(&mut fork, "function f(a) state.a = a end", "f", vec!["x".to_string()]).unwrap();
    assert_eq!(updated.state, state_of(&[("a", "x")]));
}

#[test]
fn a_transfer_at_load_time_counts() {
    let (mut fork, _, receiver) = ledger();
    let code = format!("transfer(\"{}\", 10)\nfunction f() end", receiver.to_hex());
    let updated = run(&mut fork, &code, "f", vec![]).unwrap();
    assert!(updated.state.is_empty());
    assert_eq!(balance(&fork, &receiver), 110);
    assert_eq!(balance(&fork, &PublicKey::new([1; 32])), 90);
}

fn ledger() -> (Fork, PublicKey, PublicKey) {
    let mut fork = Fork::new();
    let sender = PublicKey::new([1; 32]);
    let receiver = PublicKey::new([2; 32]);
    {
        let mut schema = CurrencySchema::new(&mut fork);
        schema.create_wallet(&sender, "sender", &crypto::Hash::new([1; 32]));
        schema.create_wallet(&receiver, "receiver", &crypto::Hash::new([2; 32]));
    }
    (fork, sender, receiver)
}

fn balance(fork: &Fork, key: &PublicKey) -> u64 {
    CurrencySchema::new(fork).wallet(key).unwrap().balance
}

#[test]
fn bridge_transfer_debits_and_credits() {
    let (mut fork, sender, receiver) = ledger();
    let wallet = CurrencySchema::new(&fork).wallet(&sender).unwrap();
    let tx = crypto::Hash::new([9; 32]);
    let mut wrap = RunnerCtxWrap::init(&wallet, &tx);

    assert_eq!(wrap.transfer(&mut fork, &receiver.to_hex(), 30), Ok(()));
    assert_eq!(balance(&fork, &sender), 70);
    assert_eq!(balance(&fork, &receiver), 130);
    assert_eq!(wrap.transfer(&mut fork, &receiver.to_hex().to_uppercase(), 70), Ok(()));
    assert_eq!(balance(&fork, &sender), 0);
    assert_eq!(balance(&fork, &receiver), 200);
    let history = CurrencySchema::new(&fork).wallet(&receiver).unwrap().history;
    assert_eq!(history, vec![crypto::Hash::new([2; 32]), tx, tx]);
    assert_eq!(wrap.reset(), None);
}

#[test]
fn bridge_latches_the_first_failure() {
    let (mut fork, sender, receiver) = ledger();
    let wallet = CurrencySchema::new(&fork).wallet(&sender).unwrap();
    let mut wrap = RunnerCtxWrap::init(&wallet, &crypto::Hash::zero());

    let failed = wrap.transfer(&mut fork, &receiver.to_hex(), 101);
    assert_eq!(failed, Err("Insufficient currency amount".to_string()));
    let refused = wrap.transfer(&mut fork, &receiver.to_hex(), 1);
    assert_eq!(refused, Err("Insufficient currency amount".to_string()));
    assert_eq!(balance(&fork, &sender), 100);
    assert_eq!(balance(&fork, &receiver), 100);
    assert_eq!(wrap.reset(), Some("Insufficient currency amount".to_string()));
}

#[test]
fn bridge_failures() {
    let (mut fork, sender, receiver) = ledger();
    let wallet = CurrencySchema::new(&fork).wallet(&sender).unwrap();
    let tx = crypto::Hash::zero();

    let mut wrap = RunnerCtxWrap::init(&wallet, &tx);
    assert_eq!(
        wrap.transfer(&mut fork, &"0g".to_string(), 1),
        Err(TransferError::ReceiverNotHex.description())
    );
    let mut wrap = RunnerCtxWrap::init(&wallet, &tx);
    assert_eq!(
        wrap.transfer(&mut fork, &"abc".to_string(), 1),
        Err("Receiver address is not hexadecimal".to_string())
    );
    let mut wrap = RunnerCtxWrap::init(&wallet, &tx);
    assert_eq!(
        wrap.transfer(&mut fork, &"".to_string(), 1),
        Err(TransferError::ReceiverWrongLength.description())
    );
    let mut wrap = RunnerCtxWrap::init(&wallet, &tx);
    assert_eq!(
        wrap.transfer(&mut fork, &PublicKey::new([3; 32]).to_hex(), 1),
        Err(TransferError::ReceiverNotFound.description())
    );
    let stranger = Wallet::new(&PublicKey::new([4; 32]), "stranger", 5);
    let mut wrap = RunnerCtxWrap::init(&stranger, &tx);
    assert_eq!(
        wrap.transfer(&mut fork, &receiver.to_hex(), 1),
        Err(TransferError::SenderNotFound.description())
    );
    assert_eq!(balance(&fork, &sender), 100);
    assert_eq!(balance(&fork, &receiver), 100);
}

#[test]
fn bridge_credit_overflow_is_refused() {
    let (mut fork, sender, receiver) = ledger();
    fork.wallets.put(&sender, Wallet::new(&sender, "sender", u64::MAX));
    let wallet = CurrencySchema::new(&fork).wallet(&sender).unwrap();
    let mut wrap = RunnerCtxWrap::init(&wallet, &crypto::Hash::zero());

    let failed = wrap.transfer(&mut fork, &receiver.to_hex(), u64::MAX);
    assert_eq!(failed, Err(TransferError::Rejected(LedgerError::BalanceOverflow).description()));
    assert_eq!(failed, Err("Balance overflow".to_string()));
    assert_eq!(balance(&fork, &receiver), 100);
    assert_eq!(balance(&fork, &sender), 0);
}

#[test]
fn a_script_sees_no_package_library() {
    let mut fork = Fork::new();
    let contract = Contract::new(
        &PublicKey::zero(),
        r#"function f() state["p"] = package.path end"#,
    );
    let result = exec(&mut fork, contract, "f", vec![]);
    assert!(result.is_err());
}

#[test]
fn too_many_arguments_fail_the_run() {
    let (mut fork, _, receiver) = ledger();
    let code = format!("transfer(\"{}\", 10)\nfunction f() end", receiver.to_hex());
    let args = vec![String::new(); MAX_ARGUMENTS + 1];
    let failure = run(&mut fork, &code, "f", args).unwrap_err();
    assert_eq!(failure.kind, FailureKind::RuntimeError);
    assert_eq!(failure.description, "Too many arguments");
    assert_eq!(failure.description, TOO_MANY_ARGUMENTS);
    assert_eq!(balance(&fork, &receiver), 100);
    assert_eq!(MAX_ARGUMENTS, 65_536);
}

#[test]
fn the_longest_argument_list_runs() {
    let mut fork = Fork::new();
    let code = "function f(...) state.n = select(\"#\", ...) state.last = select(-1, ...) end";
    let mut args = vec!["a".to_string(); MAX_ARGUMENTS];
    args[MAX_ARGUMENTS - 1] = "z".to_string();
    let updated = run(&mut fork, code, "f", args).unwrap();
    assert_eq!(updated.state, state_of(&[("n", "65536"), ("last", "z")]));
}

#[test]
fn the_entry_point_must_be_a_function_among_the_globals() {
    let mut fork = Fork::new();
    let code = r#"
        local hidden = function() state.hidden = "yes" end
        number = 5
        function present() state.ran = "yes" end
    "#;
    for name in ["absent", "hidden", "number", "string", "state", ""].iter() {
        let failure = run(&mut fork, code, name, vec![]).unwrap_err();
        assert_eq!(failure.kind, FailureKind::MissingEntryPoint, "{}", name);
    }
    let updated = run(&mut fork, code, "present", vec![]).unwrap();
    assert_eq!(updated.state, state_of(&[("ran", "yes")]));
}

#[test]
fn a_script_cannot_flood_the_host_with_values() {
    let (mut fork, _, receiver) = ledger();
    let code = r#"
        local many = {}
        for i = 1, 700000 do many[i] = "x" end
        function pay(to)
            transfer(to, 10, table.unpack(many))
            return table.unpack(many)
        end
        return table.unpack(many)
    "#;
    let updated = run(&mut fork, code, "pay", vec![receiver.to_hex()]).unwrap();
    assert!(updated.state.is_empty());
    assert_eq!(balance(&fork, &receiver), 110);
    assert_eq!(balance(&fork, &PublicKey::new([1; 32])), 90);
}

#[test]
fn transfer_needs_both_arguments() {
    let (mut fork, _, receiver) = ledger();
    let code = "function pay(to) transfer(to) end";
    let failure = run(&mut fork, code, "pay", vec![receiver.to_hex()]).unwrap_err();
    assert_eq!(failure.kind, FailureKind::RuntimeError);
    assert_eq!(balance(&fork, &receiver), 100);
}

#[test]
fn bridge_refuses_records_under_another_key() {
    let (mut fork, sender, receiver) = ledger();
    let stray = PublicKey::new([5; 32]);
    fork.wallets.put(&stray, Wallet::new(&receiver, "stray", 50));
    let wallet = CurrencySchema::new(&fork).wallet(&sender).unwrap();
    let tx = crypto::Hash::zero();

    let mut wrap = RunnerCtxWrap::init(&wallet, &tx);
    assert_eq!(
        wrap.transfer(&mut fork, &stray.to_hex(), 10),
        Err(TransferError::ReceiverNotFound.description())
    );

    let misfiled = CurrencySchema::new(&fork).wallet(&stray).unwrap();
    let mut wrap = RunnerCtxWrap::init(&Wallet::new(&stray, "stray", 50), &tx);
    assert_eq!(misfiled.pub_key, receiver);
    assert_eq!(
        wrap.transfer(&mut fork, &sender.to_hex(), 10),
        Err(TransferError::SenderNotFound.description())
    );

    assert_eq!(balance(&fork, &sender), 100);
    assert_eq!(balance(&fork, &receiver), 100);
    assert_eq!(balance(&fork, &stray), 50);
}
