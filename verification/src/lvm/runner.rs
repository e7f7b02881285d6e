//! The runner: one invocation of a contract, end to end.
//!
//! An invocation goes through the stages *initialized*, *loaded*, *invoked*
//! and *extracted*, or fails at one of them. The interpreter is created for
//! the invocation and dropped with it; the capability bridge is bound before
//! the script is loaded and torn down before the runner returns.
//!
//! # Open gap: nothing meters a script
//!
//! The runner hands control to the script and gets it back when the script
//! returns. There is no budget of instructions, of time or of memory: a
//! script that loops forever, or that keeps a library function busy with a
//! huge text or pattern, keeps the runner, and with it the transaction, for
//! as long. What the contracts of [`Runner::run`] and [`Runner::exec`] state
//! holds of every run that returns.
//!
//! # Open gap: a script can see what differs between machines
//!
//! The text of a table or a function holds its address, and the order in
//! which a table is walked depends on a seed that the interpreter draws for
//! itself. A script that writes either into its state leaves a state that
//! another node need not compute.

use vstd::prelude::*;

use crate::blockchain::TransactionContext;
use crate::currency::wallet::Wallet;
use crate::lvm::contract::{Contract, ContractView};
use crate::lvm::state::State;
use crate::storage::{Fork, ForkView};
use context_wrap::{
    after_transfers, lemma_reachable_at_once, reachable, Binding, Bound, RunnerCtxWrap,
    TransferCall,
};
use lua_api::{
    call_guarded, ctx_globals, ctx_load_function, ctx_pack_table, ctx_scope,
    ctx_unpack_function, ctx_unpack_table, error_text, lua_context, lua_new_with,
    make_run_guard, table_raw_get, table_raw_set, value_nil, RunGuard, MAX_ARGUMENTS, RUN_GUARD,
    STD_BASE,
    STD_COROUTINE, STD_DEBUG, STD_IO, STD_MATH, STD_OS, STD_PACKAGE, STD_STRING, STD_TABLE,
    STD_UTF8,
};

pub mod context_wrap;
pub mod lua_api;

verus! {

/// The libraries that a contract can use: the base library and the table,
/// string, UTF-8 and math libraries.
pub const LVM_LUA_SUBSET: u32 = 0xE5;

/// The subset is made of five libraries, and of none that reaches files, the
/// operating system, other modules, coroutines or the debugger.
pub proof fn lemma_lua_subset()
    ensures
        LVM_LUA_SUBSET == STD_BASE | STD_TABLE | STD_STRING | STD_UTF8 | STD_MATH,
        LVM_LUA_SUBSET & STD_IO == 0,
        LVM_LUA_SUBSET & STD_OS == 0,
        LVM_LUA_SUBSET & STD_PACKAGE == 0,
        LVM_LUA_SUBSET & STD_COROUTINE == 0,
        LVM_LUA_SUBSET & STD_DEBUG == 0,
{
    assert(0xE5u32 == 0x1u32 | 0x4u32 | 0x20u32 | 0x40u32 | 0x80u32) by (bit_vector);
    assert(0xE5u32 & 0x8u32 == 0) by (bit_vector);
    assert(0xE5u32 & 0x10u32 == 0) by (bit_vector);
    assert(0xE5u32 & 0x100u32 == 0) by (bit_vector);
    assert(0xE5u32 & 0x2u32 == 0) by (bit_vector);
    assert(0xE5u32 & 0x200u32 == 0) by (bit_vector);
}

/// The names of the base library that are taken away from a contract:
/// those that reach files or the console, the one that loads code in a form
/// that the interpreter does not check, and the one that lets a script hang
/// its own code on a value, to run when the host touches or drops it.
fn removed_globals() -> (names: [&'static str; 5])
    ensures
        names@.len() == 5,
        names@[0]@ == "dofile"@,
        names@[1]@ == "loadfile"@,
        names@[2]@ == "load"@,
        names@[3]@ == "print"@,
        names@[4]@ == "setmetatable"@,
{
    ["dofile", "loadfile", "load", "print", "setmetatable"]
}

/// Description of the failure of an invocation with more than
/// [`MAX_ARGUMENTS`] arguments.
pub const TOO_MANY_ARGUMENTS: &'static str = "Too many arguments";

/// The stage at which an invocation failed.
#[derive(Debug, Clone, Copy, PartialEq, Eq, Structural)]
pub enum FailureKind {
    /// The interpreter could not be prepared, or the source did not parse or
    /// raised an error when it was evaluated.
    LoadError,
    /// No function is bound to the entry point.
    MissingEntryPoint,
    /// The entry point raised an error, or its arguments or the resulting
    /// state could not be converted.
    RuntimeError,
}

/// A failed invocation: the stage and the interpreter's words.
#[derive(Debug)]
pub struct Failure {
    pub kind: FailureKind,
    pub description: String,
}

/// What one invocation is asked to do.
pub struct Request<'r> {
    pub contract: &'r Contract,
    pub fn_name: &'r str,
    pub args: &'r Vec<String>,
}

/// Turns an error of the interpreter into a failure of the given stage.
fn failed<T>(kind: FailureKind, error: rlua::prelude::LuaError) -> (r: Result<T, Failure>)
    ensures
        r is Err,
        r->Err_0.kind == kind,
{
    Err(Failure { kind, description: error_text(&error) })
}

/// Takes the names that reach files or the console out of the globals.
fn restrict<'lua>(globals: &rlua::Table<'lua>) -> (r: Result<(), rlua::prelude::LuaError>) {
    let names = removed_globals();
    let mut i: usize = 0;
    while i < names.len()
        invariant
            i <= names@.len(),
        decreases names@.len() - i,
    {
        table_raw_set(globals, names[i], value_nil())?;
        i += 1;
    }
    Ok(())
}

/// A loaded interpreter: its globals, and the guard through which the host
/// calls script code.
struct Loaded<'lua> {
    globals: rlua::Table<'lua>,
    run: RunGuard<'lua>,
}

/// From *initialized* to *loaded*: takes the unsafe names away, seeds the
/// state, binds the capability and evaluates the source.
fn load<'lua, 'scope>(
    ctx: rlua::Context<'lua>,
    scope: &rlua::Scope<'lua, 'scope>,
    contract: &Contract,
    wrap: &'scope mut RunnerCtxWrap,
    fork: &'scope mut Fork,
) -> (r: Result<Loaded<'lua>, Failure>)
    ensures
        reachable(
            Bound { binding: old(wrap)@, fork: old(fork)@ },
            Bound { binding: final(wrap)@, fork: final(fork)@ },
        ),
        r is Err ==> r->Err_0.kind == FailureKind::LoadError,
{
    let globals = ctx_globals(ctx);
    if let Err(error) = restrict(&globals) {
        proof {
            lemma_reachable_at_once(Bound { binding: old(wrap)@, fork: old(fork)@ });
        }
        return failed(FailureKind::LoadError, error);
    }
    let run = match make_run_guard(ctx, RUN_GUARD) {
        Ok(run) => run,
        Err(error) => {
            proof {
                lemma_reachable_at_once(Bound { binding: old(wrap)@, fork: old(fork)@ });
            }
            return failed(FailureKind::LoadError, error);
        },
    };
    let state_table = match ctx_pack_table(ctx, contract.state.to_pairs()) {
        Ok(table) => table,
        Err(error) => {
            proof {
                lemma_reachable_at_once(Bound { binding: old(wrap)@, fork: old(fork)@ });
            }
            return failed(FailureKind::LoadError, error);
        },
    };
    if let Err(error) = table_raw_set(&globals, "state", state_table) {
        proof {
            lemma_reachable_at_once(Bound { binding: old(wrap)@, fork: old(fork)@ });
        }
        return failed(FailureKind::LoadError, error);
    }
    let registered = RunnerCtxWrap::register_functions(ctx, scope, &globals, wrap, fork);
    if let Err(error) = registered {
        return failed(FailureKind::LoadError, error);
    }
    let chunk = match ctx_load_function(ctx, contract.code.as_str()) {
        Ok(chunk) => chunk,
        Err(error) => {
            return failed(FailureKind::LoadError, error);
        },
    };
    let no_arguments: Vec<String> = Vec::new();
    if let Err(error) = call_guarded(&run, chunk, &no_arguments) {
        return failed(FailureKind::LoadError, error);
    }
    Ok(Loaded { globals, run })
}

/// From *loaded* to *invoked*: looks the entry point up among the globals,
/// without running script code for the lookup, marshals the arguments in
/// their order and calls it.
fn invoke<'lua>(
    ctx: rlua::Context<'lua>,
    loaded: &Loaded<'lua>,
    fn_name: &str,
    args: &Vec<String>,
) -> (r: Result<(), Failure>)
    requires
        args@.len() <= MAX_ARGUMENTS,
    ensures
        r is Err ==> r->Err_0.kind == FailureKind::MissingEntryPoint || r->Err_0.kind
            == FailureKind::RuntimeError,
{
    let bound = match table_raw_get(&loaded.globals, fn_name) {
        Ok(value) => value,
        Err(error) => {
            return failed(FailureKind::MissingEntryPoint, error);
        },
    };
    let function = match ctx_unpack_function(ctx, bound) {
        Ok(function) => function,
        Err(error) => {
            return failed(FailureKind::MissingEntryPoint, error);
        },
    };
    match call_guarded(&loaded.run, function, args) {
        Ok(()) => Ok(()),
        Err(error) => failed(FailureKind::RuntimeError, error),
    }
}

/// From *invoked* to *extracted*: reads the state back.
fn extract<'lua>(ctx: rlua::Context<'lua>, globals: &rlua::Table<'lua>) -> (r: Result<
    State,
    Failure,
>)
    ensures
        r is Err ==> r->Err_0.kind == FailureKind::RuntimeError,
{
    let state_table = match table_raw_get(globals, "state") {
        Ok(table) => table,
        Err(error) => {
            return failed(FailureKind::RuntimeError, error);
        },
    };
    match ctx_unpack_table(ctx, state_table) {
        Ok(pairs) => Ok(State::from_pairs(&pairs)),
        Err(error) => failed(FailureKind::RuntimeError, error),
    }
}

/// The invocation inside the scope in which the capability lives.
pub(crate) fn in_scope<'lua, 'scope>(
    ctx: rlua::Context<'lua>,
    scope: &rlua::Scope<'lua, 'scope>,
    request: &Request,
    wrap: &'scope mut RunnerCtxWrap,
    fork: &'scope mut Fork,
) -> (r: Result<State, Failure>)
    requires
        request.args@.len() <= MAX_ARGUMENTS,
    ensures
        reachable(
            Bound { binding: old(wrap)@, fork: old(fork)@ },
            Bound { binding: final(wrap)@, fork: final(fork)@ },
        ),
{
    let loaded = load(ctx, scope, request.contract, wrap, fork)?;
    invoke(ctx, &loaded, request.fn_name, request.args)?;
    extract(ctx, &loaded.globals)
}

/// The invocation inside one interpreter.
pub(crate) fn in_context<'lua>(
    ctx: rlua::Context<'lua>,
    request: &Request,
    wrap: &mut RunnerCtxWrap,
    fork: &mut Fork,
) -> (r: Result<State, Failure>)
    requires
        request.args@.len() <= MAX_ARGUMENTS,
    ensures
        reachable(
            Bound { binding: old(wrap)@, fork: old(fork)@ },
            Bound { binding: final(wrap)@, fork: final(fork)@ },
        ),
{
    ctx_scope(ctx, request, wrap, fork)
}

/// One invocation: a snapshot of the contract and of its account, and the
/// context of the transaction that invokes it.
#[derive(Debug)]
pub struct Runner<'a> {
    pub contract: Contract,
    pub contract_wallet: Wallet,
    pub context: TransactionContext<'a>,
}

/// What an invocation may do, whatever the script is: the fork ends as some
/// series of calls of the capability leaves it, all of them made for the
/// account of the contract and the running transaction; a failed call of
/// the capability fails the invocation at run time with the words of that
/// failure; and a contract that comes back has the key and the source that
/// went in.
pub open spec fn run_effect(
    contract: ContractView,
    binding: Binding,
    before: ForkView,
    after: ForkView,
    r: Result<Contract, Failure>,
) -> bool {
    exists|calls: Seq<TransferCall>|
        {
            let end = #[trigger] after_transfers(Bound { binding, fork: before }, calls);
            &&& after == end.fork
            &&& match end.binding.failure {
                Some(text) => r is Err && r->Err_0.kind == FailureKind::RuntimeError
                    && r->Err_0.description@ == text,
                None => true,
            }
            &&& match r {
                Ok(updated) => updated@.pub_key == contract.pub_key && updated@.code
                    == contract.code,
                Err(_) => true,
            }
        }
}

/// `run_effect`, for a failure that is reported by its description alone.
pub open spec fn exec_effect(
    contract: ContractView,
    binding: Binding,
    before: ForkView,
    after: ForkView,
    r: Result<Contract, String>,
) -> bool {
    exists|calls: Seq<TransferCall>|
        {
            let end = #[trigger] after_transfers(Bound { binding, fork: before }, calls);
            &&& after == end.fork
            &&& match end.binding.failure {
                Some(text) => r is Err && r->Err_0@ == text,
                None => true,
            }
            &&& match r {
                Ok(updated) => updated@.pub_key == contract.pub_key && updated@.code
                    == contract.code,
                Err(_) => true,
            }
        }
}

impl<'a> Runner<'a> {
    /// Runs the entry point of the contract with the arguments and returns
    /// the contract with the state that the script left, or the stage and
    /// the description of the failure. Transfers that the script made are
    /// in the fork either way; on failure the caller discards them.
    ///
    /// A list of more than [`MAX_ARGUMENTS`] arguments fails the invocation
    /// at run time before an interpreter is made, and the fork is untouched.
    ///
    /// The call returns when the script does: nothing meters a script, and
    /// one that loops keeps the call.
    pub fn run(self, fn_name: &str, args: Vec<String>) -> (r: Result<Contract, Failure>)
        ensures
            run_effect(
                self.contract@,
                Binding {
                    account: self.contract_wallet.pub_key@,
                    tx_hash: self.context.tx_hash@,
                    failure: None,
                },
                old(self.context.fork)@,
                final(self.context.fork)@,
                r,
            ),
            args@.len() > MAX_ARGUMENTS ==> r is Err && r->Err_0.kind == FailureKind::RuntimeError
                && r->Err_0.description@ == TOO_MANY_ARGUMENTS@ && final(self.context.fork)@
                == old(self.context.fork)@,
    {
        let Runner { contract, contract_wallet, context } = self;
        let TransactionContext { fork, tx_hash, author: _ } = context;
        if args.len() > MAX_ARGUMENTS {
            proof {
                lemma_reachable_at_once(
                    Bound {
                        binding: Binding {
                            account: contract_wallet.pub_key@,
                            tx_hash: tx_hash@,
                            failure: None,
                        },
                        fork: fork@,
                    },
                );
            }
            return Err(
                Failure {
                    kind: FailureKind::RuntimeError,
                    description: TOO_MANY_ARGUMENTS.to_owned(),
                },
            );
        }
        proof {
            lemma_lua_subset();
        }
        let lua = lua_new_with(LVM_LUA_SUBSET);
        let mut wrap = RunnerCtxWrap::init(&contract_wallet, &tx_hash);
        let request = Request { contract: &contract, fn_name, args: &args };
        let outcome = lua_context(&lua, &request, &mut wrap, fork);
        let failure = wrap.reset();
        Runner::conclude(contract, outcome, failure)
    }

    /// As [`Runner::run`], with a failure reported by its description alone.
    pub fn exec(self, fn_name: &str, args: Vec<String>) -> (r: Result<Contract, String>)
        ensures
            exec_effect(
                self.contract@,
                Binding {
                    account: self.contract_wallet.pub_key@,
                    tx_hash: self.context.tx_hash@,
                    failure: None,
                },
                old(self.context.fork)@,
                final(self.context.fork)@,
                r,
            ),
            args@.len() > MAX_ARGUMENTS ==> r is Err && r->Err_0@ == TOO_MANY_ARGUMENTS@
                && final(self.context.fork)@ == old(self.context.fork)@,
    {
        match self.run(fn_name, args) {
            Ok(contract) => Ok(contract),
            Err(failed) => Err(failed.description),
        }
    }

    /// The result of an invocation, from what the interpreter returned and
    /// the failure that the capability latched. A latched failure fails the
    /// invocation at run time, whatever the interpreter returned: a script
    /// cannot hide it.
    pub fn conclude(contract: Contract, outcome: Result<State, Failure>, failure: Option<String>) -> (r:
        Result<Contract, Failure>)
        ensures
            match (failure, outcome) {
                (Some(text), _) => r is Err && r->Err_0.kind == FailureKind::RuntimeError
                    && r->Err_0.description@ == text@,
                (None, Err(failed)) => r == Err::<Contract, Failure>(failed),
                (None, Ok(state)) => r is Ok && r->Ok_0@ == (ContractView {
                    state: state@,
                    ..contract@
                }),
            },
    {
        match failure {
            Some(description) => Err(Failure { kind: FailureKind::RuntimeError, description }),
            None => match outcome {
                Ok(state) => Ok(Contract { pub_key: contract.pub_key, code: contract.code, state }),
                Err(failed) => Err(failed),
            },
        }
    }
}

} // verus!
