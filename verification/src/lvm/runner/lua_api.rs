//! The interpreter, as far as the runner calls into it.
//!
//! Every function here is a call into the `rlua` crate. Verus does not
//! read their bodies: what a contract below states was read off the source
//! of `rlua`, and nothing more is stated than that source shows. A value of
//! the interpreter (a table, a function, a script value) is opaque to the
//! library; it is only carried from one call to the next.

use std::collections::HashMap;
use vstd::prelude::*;

use crate::assoc::keys_distinct;
use crate::lvm::runner::context_wrap::{reachable, Bound, RunnerCtxWrap};
use crate::lvm::runner::{in_context, in_scope, Failure, Request};
use crate::lvm::state::{text_of, State};
use crate::storage::Fork;

verus! {

/// Bit of the base library in `rlua::StdLib`.
pub const STD_BASE: u32 = 0x1;

/// Bit of the coroutine library in `rlua::StdLib`.
pub const STD_COROUTINE: u32 = 0x2;

/// Bit of the table library in `rlua::StdLib`.
pub const STD_TABLE: u32 = 0x4;

/// Bit of the file library in `rlua::StdLib`.
pub const STD_IO: u32 = 0x8;

/// Bit of the operating system library in `rlua::StdLib`.
pub const STD_OS: u32 = 0x10;

/// Bit of the string library in `rlua::StdLib`.
pub const STD_STRING: u32 = 0x20;

/// Bit of the UTF-8 library in `rlua::StdLib`.
pub const STD_UTF8: u32 = 0x40;

/// Bit of the math library in `rlua::StdLib`.
pub const STD_MATH: u32 = 0x80;

/// Bit of the module loading library in `rlua::StdLib`.
pub const STD_PACKAGE: u32 = 0x100;

/// Bit of the debug library in `rlua::StdLib`.
pub const STD_DEBUG: u32 = 0x200;

/// The longest list of arguments that is handed to the interpreter.
///
/// `rlua` keeps one reference for every value that the host holds, in a
/// store that it doubles when it is full, and it panics when the store
/// cannot be doubled within the interpreter's limit on a stack, which is at
/// 622,592 references. The library holds a handful of references besides the
/// arguments of a call, and the two guards below keep a script from adding
/// to them; this bound keeps the total far below.
pub const MAX_ARGUMENTS: usize = 65_536;

/// Source of the guard around the capability: given the host function, a
/// function of exactly two parameters that calls it with these two.
///
/// `rlua` holds a reference for every argument that a host function is
/// called with. A script calls the host function only through the guard, and
/// so with two arguments, however many it passes.
pub const TRANSFER_GUARD: &'static str =
    "local raw = ...\nreturn function(to, amount) raw(to, amount) end";

/// Source of the guard around script code: a function that calls its first
/// argument with the rest of its arguments and returns nothing.
///
/// `rlua` holds a reference for every value that a called function returns.
/// The host calls script code only through the guard, and so gets nothing
/// back, however many values the script returns.
pub const RUN_GUARD: &'static str = "return function(f, ...) f(...) end";

/// The guard through which the host calls script code: the function that
/// [`RUN_GUARD`] makes. Only `make_run_guard` makes a value of this type.
pub struct RunGuard<'lua> {
    function: rlua::Function<'lua>,
}

/// An interpreter instance of `rlua`.
#[verifier::external_type_specification]
#[verifier::external_body]
pub struct ExLua(rlua::Lua);

/// The handle of `rlua` through which all calls into an interpreter go.
#[verifier::external_type_specification]
#[verifier::external_body]
pub struct ExContext<'lua>(rlua::Context<'lua>);

/// The scope of `rlua` in which host functions that borrow can be created.
#[verifier::external_type_specification]
#[verifier::external_body]
pub struct ExScope<'lua, 'scope>(rlua::Scope<'lua, 'scope>);

/// A table of the interpreter.
#[verifier::external_type_specification]
#[verifier::external_body]
pub struct ExTable<'lua>(rlua::Table<'lua>);

/// A function of the interpreter.
#[verifier::external_type_specification]
#[verifier::external_body]
pub struct ExFunction<'lua>(rlua::Function<'lua>);

/// A value of the interpreter.
#[verifier::external_type_specification]
#[verifier::external_body]
pub struct ExValue<'lua>(rlua::Value<'lua>);

/// The error of `rlua`.
#[verifier::external_type_specification]
#[verifier::external_body]
pub struct ExError(rlua::prelude::LuaError);

/// Calls `rlua::Lua::new_with` with the libraries whose bits are set.
///
/// `new_with` panics when the debug library is asked for, so that bit must
/// not be set. The other four bits are refused on the library's own account:
/// no interpreter that it makes reaches files, the operating system, other
/// modules or coroutines. Nothing is stated of the interpreter that comes
/// back.
#[verifier::external_body]
pub(crate) fn lua_new_with(libraries: u32) -> (lua: rlua::Lua)
    requires
        libraries & STD_DEBUG == 0,
        libraries & STD_IO == 0,
        libraries & STD_OS == 0,
        libraries & STD_PACKAGE == 0,
        libraries & STD_COROUTINE == 0,
{
    rlua::Lua::new_with(rlua::StdLib::from_bits_truncate(libraries))
}

/// Calls `rlua::Lua::context`, which calls the closure once and returns what
/// the closure returns. The closure is one call of `in_context`, so what
/// `in_context` asks is asked here, and what holds after it holds here: the
/// binding and the fork were changed by calls of the capability only.
#[verifier::external_body]
pub(crate) fn lua_context(
    lua: &rlua::Lua,
    request: &Request,
    wrap: &mut RunnerCtxWrap,
    fork: &mut Fork,
) -> (r: Result<State, Failure>)
    requires
        request.args@.len() <= MAX_ARGUMENTS,
    ensures
        reachable(
            Bound { binding: old(wrap)@, fork: old(fork)@ },
            Bound { binding: final(wrap)@, fork: final(fork)@ },
        ),
{
    lua.context(|ctx| in_context(ctx, request, wrap, fork))
}

/// Calls `rlua::Context::scope`, which calls the closure once and returns
/// what the closure returns; host functions made in the scope are dead once
/// it returns. The closure is one call of `in_scope`, so what `in_scope`
/// asks is asked here, and what holds after it holds here.
#[verifier::external_body]
pub(crate) fn ctx_scope<'lua>(
    ctx: rlua::Context<'lua>,
    request: &Request,
    wrap: &mut RunnerCtxWrap,
    fork: &mut Fork,
) -> (r: Result<State, Failure>)
    requires
        request.args@.len() <= MAX_ARGUMENTS,
    ensures
        reachable(
            Bound { binding: old(wrap)@, fork: old(fork)@ },
            Bound { binding: final(wrap)@, fork: final(fork)@ },
        ),
{
    ctx.scope(|scope| in_scope(ctx, scope, request, wrap, fork))
}

/// Calls `rlua::Scope::create_function_mut` with a closure that is one call
/// of `RunnerCtxWrap::transfer`, and wraps the function as a script value.
///
/// The function is for [`TRANSFER_GUARD`] alone, never for a script's
/// globals. The binding and the fork stay borrowed by that closure until the
/// scope ends. Until then the interpreter may run the closure any number of times,
/// and nothing else can reach the two: when the borrow ends they are what a
/// series of calls of `transfer` made of them.
#[verifier::external_body]
pub(crate) fn scope_create_transfer<'lua, 'scope>(
    scope: &rlua::Scope<'lua, 'scope>,
    wrap: &'scope mut RunnerCtxWrap,
    fork: &'scope mut Fork,
) -> (r: Result<rlua::Value<'lua>, rlua::prelude::LuaError>)
    ensures
        reachable(
            Bound { binding: old(wrap)@, fork: old(fork)@ },
            Bound { binding: final(wrap)@, fork: final(fork)@ },
        ),
{
    scope.create_function_mut(
        move |_, (receiver, amount): (String, u64)|
            wrap.transfer(fork, &receiver, amount).map_err(rlua::prelude::LuaError::RuntimeError),
    ).map(rlua::Value::Function)
}

/// Calls `rlua::Context::globals`: the table of global names.
#[verifier::external_body]
pub(crate) fn ctx_globals<'lua>(ctx: rlua::Context<'lua>) -> (globals: rlua::Table<'lua>) {
    ctx.globals()
}

/// Calls `rlua::Context::pack` on a map from text to text, which makes a
/// table of the interpreter with these entries. No key may come twice, so
/// that the map has the entries of the list, one for one.
#[verifier::external_body]
pub(crate) fn ctx_pack_table<'lua>(ctx: rlua::Context<'lua>, pairs: Vec<(String, String)>) -> (r:
    Result<rlua::Value<'lua>, rlua::prelude::LuaError>)
    requires
        keys_distinct(text_of(pairs@)),
{
    ctx.pack(pairs.into_iter().collect::<HashMap<String, String>>())
}

/// Calls `rlua::Context::unpack` for a map from text to text, which reads a
/// table of the interpreter entry by entry and turns numbers into text as
/// the interpreter does. The entries come in no particular order.
#[verifier::external_body]
pub(crate) fn ctx_unpack_table<'lua>(ctx: rlua::Context<'lua>, value: rlua::Value<'lua>) -> (r:
    Result<Vec<(String, String)>, rlua::prelude::LuaError>) {
    ctx.unpack::<HashMap<String, String>>(value).map(|map| map.into_iter().collect())
}

/// The value `nil` of the interpreter.
#[verifier::external_body]
pub(crate) fn value_nil<'lua>() -> (nil: rlua::Value<'lua>) {
    rlua::Value::Nil
}

/// Calls `rlua::Table::raw_set`: binds the name in the table to the value,
/// without running script code.
#[verifier::external_body]
pub(crate) fn table_raw_set<'lua>(
    table: &rlua::Table<'lua>,
    name: &str,
    value: rlua::Value<'lua>,
) -> (r: Result<(), rlua::prelude::LuaError>) {
    table.raw_set(name, value)
}

/// Calls `rlua::Table::raw_get`: the value bound to the name in the table,
/// without running script code.
#[verifier::external_body]
pub(crate) fn table_raw_get<'lua>(table: &rlua::Table<'lua>, name: &str) -> (r: Result<
    rlua::Value<'lua>,
    rlua::prelude::LuaError,
>) {
    table.raw_get(name)
}

/// Calls `rlua::Context::unpack` for a function: the value itself where it
/// is a function, an error where it is anything else. No script code runs.
#[verifier::external_body]
pub(crate) fn ctx_unpack_function<'lua>(ctx: rlua::Context<'lua>, value: rlua::Value<'lua>) -> (r:
    Result<rlua::Function<'lua>, rlua::prelude::LuaError>) {
    ctx.unpack::<rlua::Function>(value)
}

/// Calls `rlua::Context::load` and `rlua::Chunk::into_function`: parses the
/// source, as text only, into a function. Nothing of the source runs.
#[verifier::external_body]
pub(crate) fn ctx_load_function<'lua>(ctx: rlua::Context<'lua>, source: &str) -> (r: Result<
    rlua::Function<'lua>,
    rlua::prelude::LuaError,
>) {
    ctx.load(source).into_function()
}

/// Calls `rlua::Context::load` and `rlua::Chunk::call` on the source of the
/// guard around the capability, with the host function as its argument: the
/// guarded function that a script may hold. The source must be
/// [`TRANSFER_GUARD`], which only makes the inner function and returns it.
#[verifier::external_body]
pub(crate) fn guard_transfer<'lua>(
    ctx: rlua::Context<'lua>,
    source: &str,
    raw: rlua::Value<'lua>,
) -> (r: Result<rlua::Value<'lua>, rlua::prelude::LuaError>)
    requires
        source@ == TRANSFER_GUARD@,
{
    ctx.load(source).call::<_, rlua::Value>(raw)
}

/// Calls `rlua::Context::load` and `rlua::Chunk::call` on the source of the
/// guard around script code: the guard through which the host calls script
/// code. The source must be [`RUN_GUARD`], which only makes the guard and
/// returns it.
#[verifier::external_body]
pub(crate) fn make_run_guard<'lua>(ctx: rlua::Context<'lua>, source: &str) -> (r: Result<
    RunGuard<'lua>,
    rlua::prelude::LuaError,
>)
    requires
        source@ == RUN_GUARD@,
{
    ctx.load(source).call::<_, rlua::Function>(()).map(|function| RunGuard { function })
}

/// Calls `rlua::Function::call` on the guard, with the function of the
/// script and then the texts, in their order, as arguments; the guard calls
/// the function with the texts and returns nothing.
///
/// `rlua` holds one reference for each argument, so the list must keep to
/// [`MAX_ARGUMENTS`]; it would hold one for each value that came back, and
/// through the guard none comes back.
///
/// The call returns when the script does. Nothing meters a script: one that
/// loops, or that keeps a library function busy, keeps this call.
#[verifier::external_body]
pub(crate) fn call_guarded<'lua>(
    guard: &RunGuard<'lua>,
    function: rlua::Function<'lua>,
    texts: &Vec<String>,
) -> (r: Result<(), rlua::prelude::LuaError>)
    requires
        texts@.len() <= MAX_ARGUMENTS,
{
    guard.function.call::<_, ()>((function, texts.iter().cloned().collect::<rlua::Variadic<String>>()))
}

/// The text of an error of `rlua`, as its `Display` writes it.
#[verifier::external_body]
pub(crate) fn error_text(error: &rlua::prelude::LuaError) -> (text: String) {
    format!("{}", error)
}

} // verus!
