//! The trusted boundary to the runtime engine.
//!
//! Everything the sandbox substrate does — validating and compiling module
//! bytes, building an isolated execution store, running an instance to
//! completion or trap, draining the captured output — happens behind the
//! `external_body` functions of this module. Their contracts state no more
//! than the engine's own documentation promises; all decisions taken on their
//! results live in verified code elsewhere in the crate.

use vstd::prelude::*;
use wasmtime::{Config, Engine, Linker, Module, Store, Trap};
use wasmtime_wasi::p1::{self, WasiP1Ctx};
use wasmtime_wasi::p2::pipe::MemoryOutputPipe;
use wasmtime_wasi::{I32Exit, WasiCtxBuilder};

verus! {

#[verifier::external_type_specification]
#[verifier::external_body]
pub struct ExEngine(Engine);

#[verifier::external_type_specification]
#[verifier::external_body]
pub struct ExModule(Module);

#[verifier::external_type_specification]
#[verifier::external_body]
#[verifier::reject_recursive_types(T)]
pub struct ExStore<T: 'static>(Store<T>);

#[verifier::external_type_specification]
#[verifier::external_body]
#[verifier::reject_recursive_types(T)]
pub struct ExLinker<T>(Linker<T>);

#[verifier::external_type_specification]
#[verifier::external_body]
pub struct ExWasiP1Ctx(WasiP1Ctx);

#[verifier::external_type_specification]
#[verifier::external_body]
pub struct ExMemoryOutputPipe(MemoryOutputPipe);

/// How one sandboxed run ended, when it did not return normally.
#[derive(Clone, Copy, Debug, PartialEq, Eq, Structural)]
pub enum RunFault {
    /// The module could not be linked, instantiated, or has no suitable
    /// entry point.
    Instantiation,
    /// The module faulted while running.
    Trap,
    /// The module exhausted its execution budget.
    Timeout,
}

/// Limit on how many bytes of module output one invocation may capture.
pub const OUTPUT_CAPACITY: usize = 1048576;

/// Relies on wasmtime::Config (consume_fuel, memory_reservation,
/// memory_guard_size) and wasmtime::Engine::new: an engine that meters
/// execution by a per-store fuel budget and reserves only modest address
/// space per sandbox memory. Engine creation cannot fail for this fixed
/// configuration.
#[verifier::external_body]
pub(crate) fn new_engine() -> Engine {
    let mut config = Config::new();
    config.consume_fuel(true);
    config.memory_reservation(1 << 24);
    config.memory_reservation_for_growth(1 << 20);
    config.memory_guard_size(1 << 16);
    Engine::new(&config).unwrap()
}

/// Whether the runtime engine accepts these bytes as a module: they decode,
/// validate and compile. Every engine this library builds carries the one
/// fixed configuration of `new_engine`, so acceptance is a function of the
/// bytes alone.
pub uninterp spec fn engine_accepts(bytes: Seq<u8>) -> bool;

/// Relies on wasmtime::Module::new: validates and compiles raw module bytes
/// against the engine, returning the compiled artifact exactly when the
/// bytes are a valid module for the engine's configuration. Callers stay
/// inside this crate, where every engine comes from `new_engine` and so
/// shares the one configuration that `engine_accepts` speaks of.
#[verifier::external_body]
pub(crate) fn compile_bytes(engine: &Engine, bytes: &Vec<u8>) -> (r: Option<Module>)
    ensures
        r is Some <==> engine_accepts(bytes@),
{
    Module::new(engine, bytes.as_slice()).ok()
}

/// Relies on wasmtime::Module being a cheap, thread-safe handle to an
/// immutable compiled artifact: Clone copies the handle, never the module.
#[verifier::external_body]
pub(crate) fn clone_module(module: &Module) -> Module {
    module.clone()
}

/// Relies on wasmtime_wasi::p2::pipe::MemoryOutputPipe::new: a fresh,
/// initially empty in-memory sink for captured output.
#[verifier::external_body]
pub(crate) fn new_pipe() -> MemoryOutputPipe {
    MemoryOutputPipe::new(OUTPUT_CAPACITY)
}

/// Relies on wasmtime_wasi::WasiCtxBuilder (stdout, envs, build_p1) and on
/// wasmtime::Store::new and Store::set_fuel: a fresh store whose capability
/// set is exactly the given environment table and the given output sink —
/// no inherited filesystem, network, or argument access — metered by `fuel`.
#[verifier::external_body]
pub(crate) fn fresh_store(
    engine: &Engine,
    envs: &Vec<(String, String)>,
    stdout: &MemoryOutputPipe,
    fuel: u64,
) -> Store<WasiP1Ctx> {
    let mut builder = WasiCtxBuilder::new();
    builder.stdout(stdout.clone()).envs(envs.as_slice());
    let mut store = Store::new(engine, builder.build_p1());
    let _ = store.set_fuel(fuel);
    store
}

/// Relies on wasmtime::Linker::new, wasmtime_wasi::p1::add_to_linker_sync,
/// Linker::instantiate, Instance::get_typed_func and TypedFunc::call: binds
/// the module to the store's fresh instance and runs its conventional entry
/// point to completion. A clean exit with status 0 counts as completion; fuel
/// exhaustion is told apart from every other trap by wasmtime::Trap::OutOfFuel.
#[verifier::external_body]
pub(crate) fn instantiate_and_start(
    store: &mut Store<WasiP1Ctx>,
    module: &Module,
) -> Result<(), RunFault> {
    let mut linker: Linker<WasiP1Ctx> = Linker::new(store.engine());
    let run = p1::add_to_linker_sync(&mut linker, |t: &mut WasiP1Ctx| t)
        .and_then(|_| linker.instantiate(&mut *store, module))
        .and_then(|i| i.get_typed_func::<(), ()>(&mut *store, "_start"))
        .map_err(|_| RunFault::Instantiation)?
        .call(&mut *store, ());
    match run {
        Ok(()) => Ok(()),
        Err(e) if matches!(e.downcast_ref::<Trap>(), Some(Trap::OutOfFuel)) => Err(RunFault::Timeout),
        Err(e) if matches!(e.downcast_ref::<I32Exit>(), Some(I32Exit(0))) => Ok(()),
        Err(_) => Err(RunFault::Trap),
    }
}

/// Relies on wasmtime_wasi::p2::pipe::MemoryOutputPipe::contents: everything
/// the instance wrote to its captured output, in order.
#[verifier::external_body]
pub(crate) fn drain_pipe(stdout: &MemoryOutputPipe) -> Vec<u8> {
    stdout.contents().to_vec()
}

/// What a byte sequence decodes to as UTF-8 text, if it is valid UTF-8.
/// The decoding is a function of the bytes alone.
pub uninterp spec fn utf8_decoded(bytes: Seq<u8>) -> Option<Seq<char>>;

/// Relies on String::from_utf8: succeeds exactly on valid UTF-8 input, and
/// the decoded text depends on the bytes alone.
#[verifier::external_body]
pub(crate) fn decode_utf8(bytes: Vec<u8>) -> (r: Option<String>)
    ensures
        match r {
            Some(s) => utf8_decoded(bytes@) == Some(s@),
            None => utf8_decoded(bytes@) is None,
        },
{
    String::from_utf8(bytes).ok()
}

} // verus!
