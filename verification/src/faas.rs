//! The request-level operations: compile-or-fetch against the cache, and one
//! isolated invocation per request.
//!
//! The runtime engine and the cache live for the process lifetime and are
//! owned by one [`Faas`] value, built once at the composition root and handed
//! by reference into request handlers. Every invocation gets a fresh sandbox
//! instance: a compiled module is shared, a live instance never.

use crate::cache::{CacheView, CompiledModule, ModuleCache};
use crate::context::build_env;
use crate::engine::{
    decode_utf8, drain_pipe, engine_accepts, fresh_store, instantiate_and_start, new_engine,
    new_pipe, utf8_decoded, RunFault,
};
use crate::errors::{ErrorKind, FaasError};
use vstd::prelude::*;
use wasmtime::Engine;

verus! {

/// What the module backing store answered for one module identifier: the raw
/// bytes it holds under that identifier, or that it holds none.
pub enum Fetch {
    Found(Vec<u8>),
    NotFound,
}

/// The error kind an invocation reports for each way a run can end short of
/// normal completion.
pub open spec fn fault_kind(f: RunFault) -> ErrorKind {
    match f {
        RunFault::Instantiation => ErrorKind::InstantiationError,
        RunFault::Trap => ErrorKind::ExecutionTrap,
        RunFault::Timeout => ErrorKind::ExecutionTimeout,
    }
}

/// Bind a compiled module to a fresh, isolated store — its capability set is
/// the environment table and a private output sink, nothing more — and run
/// its entry point. On normal completion the captured output is drained; on
/// any fault the partial output is discarded with the store.
fn run_module(
    engine: &Engine,
    module: &CompiledModule,
    envs: &Vec<(String, String)>,
    fuel: u64,
) -> Result<Vec<u8>, RunFault> {
    let pipe = new_pipe();
    let mut store = fresh_store(engine, envs, &pipe, fuel);
    match instantiate_and_start(&mut store, &module.module) {
        Ok(()) => Ok(drain_pipe(&pipe)),
        Err(f) => Err(f),
    }
}

/// Turn the outcome of one sandboxed run into the invocation's result: a
/// faulted run yields its error kind and never any output; a completed run
/// yields the captured output decoded as text, or `OutputEncodingError`
/// exactly when the bytes are not valid UTF-8.
pub fn finish_run(outcome: Result<Vec<u8>, RunFault>, tenant: &String, name: &String) -> (r:
    Result<String, FaasError>)
    ensures
        outcome matches Err(f) ==> r matches Err(e) && e.kind == fault_kind(f)
            && e.tenant@ == tenant@ && e.module@ == name@,
        outcome matches Ok(bytes) ==> match utf8_decoded(bytes@) {
            Some(text) => r matches Ok(s) && s@ == text,
            None => r matches Err(e) && e.kind == ErrorKind::OutputEncodingError
                && e.tenant@ == tenant@ && e.module@ == name@,
        },
{
    match outcome {
        Ok(bytes) => match decode_utf8(bytes) {
            Some(s) => Ok(s),
            None => Err(FaasError::new(tenant, name, ErrorKind::OutputEncodingError)),
        },
        Err(f) => {
            let kind = match f {
                RunFault::Instantiation => ErrorKind::InstantiationError,
                RunFault::Trap => ErrorKind::ExecutionTrap,
                RunFault::Timeout => ErrorKind::ExecutionTimeout,
            };
            Err(FaasError::new(tenant, name, kind))
        },
    }
}

/// The function-as-a-service core: the process-wide runtime engine and the
/// tenant-scoped compiled-module cache.
pub struct Faas {
    engine: Engine,
    cache: ModuleCache,
}

impl Faas {
    /// What the core resolves: each (tenant, module name) pair to the bytes
    /// its cached artifact was compiled from.
    pub closed spec fn view(&self) -> CacheView {
        self.cache.view()
    }

    /// Well-formedness of the cache: one artifact per (tenant, name) pair.
    pub closed spec fn wf(&self) -> bool {
        self.cache.wf()
    }

    /// A fresh core: a metered engine and a cold cache.
    pub fn new() -> (r: Faas)
        ensures
            r.wf(),
            r.view() == Map::<(Seq<char>, Seq<char>), Seq<u8>>::empty(),
    {
        Faas { engine: new_engine(), cache: ModuleCache::new() }
    }

    /// The cache-hit path: a handle to the cached artifact exactly when the
    /// tenant has this module cached. Consults nothing but the cache.
    pub fn cached_module(&self, tenant: &String, name: &String) -> (r: Option<CompiledModule>)
        requires
            self.wf(),
        ensures
            r is Some <==> self.view().contains_key((tenant@, name@)),
            r matches Some(cm) ==> cm.bytes() == self.view()[(tenant@, name@)],
    {
        self.cache.find(tenant, name)
    }

    /// The cache-miss path, after the backing store was consulted: what is
    /// cached and returned for each possible compilation outcome. A rejected
    /// module is never cached negatively; a compiled one is cached under the
    /// tenant's name for it and every other pair resolves as before.
    pub fn cache_compiled(
        &mut self,
        tenant: &String,
        name: &String,
        compiled: Option<CompiledModule>,
    ) -> (r: Result<CompiledModule, FaasError>)
        requires
            old(self).wf(),
            !old(self).view().contains_key((tenant@, name@)),
        ensures
            final(self).wf(),
            compiled matches Some(cm) ==> r matches Ok(out) && out.bytes() == cm.bytes(),
            compiled matches Some(cm) ==> final(self).view() == old(self).view().insert(
                (tenant@, name@),
                cm.bytes(),
            ),
            compiled is None ==> final(self).view() == old(self).view(),
            compiled is None ==> (r matches Err(e) && e.kind == ErrorKind::CompileError
                && e.tenant@ == tenant@ && e.module@ == name@),
    {
        match compiled {
            Some(cm) => {
                let out = cm.duplicate();
                self.cache.add(tenant, name, cm);
                Ok(out)
            },
            None => Err(FaasError::new(tenant, name, ErrorKind::CompileError)),
        }
    }

    /// Compile-or-fetch. On a hit the cached artifact is returned, the cache
    /// is unchanged, and the backing store's answer plays no part — the
    /// result is fixed by the cache alone. On a miss the store's answer
    /// decides: no bytes is `ModuleNotFound`; bytes are served if and only
    /// if the engine accepts them — rejected bytes are `CompileError` and
    /// nothing is cached, accepted bytes are cached under the tenant's name
    /// and served.
    pub fn get_or_compile(&mut self, tenant: &String, name: &String, fetch: Fetch) -> (r: Result<
        CompiledModule,
        FaasError,
    >)
        requires
            old(self).wf(),
        ensures
            final(self).wf(),
            old(self).view().contains_key((tenant@, name@)) ==> (final(self).view()
                == old(self).view() && (r matches Ok(cm) && cm.bytes() == old(self).view()[
                (tenant@, name@)
            ])),
            !old(self).view().contains_key((tenant@, name@)) && fetch is NotFound ==> (final(self).view()
                == old(self).view() && (r matches Err(e) && e.kind
                == ErrorKind::ModuleNotFound && e.tenant@ == tenant@ && e.module@ == name@)),
            fetch matches Fetch::Found(b) ==> (!old(self).view().contains_key((tenant@, name@)) ==> (
            (r is Ok <==> engine_accepts(b@)) && (
            r matches Ok(cm) ==> cm.bytes() == b@ && final(self).view()
                == old(self).view().insert((tenant@, name@), b@)) && (
            r matches Err(e) ==> e.kind == ErrorKind::CompileError && e.tenant@ == tenant@
                && e.module@ == name@ && final(self).view() == old(self).view()))),
            r matches Ok(cm) ==> final(self).view().contains_key((tenant@, name@)) && cm.bytes()
                == final(self).view()[(tenant@, name@)],
    {
        match self.cached_module(tenant, name) {
            Some(cm) => Ok(cm),
            None => match fetch {
                Fetch::NotFound => Err(FaasError::new(tenant, name, ErrorKind::ModuleNotFound)),
                Fetch::Found(bytes) => {
                    let compiled = CompiledModule::compile(&self.engine, &bytes);
                    self.cache_compiled(tenant, name, compiled)
                },
            },
        }
    }

    /// One invocation: a fresh environment table from the parameters, a
    /// fresh isolated sandbox instance, the module run to completion or
    /// fault under the given fuel budget. The core's own state is read-only
    /// here — nothing of the call outlives it. Any failure carries this
    /// tenant, this module, and one of the four execution error kinds; an
    /// error result carries no output.
    pub fn invoke(
        &self,
        tenant: &String,
        name: &String,
        module: &CompiledModule,
        params: &Vec<(String, String)>,
        fuel: u64,
    ) -> (r: Result<String, FaasError>)
        requires
            self.wf(),
        ensures
            r matches Err(e) ==> e.tenant@ == tenant@ && e.module@ == name@ && (e.kind
                == ErrorKind::InstantiationError || e.kind == ErrorKind::ExecutionTrap || e.kind
                == ErrorKind::ExecutionTimeout || e.kind == ErrorKind::OutputEncodingError),
    {
        let envs = build_env(params);
        let outcome = run_module(&self.engine, module, &envs, fuel);
        finish_run(outcome, tenant, name)
    }

    /// One whole request: compile-or-fetch, then one isolated invocation.
    /// The cache evolves exactly as in `get_or_compile` — unchanged on a
    /// hit whatever the store answered, unchanged when the store has
    /// nothing or the engine rejects its bytes, and grown by exactly this
    /// request's entry when the engine accepts them. Rejected bytes fail as
    /// `CompileError` before any sandbox is built.
    pub fn handle(
        &mut self,
        tenant: &String,
        name: &String,
        params: &Vec<(String, String)>,
        fetch: Fetch,
        fuel: u64,
    ) -> (r: Result<String, FaasError>)
        requires
            old(self).wf(),
        ensures
            final(self).wf(),
            old(self).view().contains_key((tenant@, name@)) ==> final(self).view()
                == old(self).view(),
            old(self).view().contains_key((tenant@, name@)) ==> (r matches Err(e) ==> e.kind
                != ErrorKind::ModuleNotFound && e.kind != ErrorKind::CompileError),
            !old(self).view().contains_key((tenant@, name@)) && fetch is NotFound ==> (final(self).view()
                == old(self).view() && (r matches Err(e) && e.kind
                == ErrorKind::ModuleNotFound)),
            fetch matches Fetch::Found(b) ==> (!old(self).view().contains_key((tenant@, name@)) ==> (
            (engine_accepts(b@) ==> final(self).view() == old(self).view().insert(
                (tenant@, name@),
                b@,
            )) && (!engine_accepts(b@) ==> final(self).view() == old(self).view() && (
            r matches Err(e) && e.kind == ErrorKind::CompileError)) && (
            r matches Err(e) ==> (e.kind == ErrorKind::CompileError <==> !engine_accepts(b@))))),
            r matches Err(e) ==> e.tenant@ == tenant@ && e.module@ == name@ && e.kind
                != ErrorKind::TenantPartitionError,
    {
        let module = match self.get_or_compile(tenant, name, fetch) {
            Ok(cm) => cm,
            Err(e) => {
                return Err(e);
            },
        };
        self.invoke(tenant, name, &module, params, fuel)
    }
}

/// The scope of one tenant inside the cache: what that tenant's module names
/// resolve to. Module resolution always happens inside such a scope — the
/// cache's key is the (tenant, name) pair — so a name never escapes its
/// tenant.
pub open spec fn tenant_scope(v: CacheView, tenant: Seq<char>) -> Map<Seq<char>, Seq<u8>> {
    Map::new(|n: Seq<char>| v.contains_key((tenant, n)), |n: Seq<char>| v[(tenant, n)])
}

/// Installing a module changes exactly the installing tenant's scope, by
/// exactly that module's name; every other tenant's scope is identical
/// before and after.
pub proof fn lemma_scope_isolation(
    v: CacheView,
    tenant: Seq<char>,
    name: Seq<char>,
    bytes: Seq<u8>,
    other: Seq<char>,
)
    requires
        other != tenant,
    ensures
        tenant_scope(v.insert((tenant, name), bytes), other) == tenant_scope(v, other),
        tenant_scope(v.insert((tenant, name), bytes), tenant) == tenant_scope(
            v,
            tenant,
        ).insert(name, bytes),
{
    assert(tenant_scope(v.insert((tenant, name), bytes), other) =~= tenant_scope(v, other));
    assert(tenant_scope(v.insert((tenant, name), bytes), tenant) =~= tenant_scope(
        v,
        tenant,
    ).insert(name, bytes));
}

/// Tenant isolation of the cache: however two tenants install modules under
/// the same name, each tenant's name keeps resolving to the bytes installed
/// for that tenant, never the other's.
pub proof fn lemma_tenant_isolation(
    v: CacheView,
    tenant_a: Seq<char>,
    tenant_b: Seq<char>,
    name: Seq<char>,
    bytes_a: Seq<u8>,
    bytes_b: Seq<u8>,
)
    requires
        tenant_a != tenant_b,
    ensures
        v.insert((tenant_a, name), bytes_a).insert((tenant_b, name), bytes_b)[(tenant_a, name)]
            == bytes_a,
        v.insert((tenant_a, name), bytes_a).insert((tenant_b, name), bytes_b)[(tenant_b, name)]
            == bytes_b,
{
}

} // verus!
