//! The compiled-module cache, scoped by tenant.
//!
//! A compiled artifact is an immutable, cheaply shareable handle; the cache
//! maps a (tenant, module name) pair to the artifact compiled from that
//! tenant's bytes. Keying by the pair keeps every tenant's namespace
//! separate: two tenants may use the same module name and never resolve to
//! each other's module.

use crate::engine::{clone_module, compile_bytes, engine_accepts};
use vstd::prelude::*;
use wasmtime::{Engine, Module};

verus! {

/// An immutable compiled artifact, together with the bytes it came from.
///
/// The byte sequence is ghost: it identifies the artifact in contracts —
/// which source a cache entry serves — without being carried at run time.
pub struct CompiledModule {
    pub module: Module,
    pub src: Ghost<Seq<u8>>,
}

impl CompiledModule {
    /// The raw bytes this artifact was compiled from.
    pub closed spec fn bytes(&self) -> Seq<u8> {
        self.src@
    }

    /// Compile raw bytes against the engine: an artifact exactly when the
    /// engine accepts the bytes, tagged with exactly those bytes. Kept
    /// inside the crate so that only engines of the library's one fixed
    /// configuration — the configuration `engine_accepts` speaks of — are
    /// ever handed in.
    pub(crate) fn compile(engine: &Engine, bytes: &Vec<u8>) -> (r: Option<CompiledModule>)
        ensures
            r is Some <==> engine_accepts(bytes@),
            r matches Some(cm) ==> cm.bytes() == bytes@,
    {
        match compile_bytes(engine, bytes) {
            Some(m) => Some(CompiledModule { module: m, src: Ghost(bytes@) }),
            None => None,
        }
    }

    /// A second handle to the same compiled artifact.
    pub fn duplicate(&self) -> (r: CompiledModule)
        ensures
            r.bytes() == self.bytes(),
    {
        CompiledModule { module: clone_module(&self.module), src: Ghost(self.src@) }
    }
}

/// One cache entry: a tenant's name for a module, and the artifact.
pub struct CacheEntry {
    pub tenant: String,
    pub name: String,
    pub module: CompiledModule,
}

/// The key under which an entry is visible: its tenant and its name there.
pub open spec fn entry_key(e: CacheEntry) -> (Seq<char>, Seq<char>) {
    (e.tenant@, e.name@)
}

/// The mathematical content of the cache: which bytes each (tenant, name)
/// pair resolves to.
pub type CacheView = Map<(Seq<char>, Seq<char>), Seq<u8>>;

/// The map held by a sequence of entries, later entries winning (they never
/// do: a well-formed cache has unique keys).
pub open spec fn cache_map(s: Seq<CacheEntry>) -> CacheView
    decreases s.len(),
{
    if s.len() == 0 {
        Map::empty()
    } else {
        cache_map(s.drop_last()).insert(entry_key(s.last()), s.last().module.bytes())
    }
}

/// No two entries share a (tenant, name) key.
pub open spec fn uniq_entries(s: Seq<CacheEntry>) -> bool {
    forall|i: int, j: int| 0 <= i < j < s.len() ==> entry_key(s[i]) != entry_key(s[j])
}

/// The keys of `cache_map` are exactly the keys of the entries.
pub proof fn lemma_cache_map_keys(s: Seq<CacheEntry>)
    ensures
        forall|k: (Seq<char>, Seq<char>)| #[trigger] cache_map(s).contains_key(k) <==> exists|i: int|
            0 <= i < s.len() && entry_key(s[i]) == k,
    decreases s.len(),
{
    if s.len() == 0 {
    } else {
        let h = s.drop_last();
        lemma_cache_map_keys(h);
        assert forall|k: (Seq<char>, Seq<char>)| #[trigger] cache_map(s).contains_key(k)
            <==> exists|i: int| 0 <= i < s.len() && entry_key(s[i]) == k by {
            if cache_map(s).contains_key(k) {
                assert(cache_map(s) == cache_map(h).insert(entry_key(s.last()), s.last().module.bytes()));
                if k == entry_key(s.last()) {
                    assert(entry_key(s[s.len() - 1]) == k);
                } else {
                    assert(cache_map(h).contains_key(k));
                    let w = choose|i: int| 0 <= i < h.len() && entry_key(h[i]) == k;
                    assert(h[w] == s[w]);
                    assert(entry_key(s[w]) == k);
                }
            }
            if exists|i: int| 0 <= i < s.len() && entry_key(s[i]) == k {
                let w = choose|i: int| 0 <= i < s.len() && entry_key(s[i]) == k;
                if w < s.len() - 1 {
                    assert(h[w] == s[w]);
                    assert(entry_key(h[w]) == k);
                    assert(cache_map(h).contains_key(k));
                }
                assert(cache_map(s) == cache_map(h).insert(
                    entry_key(s.last()),
                    s.last().module.bytes(),
                ));
            }
        }
    }
}

/// In a well-formed cache each entry's key resolves to that entry's bytes.
pub proof fn lemma_cache_map_values(s: Seq<CacheEntry>)
    requires
        uniq_entries(s),
    ensures
        forall|i: int| 0 <= i < s.len() ==> cache_map(s)[entry_key(#[trigger] s[i])]
            == s[i].module.bytes(),
    decreases s.len(),
{
    if s.len() == 0 {
    } else {
        let h = s.drop_last();
        assert forall|i: int, j: int| 0 <= i < j < h.len() implies entry_key(h[i])
            != entry_key(h[j]) by {
            assert(h[i] == s[i] && h[j] == s[j]);
        }
        lemma_cache_map_values(h);
        assert forall|i: int| 0 <= i < s.len() implies cache_map(s)[entry_key(s[i])]
            == s[i].module.bytes() by {
            if i < s.len() - 1 {
                assert(entry_key(s[i]) != entry_key(s[s.len() - 1]));
                assert(h[i] == s[i]);
                assert(cache_map(h)[entry_key(h[i])] == h[i].module.bytes());
            }
        }
    }
}

/// The tenant-scoped compiled-module cache.
pub struct ModuleCache {
    entries: Vec<CacheEntry>,
}

impl ModuleCache {
    /// What the cache resolves: (tenant, name) to compiled bytes.
    pub closed spec fn view(&self) -> CacheView {
        cache_map(self.entries@)
    }

    /// Well-formedness: one artifact per (tenant, name) key.
    pub closed spec fn wf(&self) -> bool {
        uniq_entries(self.entries@)
    }

    /// An empty cache: every tenant starts with a cold namespace.
    pub fn new() -> (r: ModuleCache)
        ensures
            r.wf(),
            r.view() == Map::<(Seq<char>, Seq<char>), Seq<u8>>::empty(),
    {
        ModuleCache { entries: Vec::new() }
    }

    /// Look a module up in the tenant's namespace: a handle to the cached
    /// artifact exactly when the pair is cached, and to the cached bytes'
    /// artifact at that.
    pub fn find(&self, tenant: &String, name: &String) -> (r: Option<CompiledModule>)
        requires
            self.wf(),
        ensures
            r is Some <==> self.view().contains_key((tenant@, name@)),
            r matches Some(cm) ==> cm.bytes() == self.view()[(tenant@, name@)],
    {
        let ghost k = (tenant@, name@);
        let mut j: usize = 0;
        while j < self.entries.len() && !(self.entries[j].tenant == *tenant
            && self.entries[j].name == *name)
            invariant
                j <= self.entries.len(),
                forall|jj: int| 0 <= jj < j ==> entry_key(self.entries@[jj]) != k,
                k == (tenant@, name@),
            decreases self.entries.len() - j,
        {
            j += 1;
        }
        proof {
            lemma_cache_map_keys(self.entries@);
        }
        if j < self.entries.len() {
            proof {
                assert(entry_key(self.entries@[j as int]) == k);
                lemma_cache_map_values(self.entries@);
            }
            Some(self.entries[j].module.duplicate())
        } else {
            proof {
                assert(!(exists|i: int| 0 <= i < self.entries@.len()
                    && entry_key(self.entries@[i]) == k));
            }
            None
        }
    }

    /// Add a freshly compiled artifact under a (tenant, name) pair that is
    /// not yet cached. Every other pair resolves as before.
    pub fn add(&mut self, tenant: &String, name: &String, module: CompiledModule)
        requires
            old(self).wf(),
            !old(self).view().contains_key((tenant@, name@)),
        ensures
            final(self).wf(),
            final(self).view() == old(self).view().insert(
                (tenant@, name@),
                module.bytes(),
            ),
    {
        let ghost k = (tenant@, name@);
        let ghost oldv = self.entries@;
        let ghost b = module.bytes();
        let e = CacheEntry { tenant: tenant.clone(), name: name.clone(), module };
        self.entries.push(e);
        proof {
            lemma_cache_map_keys(oldv);
            assert(self.entries@.drop_last() =~= oldv);
            assert(entry_key(self.entries@.last()) == k);
            assert forall|i: int, j: int| 0 <= i < j < self.entries@.len() implies entry_key(
                self.entries@[i],
            ) != entry_key(self.entries@[j]) by {
                if j < self.entries@.len() - 1 {
                    assert(self.entries@[i] == oldv[i] && self.entries@[j] == oldv[j]);
                } else {
                    assert(self.entries@[i] == oldv[i]);
                    assert(entry_key(self.entries@[j]) == k);
                }
            }
        }
    }
}

} // verus!
