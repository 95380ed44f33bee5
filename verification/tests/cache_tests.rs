//! The compiled-module cache: hits, misses, and what gets cached when.

use wasm_faas::errors::ErrorKind;
use wasm_faas::faas::{Faas, Fetch};

const EMPTY_START: &str = "(module (func (export \"_start\")))";

#[test]
fn second_request_is_served_without_the_store() {
    let mut faas = Faas::new();
    let tenant = "alice".to_string();
    let name = "quiet".to_string();
    assert!(faas.cached_module(&tenant, &name).is_none());
    let first = faas.get_or_compile(&tenant, &name, Fetch::Found(EMPTY_START.as_bytes().to_vec()));
    assert!(first.is_ok());
    // the artifact is cached: the hit path needs no store answer at all
    assert!(faas.cached_module(&tenant, &name).is_some());
    // and get_or_compile succeeds even when the store would now say no
    let second = faas.get_or_compile(&tenant, &name, Fetch::NotFound);
    assert!(second.is_ok());
}

#[test]
fn a_rejected_module_is_not_cached_negatively() {
    let mut faas = Faas::new();
    let tenant = "alice".to_string();
    let name = "flaky".to_string();
    let bad = faas.get_or_compile(&tenant, &name, Fetch::Found(vec![1, 2, 3]));
    let err = match bad {
        Err(e) => e,
        Ok(_) => panic!("expected a compile error"),
    };
    assert_eq!(err.kind, ErrorKind::CompileError);
    assert!(faas.cached_module(&tenant, &name).is_none());
    // the next request may succeed with good bytes
    let good = faas.get_or_compile(&tenant, &name, Fetch::Found(EMPTY_START.as_bytes().to_vec()));
    assert!(good.is_ok());
}

#[test]
fn missing_modules_are_reported_per_tenant_and_name() {
    let mut faas = Faas::new();
    let res = faas.get_or_compile(&"bob".to_string(), &"ghost".to_string(), Fetch::NotFound);
    let err = match res {
        Err(e) => e,
        Ok(_) => panic!("expected a not-found error"),
    };
    assert_eq!(err.kind, ErrorKind::ModuleNotFound);
    assert_eq!(err.tenant, "bob");
    assert_eq!(err.module, "ghost");
}

#[test]
fn tenants_have_separate_namespaces_in_the_cache() {
    let mut faas = Faas::new();
    let name = "shared-name".to_string();
    let alice = "alice".to_string();
    let bob = "bob".to_string();
    let cached = faas.get_or_compile(&alice, &name, Fetch::Found(EMPTY_START.as_bytes().to_vec()));
    assert!(cached.is_ok());
    // alice's entry is invisible under bob's namespace
    assert!(faas.cached_module(&bob, &name).is_none());
    assert!(faas.cached_module(&alice, &name).is_some());
}
