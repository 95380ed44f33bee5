//! End-to-end invocation behaviour: output round-trip, traps, timeouts,
//! encoding failures, and missing entry points.

use wasm_faas::errors::ErrorKind;
use wasm_faas::faas::{Faas, Fetch};

const FUEL: u64 = 100_000_000;

/// A module that writes "X" to its standard output and returns.
const WRITES_X: &str = r#"
(module
  (import "wasi_snapshot_preview1" "fd_write" (func $fd_write (param i32 i32 i32 i32) (result i32)))
  (memory (export "memory") 1)
  (data (i32.const 0) "X")
  (func (export "_start")
    (i32.store (i32.const 4) (i32.const 0))
    (i32.store (i32.const 8) (i32.const 1))
    (drop (call $fd_write (i32.const 1) (i32.const 4) (i32.const 1) (i32.const 12)))))
"#;

/// A module that writes "partial" and then hits an unreachable instruction.
const WRITES_THEN_TRAPS: &str = r#"
(module
  (import "wasi_snapshot_preview1" "fd_write" (func $fd_write (param i32 i32 i32 i32) (result i32)))
  (memory (export "memory") 1)
  (data (i32.const 0) "partial")
  (func (export "_start")
    (i32.store (i32.const 16) (i32.const 0))
    (i32.store (i32.const 20) (i32.const 7))
    (drop (call $fd_write (i32.const 1) (i32.const 16) (i32.const 1) (i32.const 28)))
    unreachable))
"#;

/// A module that traps immediately.
const TRAPS: &str = "(module (func (export \"_start\") unreachable))";

/// A module that never returns.
const LOOPS_FOREVER: &str = "(module (func (export \"_start\") (loop $l (br $l))))";

/// A module that writes one byte that is not valid UTF-8.
const WRITES_BAD_UTF8: &str = r#"
(module
  (import "wasi_snapshot_preview1" "fd_write" (func $fd_write (param i32 i32 i32 i32) (result i32)))
  (memory (export "memory") 1)
  (data (i32.const 0) "\ff")
  (func (export "_start")
    (i32.store (i32.const 4) (i32.const 0))
    (i32.store (i32.const 8) (i32.const 1))
    (drop (call $fd_write (i32.const 1) (i32.const 4) (i32.const 1) (i32.const 12)))))
"#;

/// A module without the conventional entry point.
const NO_ENTRY: &str = "(module (memory 1))";

fn fetch(wat: &str) -> Fetch {
    Fetch::Found(wat.as_bytes().to_vec())
}

#[test]
fn output_round_trip() {
    let mut faas = Faas::new();
    let out = faas
        .handle(
            &"alice".to_string(),
            &"writer".to_string(),
            &Vec::new(),
            fetch(WRITES_X),
            FUEL,
        )
        .unwrap();
    assert_eq!(out, "X");
}

#[test]
fn trap_yields_execution_trap_and_no_output() {
    let mut faas = Faas::new();
    let res = faas.handle(
        &"alice".to_string(),
        &"boom".to_string(),
        &Vec::new(),
        fetch(TRAPS),
        FUEL,
    );
    let err = res.unwrap_err();
    assert_eq!(err.kind, ErrorKind::ExecutionTrap);
    assert_eq!(err.tenant, "alice");
    assert_eq!(err.module, "boom");
}

#[test]
fn partial_output_is_discarded_on_trap() {
    let mut faas = Faas::new();
    let res = faas.handle(
        &"alice".to_string(),
        &"half".to_string(),
        &Vec::new(),
        fetch(WRITES_THEN_TRAPS),
        FUEL,
    );
    let err = res.unwrap_err();
    assert_eq!(err.kind, ErrorKind::ExecutionTrap);
}

#[test]
fn unbounded_module_times_out() {
    let mut faas = Faas::new();
    let res = faas.handle(
        &"alice".to_string(),
        &"spin".to_string(),
        &Vec::new(),
        fetch(LOOPS_FOREVER),
        1_000_000,
    );
    let err = res.unwrap_err();
    assert_eq!(err.kind, ErrorKind::ExecutionTimeout);
}

#[test]
fn invalid_output_is_an_encoding_error() {
    let mut faas = Faas::new();
    let res = faas.handle(
        &"alice".to_string(),
        &"garbled".to_string(),
        &Vec::new(),
        fetch(WRITES_BAD_UTF8),
        FUEL,
    );
    let err = res.unwrap_err();
    assert_eq!(err.kind, ErrorKind::OutputEncodingError);
}

#[test]
fn missing_entry_point_is_an_instantiation_error() {
    let mut faas = Faas::new();
    let res = faas.handle(
        &"alice".to_string(),
        &"inert".to_string(),
        &Vec::new(),
        fetch(NO_ENTRY),
        FUEL,
    );
    let err = res.unwrap_err();
    assert_eq!(err.kind, ErrorKind::InstantiationError);
}

#[test]
fn module_not_found_when_store_is_empty() {
    let mut faas = Faas::new();
    let res = faas.handle(
        &"alice".to_string(),
        &"absent".to_string(),
        &Vec::new(),
        Fetch::NotFound,
        FUEL,
    );
    let err = res.unwrap_err();
    assert_eq!(err.kind, ErrorKind::ModuleNotFound);
    assert_eq!(err.module, "absent");
}

#[test]
fn invalid_bytes_are_a_compile_error() {
    let mut faas = Faas::new();
    let res = faas.handle(
        &"alice".to_string(),
        &"junk".to_string(),
        &Vec::new(),
        Fetch::Found(vec![0x00, 0x61, 0x73, 0x6d, 0xff, 0xff]),
        FUEL,
    );
    let err = res.unwrap_err();
    assert_eq!(err.kind, ErrorKind::CompileError);
}

#[test]
fn repeated_invocations_of_one_module_stay_correct() {
    let mut faas = Faas::new();
    let first = faas
        .handle(
            &"alice".to_string(),
            &"writer".to_string(),
            &Vec::new(),
            fetch(WRITES_X),
            FUEL,
        )
        .unwrap();
    // the artifact is cached now; the store is never consulted again
    let second = faas
        .handle(
            &"alice".to_string(),
            &"writer".to_string(),
            &Vec::new(),
            Fetch::NotFound,
            FUEL,
        )
        .unwrap();
    assert_eq!(first, "X");
    assert_eq!(second, "X");
}
