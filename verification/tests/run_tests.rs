//! Classification of run outcomes, taken on its own.

use wasm_faas::engine::RunFault;
use wasm_faas::errors::ErrorKind;
use wasm_faas::faas::finish_run;

fn ids() -> (String, String) {
    ("alice".to_string(), "mod".to_string())
}

#[test]
fn each_fault_maps_to_its_error_kind() {
    let (t, n) = ids();
    let cases = [
        (RunFault::Instantiation, ErrorKind::InstantiationError),
        (RunFault::Trap, ErrorKind::ExecutionTrap),
        (RunFault::Timeout, ErrorKind::ExecutionTimeout),
    ];
    for (fault, kind) in cases {
        let err = match finish_run(Err(fault), &t, &n) {
            Err(e) => e,
            Ok(_) => panic!("a fault must not yield output"),
        };
        assert_eq!(err.kind, kind);
        assert_eq!(err.tenant, "alice");
        assert_eq!(err.module, "mod");
    }
}

#[test]
fn captured_bytes_come_back_as_text() {
    let (t, n) = ids();
    let out = finish_run(Ok(vec![b'X']), &t, &n).unwrap();
    assert_eq!(out, "X");
}

#[test]
fn bytes_that_are_not_text_are_an_encoding_error() {
    let (t, n) = ids();
    let err = match finish_run(Ok(vec![0xff, 0xfe]), &t, &n) {
        Err(e) => e,
        Ok(_) => panic!("invalid bytes must not decode"),
    };
    assert_eq!(err.kind, ErrorKind::OutputEncodingError);
}

#[test]
fn empty_output_is_empty_text() {
    let (t, n) = ids();
    let out = finish_run(Ok(Vec::new()), &t, &n).unwrap();
    assert_eq!(out, "");
}
