//! The environment-table builder: one entry per key, first position kept,
//! last write wins.

use wasm_faas::context::build_env;

fn pairs(kv: &[(&str, &str)]) -> Vec<(String, String)> {
    kv.iter().map(|(k, v)| (k.to_string(), v.to_string())).collect()
}

#[test]
fn distinct_keys_keep_their_order_and_values() {
    let table = build_env(&pairs(&[("A", "1"), ("B", "2"), ("C", "3")]));
    assert_eq!(table, pairs(&[("A", "1"), ("B", "2"), ("C", "3")]));
}

#[test]
fn a_repeated_key_keeps_its_first_position_with_the_last_value() {
    let table = build_env(&pairs(&[("A", "1"), ("B", "2"), ("A", "3")]));
    assert_eq!(table, pairs(&[("A", "3"), ("B", "2")]));
}

#[test]
fn a_key_written_three_times_holds_the_final_value() {
    let table = build_env(&pairs(&[("K", "1"), ("K", "2"), ("K", "3")]));
    assert_eq!(table, pairs(&[("K", "3")]));
}

#[test]
fn no_parameters_give_an_empty_table() {
    let table = build_env(&Vec::new());
    assert!(table.is_empty());
}
