use qdrant::params::{
    write_creation_params, write_removal_params, write_search_params, write_selection_params,
    write_upsert_params,
};
use qdrant::{Point, PointId};
use serde_json::{Number, Value};

fn expected(input: &str) -> Value {
    serde_json::from_str(input).unwrap()
}

fn double(x: f64) -> Number {
    Number::from_f64(x).unwrap()
}

#[test]
fn creation_params_name_size_distance_and_disk() {
    assert_eq!(
        write_creation_params(4),
        expected(r#"{"vectors":{"size":4,"distance":"Cosine","on_disk":true}}"#)
    );
    assert_eq!(
        write_creation_params(u32::MAX),
        expected(r#"{"vectors":{"size":4294967295,"distance":"Cosine","on_disk":true}}"#)
    );
    assert_eq!(
        write_creation_params(0),
        expected(r#"{"vectors":{"size":0,"distance":"Cosine","on_disk":true}}"#)
    );
}

#[test]
fn upsert_params_hold_the_points() {
    assert_eq!(write_upsert_params(&[]), expected(r#"{"points":[]}"#));
    let points = vec![Point { id: PointId::Num(9), vector: vec![double(0.5)], payload: None }];
    assert_eq!(
        write_upsert_params(&points),
        expected(r#"{"points":[{"id":9,"vector":[0.5],"payload":null}]}"#)
    );
}

#[test]
fn selection_params_ask_for_payload_and_vector() {
    assert_eq!(
        write_selection_params(&[PointId::Num(1), PointId::Num(2)]),
        expected(r#"{"ids":[1,2],"with_payload":true,"with_vector":true}"#)
    );
    assert_eq!(
        write_selection_params(&[]),
        expected(r#"{"ids":[],"with_payload":true,"with_vector":true}"#)
    );
}

#[test]
fn removal_params_hold_the_ids() {
    assert_eq!(
        write_removal_params(&[PointId::Num(1), PointId::Uuid("four".to_string())]),
        expected(r#"{"points":[1,"four"]}"#)
    );
}

#[test]
fn search_params_with_the_default_threshold() {
    let params = write_search_params(&[double(0.5), double(0.25)], 2, None);
    assert_eq!(
        params,
        expected(
            r#"{"vector":[0.5,0.25],"limit":2,"with_payload":true,"with_vector":true,"score_threshold":0.0}"#
        )
    );
    assert!(params["score_threshold"].is_f64());
    assert_eq!(params["score_threshold"].as_f64().map(f64::to_bits), Some(0));
}

#[test]
fn search_params_with_a_threshold() {
    let threshold = double(0.5);
    assert_eq!(
        write_search_params(&[], u64::MAX, Some(&threshold)),
        expected(
            r#"{"vector":[],"limit":18446744073709551615,"with_payload":true,"with_vector":true,"score_threshold":0.5}"#
        )
    );
    let whole = Number::from(1u64);
    assert_eq!(
        write_search_params(&[], 1, Some(&whole))["score_threshold"],
        expected("1")
    );
}
