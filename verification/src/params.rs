//! The bodies of the requests.

use crate::json::{
    json_of, map_insert, map_new, number_clone, number_of, number_zero, value_from_bool, value_from_number, value_from_object, value_from_string, value_from_u64,
    Json, JsonNumber,
};
use crate::model::Model;
use crate::point::{
    ids_json, points_json, vector_json, write_ids, write_points,
    write_vector, Point, PointId, PointIdView, PointView,
};
use serde_json::{Number, Value};
use vstd::prelude::*;
use vstd::string::*;

verus! {

/// The settings with which a collection is made: vectors of the given size, compared by
/// cosine and kept on disk.
pub open spec fn creation_params(size: u32) -> Json {
    Json::Object(
        map![
            "vectors"@ => Json::Object(
                map![
                    "size"@ => Json::Number(JsonNumber::PosInt(size as u64)),
                    "distance"@ => Json::String("Cosine"@),
                    "on_disk"@ => Json::Bool(true),
                ],
            ),
        ],
    )
}

/// The body of an upsert: the points, all in one batch.
pub open spec fn upsert_params(points: Seq<PointView>) -> Json {
    Json::Object(map!["points"@ => points_json(points)])
}

/// The body of a request for points by id, with their payloads and vectors.
pub open spec fn selection_params(ids: Seq<PointIdView>) -> Json {
    Json::Object(
        map![
            "ids"@ => ids_json(ids),
            "with_payload"@ => Json::Bool(true),
            "with_vector"@ => Json::Bool(true),
        ],
    )
}

/// The body of a deletion of points by id.
pub open spec fn removal_params(ids: Seq<PointIdView>) -> Json {
    Json::Object(map!["points"@ => ids_json(ids)])
}

/// The score threshold of a search: the one given, or zero.
pub open spec fn threshold_or_zero(score_threshold: Option<&Number>) -> JsonNumber {
    match score_threshold {
        Some(threshold) => number_of(*threshold),
        None => JsonNumber::Float(0),
    }
}

/// The body of a search: the query vector, the limit and the threshold; payloads and
/// vectors are always asked for.
pub open spec fn search_params(vector: Seq<JsonNumber>, limit: u64, threshold: JsonNumber) -> Json {
    Json::Object(
        map![
            "vector"@ => vector_json(vector),
            "limit"@ => Json::Number(JsonNumber::PosInt(limit)),
            "with_payload"@ => Json::Bool(true),
            "with_vector"@ => Json::Bool(true),
            "score_threshold"@ => Json::Number(threshold),
        ],
    )
}

/// Writes the settings with which a collection is made.
pub fn write_creation_params(size: u32) -> (r: Value)
    ensures
        json_of(r) == creation_params(size),
{
    let mut vectors = map_new();
    map_insert(&mut vectors, "size".to_owned(), value_from_u64(size as u64));
    map_insert(&mut vectors, "distance".to_owned(), value_from_string("Cosine".to_owned()));
    map_insert(&mut vectors, "on_disk".to_owned(), value_from_bool(true));
    let mut params = map_new();
    map_insert(&mut params, "vectors".to_owned(), value_from_object(vectors));
    value_from_object(params)
}

/// Writes the body of an upsert.
pub fn write_upsert_params(points: &[Point]) -> (r: Value)
    ensures
        json_of(r) == upsert_params(points.model()),
{
    let mut params = map_new();
    map_insert(&mut params, "points".to_owned(), write_points(points));
    value_from_object(params)
}

/// Writes the body of a request for points by id.
pub fn write_selection_params(ids: &[PointId]) -> (r: Value)
    ensures
        json_of(r) == selection_params(ids.model()),
{
    let mut params = map_new();
    map_insert(&mut params, "ids".to_owned(), write_ids(ids));
    map_insert(&mut params, "with_payload".to_owned(), value_from_bool(true));
    map_insert(&mut params, "with_vector".to_owned(), value_from_bool(true));
    value_from_object(params)
}

/// Writes the body of a deletion of points by id.
pub fn write_removal_params(ids: &[PointId]) -> (r: Value)
    ensures
        json_of(r) == removal_params(ids.model()),
{
    let mut params = map_new();
    map_insert(&mut params, "points".to_owned(), write_ids(ids));
    value_from_object(params)
}

/// Writes the body of a search.
pub fn write_search_params(vector: &[Number], limit: u64, score_threshold: Option<&Number>) -> (r: Value)
    ensures
        json_of(r) == search_params(vector.model(), limit, threshold_or_zero(score_threshold)),
{
    let threshold = match score_threshold {
        Some(threshold) => number_clone(threshold),
        None => number_zero(),
    };
    let mut params = map_new();
    map_insert(&mut params, "vector".to_owned(), write_vector(vector));
    map_insert(&mut params, "limit".to_owned(), value_from_u64(limit));
    map_insert(&mut params, "with_payload".to_owned(), value_from_bool(true));
    map_insert(&mut params, "with_vector".to_owned(), value_from_bool(true));
    map_insert(&mut params, "score_threshold".to_owned(), value_from_number(threshold));
    value_from_object(params)
}

} // verus!
