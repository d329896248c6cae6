//! What the replies give: how each operation reads the reply to its request.
//!
//! The functions on a body take it as parsed JSON; those on a reply check the status where
//! the operation does, parse the body and hand it on.

use crate::json::{
    json_of, json_parse, jsons_of, parse_value, value_as_array, value_as_bool, value_as_str,
    value_as_u64, value_get, Json, JsonNumber,
};
use crate::point::{
    points_from, read_points, read_scored_points, scored_points_from, Point, PointView,
    ScoredPoint, ScoredPointView,
};
use crate::model::{each, Model};
use crate::text::{holds_text, same_text};
use crate::wire::{is_success, QdrantError, QdrantErrorView, Reply};
use serde_json::Value;
use vstd::prelude::*;
use vstd::string::*;

verus! {

/// The failure of a request whose reply came with this status and names none of its own.
pub open spec fn refused(status: u16) -> QdrantErrorView {
    QdrantErrorView::RequestFailed { status, server_status: None }
}

/// The HTTP status of a reply; 0 where there was none.
pub open spec fn status_of(reply: Reply) -> u16 {
    match reply {
        Reply::Failure(_) => 0,
        Reply::Response { status, .. } => status,
    }
}

/// The body of a reply as JSON. With `checked`, a status other than success fails the
/// request before the body is read.
pub open spec fn parsed(reply: Reply, checked: bool) -> Result<Json, QdrantErrorView> {
    match reply {
        Reply::Failure(message) => Err(QdrantErrorView::Transport(message@)),
        Reply::Response { status, body } => if checked && !is_success(status) {
            Err(refused(status))
        } else {
            match json_parse(body@) {
                Some(json) => Ok(json),
                None => Err(QdrantErrorView::Decode),
            }
        },
    }
}

/// The name that an entry of the listing gives.
pub open spec fn entry_name(entry: Json) -> Option<Seq<char>> {
    match entry.field("name"@) {
        Some(name) => name.text(),
        None => None,
    }
}

/// The names that the entries of a listing give, where each of them gives one.
pub open spec fn entry_names(entries: Seq<Json>) -> Option<Seq<Seq<char>>> {
    each(entries, |entry: Json| entry_name(entry))
}

/// The names under `result.collections` of a listing: those that the entries of that array
/// give under `name`, where each entry gives one.
pub open spec fn listed_names(body: Json) -> Option<Seq<Seq<char>>> {
    match body.field("result"@) {
        Some(result) => match result.field("collections"@) {
            Some(Json::Array(entries)) => entry_names(entries),
            _ => None,
        },
        None => None,
    }
}

/// The names of the collections in the body of a listing. The request has failed where the
/// body lacks them.
pub open spec fn names_in(body: Json, status: u16) -> Result<Seq<Seq<char>>, QdrantErrorView> {
    match listed_names(body) {
        Some(names) => Ok(names),
        None => Err(refused(status)),
    }
}

/// The boolean under `result.exists`. A body without `result`, or whose `result` does not
/// hold the boolean, fails to decode: it is never taken for `false`.
pub open spec fn exists_in(body: Json) -> Result<bool, QdrantErrorView> {
    match body.field("result"@) {
        Some(result) => match result.field("exists"@) {
            Some(Json::Bool(exists)) => Ok(exists),
            _ => Err(QdrantErrorView::Decode),
        },
        None => Err(QdrantErrorView::Decode),
    }
}

/// The boolean under `result`, with which the server acknowledges that it made or deleted
/// a collection.
pub open spec fn acknowledged_in(body: Json) -> Result<bool, QdrantErrorView> {
    match body.field("result"@) {
        Some(Json::Bool(done)) => Ok(done),
        _ => Err(QdrantErrorView::Decode),
    }
}

/// The number under `result.points_count`.
pub open spec fn count_in(body: Json) -> Result<u64, QdrantErrorView> {
    match body.field("result"@) {
        Some(result) => match result.field("points_count"@) {
            Some(Json::Number(JsonNumber::PosInt(count))) => Ok(count),
            _ => Err(QdrantErrorView::Decode),
        },
        None => Err(QdrantErrorView::Decode),
    }
}

/// The outcome that the status in a body tells of: success for `ok`, and a failed request
/// for any other status, which the error carries.
pub open spec fn upserted_in(body: Json, status: u16) -> Result<(), QdrantErrorView> {
    match body.field("status"@) {
        Some(Json::String(text)) => if text == "ok"@ {
            Ok(())
        } else {
            Err(QdrantErrorView::RequestFailed { status, server_status: Some(text) })
        },
        _ => Err(QdrantErrorView::Decode),
    }
}

/// The search results in a body: those of the array under `result`, and none where the
/// body has no `result`.
pub open spec fn results_in(body: Json) -> Result<Seq<ScoredPointView>, QdrantErrorView> {
    match body.field("result"@) {
        None => Ok(Seq::empty()),
        Some(Json::Array(items)) => match scored_points_from(items) {
            Some(points) => Ok(points),
            None => Err(QdrantErrorView::Decode),
        },
        Some(_) => Err(QdrantErrorView::Decode),
    }
}

/// The points of the array under `result`.
pub open spec fn points_in(body: Json) -> Result<Seq<PointView>, QdrantErrorView> {
    match body.field("result"@) {
        Some(Json::Array(items)) => match points_from(items) {
            Some(points) => Ok(points),
            None => Err(QdrantErrorView::Decode),
        },
        _ => Err(QdrantErrorView::Decode),
    }
}

/// The point under `result`.
pub open spec fn point_in(body: Json) -> Result<PointView, QdrantErrorView> {
    match body.field("result"@) {
        Some(point) => match PointView::from_json(point) {
            Some(point) => Ok(point),
            None => Err(QdrantErrorView::Decode),
        },
        None => Err(QdrantErrorView::Decode),
    }
}

/// What the reply to a listing gives: the names of the collections. The request fails on a
/// status other than success and on a body without the names under `result.collections`.
pub open spec fn listing(reply: Reply) -> Result<Seq<Seq<char>>, QdrantErrorView> {
    match parsed(reply, true) {
        Ok(body) => names_in(body, status_of(reply)),
        Err(error) => Err(error),
    }
}

/// Whether the listing in a reply names a collection.
pub open spec fn listed(reply: Reply, name: Seq<char>) -> Result<bool, QdrantErrorView> {
    match listing(reply) {
        Ok(names) => Ok(names.contains(name)),
        Err(error) => Err(error),
    }
}

/// What the reply to an existence check gives. The status is not looked at.
pub open spec fn existence(reply: Reply) -> Result<bool, QdrantErrorView> {
    match parsed(reply, false) {
        Ok(body) => exists_in(body),
        Err(error) => Err(error),
    }
}

/// What the reply to a creation or a deletion of a collection gives. The request fails on a
/// status other than success.
pub open spec fn acknowledged(reply: Reply) -> Result<bool, QdrantErrorView> {
    match parsed(reply, true) {
        Ok(body) => acknowledged_in(body),
        Err(error) => Err(error),
    }
}

/// The outcome of a creation or a deletion of a collection: it succeeds where the server
/// acknowledges with `true`, and the request has failed where it answers `false`.
pub open spec fn carried_out(reply: Reply) -> Result<(), QdrantErrorView> {
    match acknowledged(reply) {
        Ok(done) => if done {
            Ok(())
        } else {
            Err(refused(status_of(reply)))
        },
        Err(error) => Err(error),
    }
}

/// What the reply to a request for a collection's information gives: the number of its
/// points. The status is not looked at.
pub open spec fn counted(reply: Reply) -> Result<u64, QdrantErrorView> {
    match parsed(reply, false) {
        Ok(body) => count_in(body),
        Err(error) => Err(error),
    }
}

/// The outcome of an upsert. The request fails on a status other than success.
pub open spec fn upserted(reply: Reply) -> Result<(), QdrantErrorView> {
    match parsed(reply, true) {
        Ok(body) => upserted_in(body, status_of(reply)),
        Err(error) => Err(error),
    }
}

/// The outcome of a deletion of points: it succeeds on a status of success, whatever the
/// body holds.
pub open spec fn removed(reply: Reply) -> Result<(), QdrantErrorView> {
    match reply {
        Reply::Failure(message) => Err(QdrantErrorView::Transport(message@)),
        Reply::Response { status, .. } => if is_success(status) {
            Ok(())
        } else {
            Err(refused(status))
        },
    }
}

/// What the reply to a search gives. A search that could not be made, or that the server
/// refused by its status, finds nothing, and that is no error. An answer with a status of
/// success is read: it fails to decode where its body is no JSON, or where its `result` is
/// no array of search results.
pub open spec fn found(reply: Reply) -> Result<Seq<ScoredPointView>, QdrantErrorView> {
    match parsed(reply, true) {
        Ok(body) => results_in(body),
        Err(QdrantErrorView::Decode) => Err(QdrantErrorView::Decode),
        Err(_) => Ok(Seq::empty()),
    }
}

/// What the reply to a request for several points gives. The status is not looked at.
pub open spec fn fetched_all(reply: Reply) -> Result<Seq<PointView>, QdrantErrorView> {
    match parsed(reply, false) {
        Ok(body) => points_in(body),
        Err(error) => Err(error),
    }
}

/// What the reply to a request for one point gives. The status is not looked at.
pub open spec fn fetched(reply: Reply) -> Result<PointView, QdrantErrorView> {
    match parsed(reply, false) {
        Ok(body) => point_in(body),
        Err(error) => Err(error),
    }
}

/// Whether an HTTP status reports success.
pub fn success(status: u16) -> (r: bool)
    ensures
        r == is_success(status),
{
    200 <= status && status < 300
}

/// The HTTP status of a reply; 0 where there was none.
pub fn status(reply: &Reply) -> (r: u16)
    ensures
        r == status_of(*reply),
{
    match reply {
        Reply::Failure(_) => 0,
        Reply::Response { status, .. } => *status,
    }
}

fn refuse(status: u16) -> (r: QdrantError)
    ensures
        r@ == refused(status),
{
    QdrantError::RequestFailed { status, server_status: None }
}

/// Parses the body of a reply.
pub fn parse_reply(reply: &Reply, checked: bool) -> (r: Result<Value, QdrantError>)
    ensures
        r.model() == parsed(*reply, checked),
{
    match reply {
        Reply::Failure(message) => Err(QdrantError::Transport(message.clone())),
        Reply::Response { status, body } => {
            if checked && !success(*status) {
                Err(refuse(*status))
            } else {
                match parse_value(body.as_slice()) {
                    Ok(value) => Ok(value),
                    Err(_) => Err(QdrantError::Decode),
                }
            }
        },
    }
}

/// Reads the names of the collections from the body of a listing.
pub fn read_names(body: &Value, status: u16) -> (r: Result<Vec<String>, QdrantError>)
    ensures
        r.model() == names_in(json_of(*body), status),
{
    let result = match value_get(body, "result") {
        Some(result) => result,
        None => return Err(refuse(status)),
    };
    let collections = match value_get(result, "collections") {
        Some(collections) => collections,
        None => return Err(refuse(status)),
    };
    let entries = match value_as_array(collections) {
        Some(entries) => entries,
        None => return Err(refuse(status)),
    };
    let ghost given = jsons_of(entries@);
    let mut names: Vec<String> = Vec::new();
    let mut i: usize = 0;
    while i < entries.len()
        invariant
            i <= entries.len(),
            names@.len() == i,
            given == jsons_of(entries@),
            listed_names(json_of(*body)) == entry_names(given),
            forall|j: int| 0 <= j < i ==> entry_name(#[trigger] given[j]) == Some(names@[j]@),
        decreases entries.len() - i,
    {
        let name = match value_get(&entries[i], "name") {
            Some(name) => match value_as_str(name) {
                Some(text) => text.to_owned(),
                None => {
                    assert(entry_name(given[i as int]) is None);
                    return Err(refuse(status));
                },
            },
            None => {
                assert(entry_name(given[i as int]) is None);
                return Err(refuse(status));
            },
        };
        names.push(name);
        i += 1;
    }
    assert(entry_names(given) is Some);
    assert(names.model() =~= entry_names(given)->0);
    Ok(names)
}

/// Reads the answer to an existence check from its body.
pub fn read_exists(body: &Value) -> (r: Result<bool, QdrantError>)
    ensures
        r.model() == exists_in(json_of(*body)),
{
    let exists = match value_get(body, "result") {
        Some(result) => match value_get(result, "exists") {
            Some(exists) => value_as_bool(exists),
            None => None,
        },
        None => None,
    };
    match exists {
        Some(exists) => Ok(exists),
        None => Err(QdrantError::Decode),
    }
}

/// Reads the server's acknowledgement from a body.
pub fn read_acknowledged(body: &Value) -> (r: Result<bool, QdrantError>)
    ensures
        r.model() == acknowledged_in(json_of(*body)),
{
    match value_get(body, "result") {
        Some(result) => match value_as_bool(result) {
            Some(done) => Ok(done),
            None => Err(QdrantError::Decode),
        },
        None => Err(QdrantError::Decode),
    }
}

/// Reads the number of points from the body of a collection's information.
pub fn read_count(body: &Value) -> (r: Result<u64, QdrantError>)
    ensures
        r.model() == count_in(json_of(*body)),
{
    let count = match value_get(body, "result") {
        Some(result) => match value_get(result, "points_count") {
            Some(count) => value_as_u64(count),
            None => None,
        },
        None => None,
    };
    match count {
        Some(count) => Ok(count),
        None => Err(QdrantError::Decode),
    }
}

/// Reads the outcome of an upsert from the body of its reply.
pub fn read_upserted(body: &Value, status: u16) -> (r: Result<(), QdrantError>)
    ensures
        r.model() == upserted_in(json_of(*body), status),
{
    let named = match value_get(body, "status") {
        Some(named) => named,
        None => return Err(QdrantError::Decode),
    };
    match value_as_str(named) {
        Some(text) => if same_text(text, "ok") {
            Ok(())
        } else {
            Err(QdrantError::RequestFailed { status, server_status: Some(text.to_owned()) })
        },
        None => Err(QdrantError::Decode),
    }
}

/// Reads the search results from a body.
pub fn read_results(body: &Value) -> (r: Result<Vec<ScoredPoint>, QdrantError>)
    ensures
        r.model() == results_in(json_of(*body)),
{
    let result = match value_get(body, "result") {
        Some(result) => result,
        None => {
            let points: Vec<ScoredPoint> = Vec::new();
            assert(points.model() =~= Seq::<ScoredPointView>::empty());
            return Ok(points);
        },
    };
    match value_as_array(result) {
        Some(items) => match read_scored_points(items) {
            Some(points) => Ok(points),
            None => Err(QdrantError::Decode),
        },
        None => Err(QdrantError::Decode),
    }
}

/// Reads the points from the body of a reply that brings several.
pub fn read_points_in(body: &Value) -> (r: Result<Vec<Point>, QdrantError>)
    ensures
        r.model() == points_in(json_of(*body)),
{
    let points = match value_get(body, "result") {
        Some(result) => match value_as_array(result) {
            Some(items) => read_points(items),
            None => None,
        },
        None => None,
    };
    match points {
        Some(points) => Ok(points),
        None => Err(QdrantError::Decode),
    }
}

/// Reads the point from the body of a reply that brings one.
pub fn read_point_in(body: &Value) -> (r: Result<Point, QdrantError>)
    ensures
        r.model() == point_in(json_of(*body)),
{
    let point = match value_get(body, "result") {
        Some(result) => Point::from_json(result),
        None => None,
    };
    match point {
        Some(point) => Ok(point),
        None => Err(QdrantError::Decode),
    }
}

/// Reads the names of the collections from the reply to a listing.
pub fn read_listing(reply: &Reply) -> (r: Result<Vec<String>, QdrantError>)
    ensures
        r.model() == listing(*reply),
{
    match parse_reply(reply, true) {
        Ok(body) => read_names(&body, status(reply)),
        Err(error) => Err(error),
    }
}

/// Reads from the reply to a listing whether it names a collection.
pub fn read_listed(reply: &Reply, name: &str) -> (r: Result<bool, QdrantError>)
    ensures
        r.model() == listed(*reply, name@),
{
    match read_listing(reply) {
        Ok(names) => {
            assert(names.model() =~= names.deep_view());
            Ok(holds_text(&names, name))
        },
        Err(error) => Err(error),
    }
}

/// Reads the answer to an existence check from its reply.
pub fn read_existence(reply: &Reply) -> (r: Result<bool, QdrantError>)
    ensures
        r.model() == existence(*reply),
{
    match parse_reply(reply, false) {
        Ok(body) => read_exists(&body),
        Err(error) => Err(error),
    }
}

/// Reads the server's acknowledgement from the reply to a creation or a deletion of a
/// collection.
pub fn read_acknowledgement(reply: &Reply) -> (r: Result<bool, QdrantError>)
    ensures
        r.model() == acknowledged(*reply),
{
    match parse_reply(reply, true) {
        Ok(body) => read_acknowledged(&body),
        Err(error) => Err(error),
    }
}

/// Reads the number of points from the reply to a request for a collection's information.
pub fn read_counted(reply: &Reply) -> (r: Result<u64, QdrantError>)
    ensures
        r.model() == counted(*reply),
{
    match parse_reply(reply, false) {
        Ok(body) => read_count(&body),
        Err(error) => Err(error),
    }
}

/// Reads the outcome of an upsert from its reply.
pub fn read_upsert(reply: &Reply) -> (r: Result<(), QdrantError>)
    ensures
        r.model() == upserted(*reply),
{
    match parse_reply(reply, true) {
        Ok(body) => read_upserted(&body, status(reply)),
        Err(error) => Err(error),
    }
}

/// Reads the points from the reply to a request for several.
pub fn read_fetched_all(reply: &Reply) -> (r: Result<Vec<Point>, QdrantError>)
    ensures
        r.model() == fetched_all(*reply),
{
    match parse_reply(reply, false) {
        Ok(body) => read_points_in(&body),
        Err(error) => Err(error),
    }
}

/// Reads the point from the reply to a request for one.
pub fn read_fetched(reply: &Reply) -> (r: Result<Point, QdrantError>)
    ensures
        r.model() == fetched(*reply),
{
    match parse_reply(reply, false) {
        Ok(body) => read_point_in(&body),
        Err(error) => Err(error),
    }
}

/// Reads the outcome of a creation or a deletion of a collection from its reply.
pub fn read_carried_out(reply: &Reply) -> (r: Result<(), QdrantError>)
    ensures
        r.model() == carried_out(*reply),
{
    match read_acknowledgement(reply) {
        Ok(done) => if done {
            Ok(())
        } else {
            Err(refuse(status(reply)))
        },
        Err(error) => Err(error),
    }
}

/// Reads the outcome of a deletion of points from its reply.
pub fn read_removed(reply: &Reply) -> (r: Result<(), QdrantError>)
    ensures
        r.model() == removed(*reply),
{
    match reply {
        Reply::Failure(message) => Err(QdrantError::Transport(message.clone())),
        Reply::Response { status, .. } => if success(*status) {
            Ok(())
        } else {
            Err(refuse(*status))
        },
    }
}

/// Reads the search results from the reply to a search.
pub fn read_found(reply: &Reply) -> (r: Result<Vec<ScoredPoint>, QdrantError>)
    ensures
        r.model() == found(*reply),
{
    match parse_reply(reply, true) {
        Ok(body) => read_results(&body),
        Err(QdrantError::Decode) => Err(QdrantError::Decode),
        Err(_) => {
            let points: Vec<ScoredPoint> = Vec::new();
            assert(points.model() =~= Seq::<ScoredPointView>::empty());
            Ok(points)
        },
    }
}

/// A search that is answered by an empty `result` finds nothing, and that is no error.
pub proof fn search_of_empty_result(reply: Reply)
    requires
        parsed(reply, true) matches Ok(body) && body.field("result"@) == Some(
            Json::Array(Seq::empty()),
        ),
    ensures
        found(reply) matches Ok(points) && points == Seq::<ScoredPointView>::empty(),
{
    let items = Seq::<Json>::empty();
    assert(scored_points_from(items) is Some);
    assert(scored_points_from(items)->0 =~= Seq::<ScoredPointView>::empty());
}

/// A search that is answered by a body without `result` finds nothing, and that is no
/// error.
pub proof fn search_without_result(reply: Reply)
    requires
        parsed(reply, true) matches Ok(body) && body.field("result"@) is None,
    ensures
        found(reply) matches Ok(points) && points == Seq::<ScoredPointView>::empty(),
{
}

/// A search that could not be made, or that the server answered with a status other than
/// success, finds nothing, and that is no error.
pub proof fn search_unanswered_finds_nothing(reply: Reply)
    requires
        reply is Failure || !is_success(status_of(reply)),
    ensures
        found(reply) matches Ok(points) && points == Seq::<ScoredPointView>::empty(),
{
}

/// The only error of a search is a reply that fails to decode, and only an answer with a
/// status of success can fail so: a body that is no JSON, or a `result` that is no array of
/// search results.
pub proof fn search_fails_only_to_decode(reply: Reply)
    requires
        found(reply) is Err,
    ensures
        found(reply) matches Err(error) && error == QdrantErrorView::Decode,
        reply matches Reply::Response { status, body } && is_success(status) && (json_parse(
            body@,
        ) matches Some(json) ==> results_in(json) is Err),
{
}

/// An existence check never takes a body without the boolean under `result.exists` for
/// `false`: it gives the boolean that stands there, and else fails to decode.
pub proof fn existence_is_read_or_fails_to_decode(body: Json)
    ensures
        exists_in(body) matches Ok(exists) ==> (body.field("result"@) matches Some(result)
            && result.field("exists"@) == Some(Json::Bool(exists))),
        exists_in(body) matches Err(error) ==> error == QdrantErrorView::Decode,
        body.field("result"@) is None ==> exists_in(body) matches Err(_),
{
}

/// An upsert that the server answers with a status other than success fails the request
/// with that status, whatever the body holds.
pub proof fn upsert_refused(status: u16, body: Vec<u8>)
    requires
        !is_success(status),
    ensures
        upserted((Reply::Response { status, body })) matches Err(error) && error == refused(status),
{
}

/// An upsert succeeds only where the server answered with a status of success and a body
/// that names the status `ok`.
pub proof fn upsert_succeeds_on_ok_alone(reply: Reply)
    requires
        upserted(reply) is Ok,
    ensures
        reply matches Reply::Response { status, body } && is_success(status) && (json_parse(
            body@,
        ) matches Some(json) && json.field("status"@) == Some(Json::String("ok"@))),
{
}

} // verus!
