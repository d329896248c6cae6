//! Points and their JSON form.
//!
//! A point is written as an object with the members `id`, `vector` and `payload`; a search
//! result has `score` besides. An id is written bare, as a number or as a string. A vector
//! component is a JSON number and is kept as `serde_json` holds it.

use crate::json::{
    json_of, map_clone, map_insert, map_new, number_clone, number_of,
    value_as_array, value_as_number, value_as_object, value_as_str, value_as_u64,
    value_from_array, value_from_number, value_from_object, value_from_string, value_from_u64,
    value_get, value_is_null, value_null, jsons_of, Json, JsonNumber,
};
use crate::model::{each, Model};
use crate::text::{decimal, decimal_text};
use serde_json::{Number, Value};
use vstd::prelude::*;
use vstd::string::*;

verus! {

/// The identity of a point within its collection: a number or a text such as a UUID.
/// A number and a text are never the same id, whatever the text says.
#[derive(Clone, Debug, Eq)]
pub enum PointId {
    Uuid(String),
    Num(u64),
}

/// An id as a mathematical value.
pub enum PointIdView {
    Uuid(Seq<char>),
    Num(u64),
}

impl View for PointId {
    type V = PointIdView;

    open spec fn view(&self) -> PointIdView {
        match *self {
            PointId::Uuid(uuid) => PointIdView::Uuid(uuid@),
            PointId::Num(num) => PointIdView::Num(num),
        }
    }
}

impl Model for PointId {
    type M = PointIdView;

    open spec fn model(&self) -> PointIdView {
        self@
    }
}

impl PointIdView {
    /// The id as it stands in a path: the text itself, or the number in decimal.
    pub open spec fn text(self) -> Seq<char> {
        match self {
            PointIdView::Uuid(uuid) => uuid,
            PointIdView::Num(num) => decimal(num as nat),
        }
    }

    /// The JSON form of an id: a bare string or a bare number.
    pub open spec fn json(self) -> Json {
        match self {
            PointIdView::Uuid(uuid) => Json::String(uuid),
            PointIdView::Num(num) => Json::Number(JsonNumber::PosInt(num)),
        }
    }

    /// The id that a JSON value stands for: a string is a text id, an integer that is not
    /// negative a numeric one, and nothing else is an id.
    pub open spec fn from_json(json: Json) -> Option<PointIdView> {
        match json {
            Json::String(uuid) => Some(PointIdView::Uuid(uuid)),
            Json::Number(JsonNumber::PosInt(num)) => Some(PointIdView::Num(num)),
            _ => None,
        }
    }
}

impl PartialEq for PointId {
    fn eq(&self, other: &PointId) -> (r: bool) {
        match (self, other) {
            (PointId::Uuid(a), PointId::Uuid(b)) => *a == *b,
            (PointId::Num(a), PointId::Num(b)) => *a == *b,
            _ => false,
        }
    }
}

impl vstd::std_specs::cmp::PartialEqSpecImpl for PointId {
    open spec fn obeys_eq_spec() -> bool {
        true
    }

    open spec fn eq_spec(&self, other: &PointId) -> bool {
        self@ == other@
    }
}

impl From<u64> for PointId {
    fn from(num: u64) -> (r: PointId) {
        PointId::Num(num)
    }
}

impl vstd::std_specs::convert::FromSpecImpl<u64> for PointId {
    open spec fn obeys_from_spec() -> bool {
        true
    }

    open spec fn from_spec(num: u64) -> PointId {
        PointId::Num(num)
    }
}

impl From<String> for PointId {
    fn from(uuid: String) -> (r: PointId) {
        PointId::Uuid(uuid)
    }
}

impl vstd::std_specs::convert::FromSpecImpl<String> for PointId {
    open spec fn obeys_from_spec() -> bool {
        true
    }

    open spec fn from_spec(uuid: String) -> PointId {
        PointId::Uuid(uuid)
    }
}

impl PointId {
    /// The id as it stands in a path.
    pub fn to_string(&self) -> (r: String)
        ensures
            r@ == self@.text(),
    {
        match self {
            PointId::Uuid(uuid) => uuid.clone(),
            PointId::Num(num) => decimal_text(*num),
        }
    }

    /// Writes the id as JSON.
    pub fn to_json(&self) -> (r: Value)
        ensures
            json_of(r) == self@.json(),
    {
        match self {
            PointId::Uuid(uuid) => value_from_string(uuid.clone()),
            PointId::Num(num) => value_from_u64(*num),
        }
    }

    /// Reads an id from JSON.
    pub fn from_json(json: &Value) -> (r: Option<PointId>)
        ensures
            r.model() == PointIdView::from_json(json_of(*json)),
    {
        match value_as_str(json) {
            Some(uuid) => Some(PointId::Uuid(uuid.to_owned())),
            None => match value_as_u64(json) {
                Some(num) => Some(PointId::Num(num)),
                None => None,
            },
        }
    }
}

/// The number that a JSON value is.
pub open spec fn number_in(json: Json) -> Option<JsonNumber> {
    match json {
        Json::Number(number) => Some(number),
        _ => None,
    }
}

/// The JSON form of a vector: the array of its components.
pub open spec fn vector_json(vector: Seq<JsonNumber>) -> Json {
    Json::Array(vector.map_values(|component: JsonNumber| Json::Number(component)))
}

/// The vector that a JSON value stands for: an array of numbers.
pub open spec fn vector_from(json: Json) -> Option<Seq<JsonNumber>> {
    match json {
        Json::Array(items) => each(items, |item: Json| number_in(item)),
        _ => None,
    }
}

/// The JSON form of a payload: the object, or `null` for none.
pub open spec fn payload_json(payload: Option<Map<Seq<char>, Json>>) -> Json {
    match payload {
        Some(members) => Json::Object(members),
        None => Json::Null,
    }
}

/// The payload that a member stands for: none for a missing member and for `null`, the
/// members of an object, and `None` for any other value.
pub open spec fn payload_from(member: Option<Json>) -> Option<Option<Map<Seq<char>, Json>>> {
    match member {
        None => Some(None),
        Some(Json::Null) => Some(None),
        Some(Json::Object(members)) => Some(Some(members)),
        Some(_) => None,
    }
}

pub(crate) fn write_vector(vector: &[Number]) -> (r: Value)
    ensures
        json_of(r) == vector_json(vector.model()),
{
    let mut items: Vec<Value> = Vec::new();
    let mut i: usize = 0;
    while i < vector.len()
        invariant
            i <= vector.len(),
            items@.len() == i,
            forall|j: int| 0 <= j < i ==> json_of(#[trigger] items@[j]) == Json::Number(number_of(vector@[j])),
        decreases vector.len() - i,
    {
        items.push(value_from_number(number_clone(&vector[i])));
        i += 1;
    }
    assert(jsons_of(items@) =~= vector.model().map_values(
        |component: JsonNumber| Json::Number(component),
    ));
    value_from_array(items)
}

fn read_vector(json: &Value) -> (r: Option<Vec<Number>>)
    ensures
        r.model() == vector_from(json_of(*json)),
{
    let items = match value_as_array(json) {
        Some(items) => items,
        None => return None,
    };
    let ghost given = jsons_of(items@);
    let mut vector: Vec<Number> = Vec::new();
    let mut i: usize = 0;
    while i < items.len()
        invariant
            i <= items.len(),
            vector@.len() == i,
            given == jsons_of(items@),
            vector_from(json_of(*json)) == each(given, |item: Json| number_in(item)),
            forall|j: int| 0 <= j < i ==> number_in(#[trigger] given[j]) == Some(number_of(vector@[j])),
        decreases items.len() - i,
    {
        match value_as_number(&items[i]) {
            Some(number) => vector.push(number_clone(number)),
            None => {
                assert(number_in(given[i as int]) is None);
                return None;
            },
        }
        i += 1;
    }
    assert(vector_from(json_of(*json)) is Some);
    assert(vector.model() =~= vector_from(json_of(*json))->0);
    Some(vector)
}

fn write_payload(payload: &Option<serde_json::Map<String, Value>>) -> (r: Value)
    ensures
        json_of(r) == payload_json(payload.model()),
{
    match payload {
        Some(members) => value_from_object(map_clone(members)),
        None => value_null(),
    }
}

fn read_payload(member: Option<&Value>) -> (r: Option<Option<serde_json::Map<String, Value>>>)
    ensures
        r.model() == payload_from(member.model()),
{
    match member {
        None => Some(None),
        Some(json) => {
            if value_is_null(json) {
                Some(None)
            } else {
                match value_as_object(json) {
                    Some(members) => Some(Some(map_clone(members))),
                    None => None,
                }
            }
        },
    }
}

/// A point: a vector with an optional payload, under an id.
#[derive(Debug, PartialEq)]
pub struct Point {
    /// Id of the point
    pub id: PointId,
    /// The vector, component by component
    pub vector: Vec<Number>,
    /// Additional information along with the vector
    pub payload: Option<serde_json::Map<String, Value>>,
}

/// A point as a mathematical value.
pub struct PointView {
    pub id: PointIdView,
    pub vector: Seq<JsonNumber>,
    pub payload: Option<Map<Seq<char>, Json>>,
}

impl View for Point {
    type V = PointView;

    open spec fn view(&self) -> PointView {
        PointView {
            id: self.id@,
            vector: self.vector.model(),
            payload: self.payload.model(),
        }
    }
}

impl Model for Point {
    type M = PointView;

    open spec fn model(&self) -> PointView {
        self@
    }
}

impl PointView {
    /// The JSON form of a point.
    pub open spec fn json(self) -> Json {
        Json::Object(
            map![
                "id"@ => self.id.json(),
                "vector"@ => vector_json(self.vector),
                "payload"@ => payload_json(self.payload),
            ],
        )
    }

    /// The point that a JSON value stands for: an object with an id under `id`, an array of
    /// numbers under `vector`, and under `payload` an object, `null` or nothing. Other
    /// members are passed over.
    pub open spec fn from_json(json: Json) -> Option<PointView> {
        match (json.field("id"@), json.field("vector"@)) {
            (Some(id), Some(vector)) => match (
                PointIdView::from_json(id),
                vector_from(vector),
                payload_from(json.field("payload"@)),
            ) {
                (Some(id), Some(vector), Some(payload)) => Some(PointView { id, vector, payload }),
                _ => None,
            },
            _ => None,
        }
    }
}

impl Point {
    /// Writes the point as JSON.
    pub fn to_json(&self) -> (r: Value)
        ensures
            json_of(r) == self@.json(),
    {
        let mut members = map_new();
        map_insert(&mut members, "id".to_owned(), self.id.to_json());
        map_insert(&mut members, "vector".to_owned(), write_vector(self.vector.as_slice()));
        map_insert(&mut members, "payload".to_owned(), write_payload(&self.payload));
        value_from_object(members)
    }

    /// Reads a point from JSON.
    pub fn from_json(json: &Value) -> (r: Option<Point>)
        ensures
            r.model() == PointView::from_json(json_of(*json)),
    {
        let id = match value_get(json, "id") {
            Some(id) => id,
            None => return None,
        };
        let vector = match value_get(json, "vector") {
            Some(vector) => vector,
            None => return None,
        };
        let id = match PointId::from_json(id) {
            Some(id) => id,
            None => return None,
        };
        let vector = match read_vector(vector) {
            Some(vector) => vector,
            None => return None,
        };
        let payload = match read_payload(value_get(json, "payload")) {
            Some(payload) => payload,
            None => return None,
        };
        Some(Point { id, vector, payload })
    }
}

/// A point as a search returns it, with its score.
#[derive(Debug, PartialEq)]
pub struct ScoredPoint {
    /// Id of the point
    pub id: PointId,
    /// The vector, where the search was asked to return it
    pub vector: Option<Vec<Number>>,
    /// Additional information along with the vector
    pub payload: Option<serde_json::Map<String, Value>>,
    /// How near the point is to the query vector, by the collection's measure
    pub score: Number,
}

/// A search result as a mathematical value.
pub struct ScoredPointView {
    pub id: PointIdView,
    pub vector: Option<Seq<JsonNumber>>,
    pub payload: Option<Map<Seq<char>, Json>>,
    pub score: JsonNumber,
}

impl View for ScoredPoint {
    type V = ScoredPointView;

    open spec fn view(&self) -> ScoredPointView {
        ScoredPointView {
            id: self.id@,
            vector: self.vector.model(),
            payload: self.payload.model(),
            score: self.score.model(),
        }
    }
}

impl Model for ScoredPoint {
    type M = ScoredPointView;

    open spec fn model(&self) -> ScoredPointView {
        self@
    }
}

/// The JSON form of a vector that may be left out: the array, or `null` for none.
pub open spec fn optional_vector_json(vector: Option<Seq<JsonNumber>>) -> Json {
    match vector {
        Some(vector) => vector_json(vector),
        None => Json::Null,
    }
}

/// The vector that a member stands for, where it may be left out: none for a missing member
/// and for `null`, else the vector that the value stands for.
pub open spec fn optional_vector_from(member: Option<Json>) -> Option<Option<Seq<JsonNumber>>> {
    match member {
        None => Some(None),
        Some(Json::Null) => Some(None),
        Some(json) => match vector_from(json) {
            Some(vector) => Some(Some(vector)),
            None => None,
        },
    }
}

impl ScoredPointView {
    /// The JSON form of a search result.
    pub open spec fn json(self) -> Json {
        Json::Object(
            map![
                "id"@ => self.id.json(),
                "vector"@ => optional_vector_json(self.vector),
                "payload"@ => payload_json(self.payload),
                "score"@ => Json::Number(self.score),
            ],
        )
    }

    /// The search result that a JSON value stands for: an object with an id under `id` and a
    /// number under `score`; under `vector` an array of numbers, `null` or nothing; under
    /// `payload` an object, `null` or nothing. Other members are passed over.
    pub open spec fn from_json(json: Json) -> Option<ScoredPointView> {
        match (json.field("id"@), json.field("score"@)) {
            (Some(id), Some(score)) => match (
                PointIdView::from_json(id),
                optional_vector_from(json.field("vector"@)),
                payload_from(json.field("payload"@)),
                number_in(score),
            ) {
                (Some(id), Some(vector), Some(payload), Some(score)) => Some(
                    ScoredPointView { id, vector, payload, score },
                ),
                _ => None,
            },
            _ => None,
        }
    }
}

impl ScoredPoint {
    /// Writes the search result as JSON.
    pub fn to_json(&self) -> (r: Value)
        ensures
            json_of(r) == self@.json(),
    {
        let vector = match &self.vector {
            Some(vector) => write_vector(vector.as_slice()),
            None => value_null(),
        };
        let mut members = map_new();
        map_insert(&mut members, "id".to_owned(), self.id.to_json());
        map_insert(&mut members, "vector".to_owned(), vector);
        map_insert(&mut members, "payload".to_owned(), write_payload(&self.payload));
        map_insert(&mut members, "score".to_owned(), value_from_number(number_clone(&self.score)));
        value_from_object(members)
    }

    /// Reads a search result from JSON.
    pub fn from_json(json: &Value) -> (r: Option<ScoredPoint>)
        ensures
            r.model() == ScoredPointView::from_json(json_of(*json)),
    {
        let id = match value_get(json, "id") {
            Some(id) => id,
            None => return None,
        };
        let score = match value_get(json, "score") {
            Some(score) => score,
            None => return None,
        };
        let id = match PointId::from_json(id) {
            Some(id) => id,
            None => return None,
        };
        let vector = match value_get(json, "vector") {
            None => None,
            Some(vector) => {
                if value_is_null(vector) {
                    None
                } else {
                    match read_vector(vector) {
                        Some(vector) => Some(vector),
                        None => return None,
                    }
                }
            },
        };
        let payload = match read_payload(value_get(json, "payload")) {
            Some(payload) => payload,
            None => return None,
        };
        let score = match value_as_number(score) {
            Some(score) => number_clone(score),
            None => return None,
        };
        Some(ScoredPoint { id, vector, payload, score })
    }
}

/// The JSON form of a sequence of ids: the array of their forms.
pub open spec fn ids_json(ids: Seq<PointIdView>) -> Json {
    Json::Array(ids.map_values(|id: PointIdView| id.json()))
}

/// The JSON form of a sequence of points: the array of their forms.
pub open spec fn points_json(points: Seq<PointView>) -> Json {
    Json::Array(points.map_values(|point: PointView| point.json()))
}

/// The points that the elements of an array stand for, where each of them is a point.
pub open spec fn points_from(items: Seq<Json>) -> Option<Seq<PointView>> {
    each(items, |item: Json| PointView::from_json(item))
}

/// The search results that the elements of an array stand for, where each of them is one.
pub open spec fn scored_points_from(items: Seq<Json>) -> Option<Seq<ScoredPointView>> {
    each(items, |item: Json| ScoredPointView::from_json(item))
}

/// Writes ids as a JSON array.
pub fn write_ids(ids: &[PointId]) -> (r: Value)
    ensures
        json_of(r) == ids_json(ids.model()),
{
    let mut items: Vec<Value> = Vec::new();
    let mut i: usize = 0;
    while i < ids.len()
        invariant
            i <= ids.len(),
            items@.len() == i,
            forall|j: int| 0 <= j < i ==> json_of(#[trigger] items@[j]) == ids@[j]@.json(),
        decreases ids.len() - i,
    {
        items.push(ids[i].to_json());
        i += 1;
    }
    assert(jsons_of(items@) =~= ids.model().map_values(|id: PointIdView| id.json()));
    value_from_array(items)
}

/// Writes points as a JSON array.
pub fn write_points(points: &[Point]) -> (r: Value)
    ensures
        json_of(r) == points_json(points.model()),
{
    let mut items: Vec<Value> = Vec::new();
    let mut i: usize = 0;
    while i < points.len()
        invariant
            i <= points.len(),
            items@.len() == i,
            forall|j: int| 0 <= j < i ==> json_of(#[trigger] items@[j]) == points@[j]@.json(),
        decreases points.len() - i,
    {
        items.push(points[i].to_json());
        i += 1;
    }
    assert(jsons_of(items@) =~= points.model().map_values(|point: PointView| point.json()));
    value_from_array(items)
}

/// Reads the points of a JSON array; `None` where an element is no point.
pub fn read_points(items: &Vec<Value>) -> (r: Option<Vec<Point>>)
    ensures
        r.model() == points_from(jsons_of(items@)),
{
    let ghost given = jsons_of(items@);
    let mut points: Vec<Point> = Vec::new();
    let mut i: usize = 0;
    while i < items.len()
        invariant
            i <= items.len(),
            points@.len() == i,
            given == jsons_of(items@),
            forall|j: int| 0 <= j < i ==> PointView::from_json(#[trigger] given[j]) == Some(points@[j]@),
        decreases items.len() - i,
    {
        match Point::from_json(&items[i]) {
            Some(point) => points.push(point),
            None => {
                assert(PointView::from_json(given[i as int]) is None);
                return None;
            },
        }
        i += 1;
    }
    assert(points_from(given) is Some);
    assert(points.model() =~= points_from(given)->0);
    Some(points)
}

/// Reads the search results of a JSON array; `None` where an element is none.
pub fn read_scored_points(items: &Vec<Value>) -> (r: Option<Vec<ScoredPoint>>)
    ensures
        r.model() == scored_points_from(jsons_of(items@)),
{
    let ghost given = jsons_of(items@);
    let mut points: Vec<ScoredPoint> = Vec::new();
    let mut i: usize = 0;
    while i < items.len()
        invariant
            i <= items.len(),
            points@.len() == i,
            given == jsons_of(items@),
            forall|j: int| 0 <= j < i ==> ScoredPointView::from_json(#[trigger] given[j]) == Some(points@[j]@),
        decreases items.len() - i,
    {
        match ScoredPoint::from_json(&items[i]) {
            Some(point) => points.push(point),
            None => {
                assert(ScoredPointView::from_json(given[i as int]) is None);
                return None;
            },
        }
        i += 1;
    }
    assert(scored_points_from(given) is Some);
    assert(points.model() =~= scored_points_from(given)->0);
    Some(points)
}

/// An id comes back from its JSON form as it went in, a number as a number and a text as a
/// text.
pub proof fn id_round_trip(id: PointIdView)
    ensures
        PointIdView::from_json(id.json()) == Some(id),
{
}

/// A vector comes back from its JSON form as it went in.
pub proof fn vector_round_trip(vector: Seq<JsonNumber>)
    ensures
        vector_from(vector_json(vector)) == Some(vector),
{
    assert(vector_from(vector_json(vector)) is Some);
    assert(vector_from(vector_json(vector))->0 =~= vector);
}

/// A point comes back from its JSON form as it went in, whatever its id, its vector and its
/// payload are.
pub proof fn point_round_trip(point: PointView)
    ensures
        PointView::from_json(point.json()) == Some(point),
{
    reveal_strlit("id");
    reveal_strlit("vector");
    reveal_strlit("payload");
    assert("id"@.len() == 2 && "vector"@.len() == 6 && "payload"@.len() == 7);
    id_round_trip(point.id);
    vector_round_trip(point.vector);
}

/// The points of a batch come back from its JSON form as they went in, and in their order.
pub proof fn points_round_trip(points: Seq<PointView>)
    ensures
        points_json(points) matches Json::Array(items) && points_from(items) == Some(points),
{
    let items = points.map_values(|point: PointView| point.json());
    assert forall|i: int| 0 <= i < items.len() implies PointView::from_json(#[trigger] items[i])
        == Some(points[i]) by {
        point_round_trip(points[i]);
    }
    assert(points_from(items) is Some);
    assert(points_from(items)->0 =~= points);
}

/// A search result comes back from its JSON form as it went in.
pub proof fn scored_point_round_trip(point: ScoredPointView)
    ensures
        ScoredPointView::from_json(point.json()) == Some(point),
{
    reveal_strlit("id");
    reveal_strlit("vector");
    reveal_strlit("payload");
    reveal_strlit("score");
    assert("id"@.len() == 2 && "vector"@.len() == 6 && "payload"@.len() == 7 && "score"@.len() == 5);
    id_round_trip(point.id);
    if point.vector is Some {
        vector_round_trip(point.vector->0);
    }
}

} // verus!
