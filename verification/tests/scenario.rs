use qdrant::{Method, Point, PointId, Qdrant, QdrantError, Reply, Request, ScoredPoint, Step};
use serde_json::{Number, Value};

const BASE: &str = "http://mock:6333";

struct Collection {
    name: String,
    size: usize,
    points: Vec<Point>,
}

/// A server that keeps its collections in memory and answers as the database does.
struct Server {
    collections: Vec<Collection>,
    seen: Vec<Request>,
}

fn object(members: Vec<(&str, Value)>) -> Value {
    let mut map = serde_json::Map::new();
    for (key, value) in members {
        map.insert(key.to_string(), value);
    }
    Value::Object(map)
}

fn answer(status: u16, body: Value) -> Reply {
    Reply::Response { status, body: serde_json::to_vec(&body).unwrap() }
}

fn done(result: Value) -> Reply {
    answer(200, object(vec![("result", result), ("status", Value::from("ok")), ("time", Value::from(0u64))]))
}

fn error(status: u16, message: &str) -> Reply {
    answer(status, object(vec![("status", object(vec![("error", Value::from(message))]))]))
}

fn components(vector: &[Number]) -> Vec<f64> {
    vector.iter().map(|n| n.as_f64().unwrap()).collect()
}

fn copy(point: &Point) -> Point {
    Point::from_json(&point.to_json()).unwrap()
}

impl Server {
    fn new() -> Server {
        Server { collections: Vec::new(), seen: Vec::new() }
    }

    fn find(&mut self, name: &str) -> Option<&mut Collection> {
        self.collections.iter_mut().find(|c| c.name == name)
    }

    fn count(&self, method: Method, url: &str) -> usize {
        self.seen.iter().filter(|r| r.method == method && r.url == url).count()
    }

    fn handle(&mut self, request: &Request) -> Reply {
        self.seen.push(request.clone());
        let path = match request.url.strip_prefix(BASE) {
            Some(path) => path.to_string(),
            None => return Reply::Failure(format!("no route to {}", request.url)),
        };
        let parts: Vec<&str> = path.trim_start_matches('/').split('/').collect();
        let body: Value = match &request.body {
            Some(bytes) => serde_json::from_slice(bytes).unwrap(),
            None => Value::Null,
        };
        match (request.method, parts.as_slice()) {
            (Method::Get, ["collections"]) => {
                let names = self
                    .collections
                    .iter()
                    .map(|c| object(vec![("name", Value::from(c.name.as_str()))]))
                    .collect();
                done(object(vec![("collections", Value::Array(names))]))
            }
            (Method::Get, ["collections", name]) => match self.find(name) {
                Some(c) => done(object(vec![
                    ("status", Value::from("green")),
                    ("points_count", Value::from(c.points.len() as u64)),
                ])),
                None => error(404, "Not found"),
            },
            (Method::Get, ["collections", name, "exists"]) => {
                let exists = self.find(name).is_some();
                done(object(vec![("exists", Value::Bool(exists))]))
            }
            (Method::Put, ["collections", name]) => {
                if self.find(name).is_some() {
                    return error(409, "Collection already exists");
                }
                let size = body["vectors"]["size"].as_u64().unwrap() as usize;
                assert_eq!(body["vectors"]["distance"], Value::from("Cosine"));
                self.collections.push(Collection { name: name.to_string(), size, points: Vec::new() });
                done(Value::Bool(true))
            }
            (Method::Delete, ["collections", name]) => {
                let before = self.collections.len();
                self.collections.retain(|c| c.name != *name);
                done(Value::Bool(self.collections.len() < before))
            }
            (Method::Put, ["collections", name, "points?wait=true"]) => {
                let collection = match self.find(name) {
                    Some(collection) => collection,
                    None => return error(404, "Not found"),
                };
                let mut points = Vec::new();
                for item in body["points"].as_array().unwrap() {
                    let point = Point::from_json(item).unwrap();
                    if point.vector.len() != collection.size {
                        return error(400, "Wrong input: Vector dimension error");
                    }
                    points.push(point);
                }
                for point in points {
                    collection.points.retain(|p| p.id != point.id);
                    collection.points.push(point);
                }
                done(object(vec![("operation_id", Value::from(1u64)), ("status", Value::from("completed"))]))
            }
            (Method::Get, ["collections", name, "points", id]) => {
                let collection = match self.find(name) {
                    Some(collection) => collection,
                    None => return error(404, "Not found"),
                };
                match collection.points.iter().find(|p| p.id.to_string() == *id) {
                    Some(point) => done(point.to_json()),
                    None => error(404, "Not found"),
                }
            }
            (Method::Post, ["collections", name, "points"]) => {
                let collection = match self.find(name) {
                    Some(collection) => collection,
                    None => return error(404, "Not found"),
                };
                assert_eq!(body["with_payload"], Value::Bool(true));
                assert_eq!(body["with_vector"], Value::Bool(true));
                let mut found = Vec::new();
                for id in body["ids"].as_array().unwrap() {
                    let id = PointId::from_json(id).unwrap();
                    if let Some(point) = collection.points.iter().find(|p| p.id == id) {
                        found.push(point.to_json());
                    }
                }
                done(Value::Array(found))
            }
            (Method::Post, ["collections", name, "points", "delete?wait=true"]) => {
                let collection = match self.find(name) {
                    Some(collection) => collection,
                    None => return error(404, "Not found"),
                };
                for id in body["points"].as_array().unwrap() {
                    let id = PointId::from_json(id).unwrap();
                    collection.points.retain(|p| p.id != id);
                }
                done(object(vec![("operation_id", Value::from(2u64)), ("status", Value::from("completed"))]))
            }
            (Method::Post, ["collections", name, "points", "search"]) => {
                let collection = match self.find(name) {
                    Some(collection) => collection,
                    None => return error(404, "Not found"),
                };
                assert_eq!(body["with_payload"], Value::Bool(true));
                assert_eq!(body["with_vector"], Value::Bool(true));
                let query: Vec<f64> =
                    body["vector"].as_array().unwrap().iter().map(|v| v.as_f64().unwrap()).collect();
                if query.len() != collection.size {
                    return error(400, "Wrong input: Vector dimension error");
                }
                let limit = body["limit"].as_u64().unwrap() as usize;
                let threshold = body["score_threshold"].as_f64().unwrap();
                let mut scored: Vec<(f64, &Point)> = collection
                    .points
                    .iter()
                    .map(|p| (components(&p.vector).iter().zip(&query).map(|(a, b)| a * b).sum::<f64>(), p))
                    .filter(|(score, _)| *score >= threshold)
                    .collect();
                scored.sort_by(|a, b| b.0.partial_cmp(&a.0).unwrap());
                let results = scored
                    .into_iter()
                    .take(limit)
                    .map(|(score, p)| {
                        let p = copy(p);
                        ScoredPoint {
                            id: p.id,
                            vector: Some(p.vector),
                            payload: p.payload,
                            score: Number::from_f64(score).unwrap(),
                        }
                        .to_json()
                    })
                    .collect();
                done(Value::Array(results))
            }
            _ => error(404, "Not found"),
        }
    }
}

/// Runs an operation against the server: sends what it asks to send until it has ended.
fn run<T>(server: &mut Server, mut operation: impl FnMut(&[Reply]) -> Step<T>) -> Result<T, QdrantError> {
    let mut replies = Vec::new();
    loop {
        match operation(&replies) {
            Step::Send(request) => replies.push(server.handle(&request)),
            Step::Done(result) => return Ok(result),
            Step::Failed(error) => return Err(error),
        }
    }
}

fn client() -> Qdrant {
    Qdrant::new_with_url(BASE.to_string())
}

fn vector(components: [f32; 4]) -> Vec<Number> {
    components.iter().map(|x| Number::from_f64(*x as f64).unwrap()).collect()
}

fn city(name: &str) -> Option<serde_json::Map<String, Value>> {
    let mut payload = serde_json::Map::new();
    payload.insert("city".to_string(), Value::from(name));
    Some(payload)
}

fn six_points() -> Vec<Point> {
    vec![
        Point { id: PointId::Num(1), vector: vector([0.05, 0.61, 0.76, 0.74]), payload: city("Berlin") },
        Point { id: PointId::Num(2), vector: vector([0.19, 0.81, 0.75, 0.11]), payload: city("London") },
        Point { id: PointId::Num(3), vector: vector([0.36, 0.55, 0.47, 0.94]), payload: city("Moscow") },
        Point { id: PointId::Num(4), vector: vector([0.18, 0.01, 0.85, 0.80]), payload: city("New York") },
        Point { id: PointId::Num(5), vector: vector([0.24, 0.18, 0.22, 0.44]), payload: city("Beijing") },
        Point { id: PointId::Num(6), vector: vector([0.35, 0.08, 0.11, 0.44]), payload: city("Mumbai") },
    ]
}

/// A point with its components in single precision, in which they were given.
fn in_single(point: &Point) -> (PointId, Vec<f32>, Option<serde_json::Map<String, Value>>) {
    let vector = point.vector.iter().map(|n| n.as_f64().unwrap() as f32).collect();
    (point.id.clone(), vector, point.payload.clone())
}

fn ids_of(points: &[ScoredPoint]) -> Vec<PointId> {
    points.iter().map(|p| p.id.clone()).collect()
}

#[test]
fn create_upsert_search_delete() {
    let mut server = Server::new();
    let client = client();
    assert_eq!(run(&mut server, |r| client.create_collection("docs", 4, r)), Ok(()));
    let points = six_points();
    assert_eq!(run(&mut server, |r| client.upsert_points("docs", &points, r)), Ok(()));
    assert_eq!(run(&mut server, |r| client.collection_info("docs", r)), Ok(6));

    let query = vector([0.2, 0.1, 0.9, 0.7]);
    let found = run(&mut server, |r| client.search_points("docs", &query, 2, None, r)).unwrap();
    assert_eq!(found.len(), 2);
    assert_eq!(ids_of(&found), vec![PointId::Num(4), PointId::Num(1)]);
    assert_eq!(found[0].payload, city("New York"));
    let nearest: Vec<f32> =
        found[0].vector.as_ref().unwrap().iter().map(|n| n.as_f64().unwrap() as f32).collect();
    assert_eq!(nearest, vec![0.18f32, 0.01, 0.85, 0.80]);
    assert_eq!(found[1].payload, city("Berlin"));
    assert!(found[0].score.as_f64().unwrap() > found[1].score.as_f64().unwrap());

    let removed = vec![PointId::Num(1), PointId::Num(4)];
    assert_eq!(run(&mut server, |r| client.delete_points("docs", &removed, r)), Ok(()));
    assert_eq!(run(&mut server, |r| client.collection_info("docs", r)), Ok(4));

    let found = run(&mut server, |r| client.search_points("docs", &query, 2, None, r)).unwrap();
    assert_eq!(ids_of(&found), vec![PointId::Num(3), PointId::Num(2)]);
}

#[test]
fn creating_twice_conflicts_and_sends_one_creation() {
    let mut server = Server::new();
    let client = client();
    assert_eq!(run(&mut server, |r| client.create_collection("docs", 4, r)), Ok(()));
    assert_eq!(
        run(&mut server, |r| client.create_collection("docs", 4, r)),
        Err(QdrantError::Conflict("docs".to_string()))
    );
    assert_eq!(server.count(Method::Put, "http://mock:6333/collections/docs"), 1);
    assert_eq!(server.count(Method::Get, "http://mock:6333/collections"), 2);
    assert_eq!(server.seen.len(), 3);
    assert_eq!(
        run(&mut server, |r| client.create_collection("docs", 8, r)),
        Err(QdrantError::Conflict("docs".to_string()))
    );
    assert_eq!(server.count(Method::Put, "http://mock:6333/collections/docs"), 1);
}

#[test]
fn deleting_what_was_never_created_is_not_found() {
    let mut server = Server::new();
    let client = client();
    assert_eq!(
        run(&mut server, |r| client.delete_collection("docs", r)),
        Err(QdrantError::NotFound("docs".to_string()))
    );
    assert_eq!(server.count(Method::Delete, "http://mock:6333/collections/docs"), 0);
    assert_eq!(server.seen.len(), 1);
    assert_eq!(run(&mut server, |r| client.create_collection("other", 4, r)), Ok(()));
    assert_eq!(
        run(&mut server, |r| client.delete_collection("docs", r)),
        Err(QdrantError::NotFound("docs".to_string()))
    );
}

#[test]
fn deleting_a_collection_makes_room_for_it_again() {
    let mut server = Server::new();
    let client = client();
    assert_eq!(run(&mut server, |r| client.create_collection("docs", 4, r)), Ok(()));
    assert_eq!(run(&mut server, |r| client.collection_exists("docs", r)), Ok(true));
    assert_eq!(run(&mut server, |r| client.collection_exists_api("docs", r)), Ok(true));
    assert_eq!(run(&mut server, |r| client.delete_collection("docs", r)), Ok(()));
    assert_eq!(run(&mut server, |r| client.collection_exists("docs", r)), Ok(false));
    assert_eq!(run(&mut server, |r| client.collection_exists_api("docs", r)), Ok(false));
    assert_eq!(run(&mut server, |r| client.create_collection("docs", 4, r)), Ok(()));
    assert_eq!(run(&mut server, |r| client.list_collections(r)), Ok(vec!["docs".to_string()]));
}

#[test]
fn upserting_a_vector_of_the_wrong_length_fails_the_request() {
    let mut server = Server::new();
    let client = client();
    assert_eq!(run(&mut server, |r| client.create_collection("docs", 4, r)), Ok(()));
    let short = vec![Point {
        id: PointId::Num(1),
        vector: vec![Number::from_f64(0.5).unwrap(); 3],
        payload: None,
    }];
    assert_eq!(
        run(&mut server, |r| client.upsert_points("docs", &short, r)),
        Err(QdrantError::RequestFailed { status: 400, server_status: None })
    );
    assert_eq!(run(&mut server, |r| client.collection_info("docs", r)), Ok(0));
}

#[test]
fn upserting_replaces_a_point_of_the_same_id() {
    let mut server = Server::new();
    let client = client();
    assert_eq!(run(&mut server, |r| client.create_collection("docs", 4, r)), Ok(()));
    let points = six_points();
    assert_eq!(run(&mut server, |r| client.upsert_points("docs", &points, r)), Ok(()));
    let again = vec![Point { id: PointId::Num(2), vector: vector([1.0, 0.0, 0.0, 0.0]), payload: city("Leeds") }];
    assert_eq!(run(&mut server, |r| client.upsert_points("docs", &again, r)), Ok(()));
    assert_eq!(run(&mut server, |r| client.collection_info("docs", r)), Ok(6));
    let id = PointId::Num(2);
    let point = run(&mut server, |r| client.get_point("docs", &id, r)).unwrap();
    assert_eq!(point, Point { id: PointId::Num(2), vector: vector([1.0, 0.0, 0.0, 0.0]), payload: city("Leeds") });
}

#[test]
fn getting_points_returns_those_that_exist() {
    let mut server = Server::new();
    let client = client();
    assert_eq!(run(&mut server, |r| client.create_collection("docs", 4, r)), Ok(()));
    let points = six_points();
    assert_eq!(run(&mut server, |r| client.upsert_points("docs", &points, r)), Ok(()));
    let ids = vec![PointId::Num(5), PointId::Num(77), PointId::Num(1)];
    let found = run(&mut server, |r| client.get_points("docs", &ids, r)).unwrap();
    assert_eq!(found.len(), 2);
    assert_eq!(in_single(&found[0]), in_single(&points[4]));
    assert_eq!(in_single(&found[1]), in_single(&points[0]));
    let all: Vec<PointId> = (1..=6u64).map(PointId::Num).collect();
    let found = run(&mut server, |r| client.get_points("docs", &all, r)).unwrap();
    assert_eq!(found.len(), 6);
    for (found, given) in found.iter().zip(&points) {
        assert_eq!(in_single(found), in_single(given));
    }
}

#[test]
fn getting_a_point_that_is_not_there_fails_to_decode() {
    let mut server = Server::new();
    let client = client();
    assert_eq!(run(&mut server, |r| client.create_collection("docs", 4, r)), Ok(()));
    let id = PointId::Num(1);
    assert_eq!(run(&mut server, |r| client.get_point("docs", &id, r)), Err(QdrantError::Decode));
}

#[test]
fn deleting_points_that_are_not_there_is_no_error() {
    let mut server = Server::new();
    let client = client();
    assert_eq!(run(&mut server, |r| client.create_collection("docs", 4, r)), Ok(()));
    let ids = vec![PointId::Num(1), PointId::Uuid("none".to_string())];
    assert_eq!(run(&mut server, |r| client.delete_points("docs", &ids, r)), Ok(()));
    assert_eq!(run(&mut server, |r| client.delete_points("docs", &ids, r)), Ok(()));
    assert_eq!(run(&mut server, |r| client.collection_info("docs", r)), Ok(0));
}

#[test]
fn searching_applies_the_threshold_at_the_server() {
    let mut server = Server::new();
    let client = client();
    assert_eq!(run(&mut server, |r| client.create_collection("docs", 4, r)), Ok(()));
    let points = six_points();
    assert_eq!(run(&mut server, |r| client.upsert_points("docs", &points, r)), Ok(()));
    let query = vector([0.2, 0.1, 0.9, 0.7]);
    let threshold = Number::from_f64(1.25).unwrap();
    let found = run(&mut server, |r| client.search_points("docs", &query, 10, Some(&threshold), r)).unwrap();
    assert_eq!(ids_of(&found), vec![PointId::Num(4), PointId::Num(1)]);
    let all = run(&mut server, |r| client.search_points("docs", &query, 10, None, r)).unwrap();
    assert_eq!(all.len(), 6);
}

#[test]
fn searching_a_collection_that_is_not_there_finds_nothing() {
    let mut server = Server::new();
    let client = client();
    let query = vector([0.2, 0.1, 0.9, 0.7]);
    assert_eq!(run(&mut server, |r| client.search_points("docs", &query, 2, None, r)), Ok(vec![]));
    let params = qdrant::params::write_search_params(&query, 2, None);
    assert_eq!(
        run(&mut server, |r| client.search_points_api("docs", &params, r)),
        Err(QdrantError::RequestFailed { status: 404, server_status: None })
    );
}

#[test]
fn an_unreachable_server_is_a_transport_error() {
    let mut server = Server::new();
    let client = Qdrant::new_with_url("http://elsewhere".to_string());
    assert_eq!(
        run(&mut server, |r| client.list_collections(r)),
        Err(QdrantError::Transport("no route to http://elsewhere/collections".to_string()))
    );
    assert_eq!(
        run(&mut server, |r| client.create_collection("docs", 4, r)),
        Err(QdrantError::Transport("no route to http://elsewhere/collections".to_string()))
    );
}

#[test]
fn every_operation_is_one_request_but_for_the_guarded_two() {
    let mut server = Server::new();
    let client = client();
    assert_eq!(run(&mut server, |r| client.create_collection("docs", 4, r)), Ok(()));
    assert_eq!(server.seen.len(), 2);
    let points = six_points();
    assert_eq!(run(&mut server, |r| client.upsert_points("docs", &points, r)), Ok(()));
    assert_eq!(server.seen.len(), 3);
    assert_eq!(run(&mut server, |r| client.collection_info("docs", r)), Ok(6));
    assert_eq!(server.seen.len(), 4);
    assert_eq!(run(&mut server, |r| client.delete_collection("docs", r)), Ok(()));
    assert_eq!(server.seen.len(), 6);
}
