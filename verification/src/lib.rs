//! The request and reply mapping of a client for a vector database that speaks JSON over
//! HTTP: collections of points, each a vector with a payload, and the search among them.
//!
//! The library performs no I/O. An operation of [`Qdrant`] is called with the replies that
//! its requests have had so far, at first with none, and answers with a [`Step`]: the
//! next [`Request`] to send, the result, or the failure. Whoever drives the operation
//! sends the request as it stands, adds the [`Reply`] to the replies and calls again.
//! All operations but two end with their first reply; making and deleting a collection
//! list the collections first.
//!
//! JSON is parsed, printed and held by `serde_json`. A vector component is a
//! `serde_json::Number`, and a payload a `serde_json::Map`.

pub mod answer;
pub mod client;
pub mod json;
pub mod model;
pub mod params;
pub mod point;
pub mod text;
pub mod wire;

pub use client::Qdrant;
pub use point::{Point, PointId, ScoredPoint};
pub use wire::{Method, QdrantError, Reply, Request, Step};
