//! The mathematical values that results stand for.

use crate::json::{json_of, number_of, object_of, Json, JsonNumber};
use crate::wire::{QdrantError, QdrantErrorView};
use serde_json::Value;
use vstd::prelude::*;

verus! {

/// The mathematical value that a value of the program stands for.
pub trait Model {
    type M;

    spec fn model(&self) -> Self::M;
}

/// What the elements of a sequence stand for.
pub open spec fn models<T: Model>(items: Seq<T>) -> Seq<T::M> {
    items.map_values(|item: T| item.model())
}

impl Model for () {
    type M = ();

    open spec fn model(&self) -> () {
        ()
    }
}

impl Model for bool {
    type M = bool;

    open spec fn model(&self) -> bool {
        *self
    }
}

impl Model for u64 {
    type M = u64;

    open spec fn model(&self) -> u64 {
        *self
    }
}

impl Model for String {
    type M = Seq<char>;

    open spec fn model(&self) -> Seq<char> {
        self@
    }
}

impl Model for Value {
    type M = Json;

    open spec fn model(&self) -> Json {
        json_of(*self)
    }
}

impl Model for serde_json::Number {
    type M = JsonNumber;

    open spec fn model(&self) -> JsonNumber {
        number_of(*self)
    }
}

impl Model for serde_json::Map<String, Value> {
    type M = Map<Seq<char>, Json>;

    open spec fn model(&self) -> Map<Seq<char>, Json> {
        object_of(*self)
    }
}

impl<'a, T: Model> Model for &'a T {
    type M = T::M;

    open spec fn model(&self) -> T::M {
        (**self).model()
    }
}

impl<T: Model> Model for Option<T> {
    type M = Option<T::M>;

    open spec fn model(&self) -> Option<T::M> {
        match *self {
            Some(value) => Some(value.model()),
            None => None,
        }
    }
}

impl<T: Model> Model for Result<T, QdrantError> {
    type M = Result<T::M, QdrantErrorView>;

    open spec fn model(&self) -> Result<T::M, QdrantErrorView> {
        match *self {
            Ok(value) => Ok(value.model()),
            Err(error) => Err(error@),
        }
    }
}

impl<T: Model> Model for Vec<T> {
    type M = Seq<T::M>;

    open spec fn model(&self) -> Seq<T::M> {
        models(self@)
    }
}

impl<T: Model> Model for [T] {
    type M = Seq<T::M>;

    open spec fn model(&self) -> Seq<T::M> {
        models(self@)
    }
}

/// The values of a sequence under `f`, where `f` gives one for each of them.
pub open spec fn each<A, B>(items: Seq<A>, f: spec_fn(A) -> Option<B>) -> Option<Seq<B>> {
    if forall|i: int| 0 <= i < items.len() ==> f(#[trigger] items[i]) is Some {
        Some(items.map_values(|item: A| f(item)->0))
    } else {
        None
    }
}

} // verus!
