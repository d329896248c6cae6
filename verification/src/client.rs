//! The client and its operations.
//!
//! Every operation maps to requests of the transport and reads their replies. It is called
//! with the replies received for it so far, at first with none, and answers with the next
//! request or with its outcome: see [`Step`]. An operation holds no state of its own, and
//! the same arguments and replies always give the same step.

use crate::answer::{
    acknowledged, carried_out, counted, existence, fetched, fetched_all, found, listed, listing,
    parse_reply, parsed, read_acknowledgement, read_carried_out, read_counted, read_existence,
    read_fetched, read_fetched_all, read_found, read_listed, read_listing, read_removed,
    read_upsert, removed, upserted,
};
use crate::json::{json_of, json_text, value_text, Json};
use crate::params::{
    creation_params, removal_params, search_params, selection_params, threshold_or_zero,
    upsert_params, write_creation_params, write_removal_params, write_search_params,
    write_selection_params, write_upsert_params,
};
use crate::model::Model;
use crate::point::{Point, PointId, ScoredPoint};
use crate::wire::{
    headers_for, settled, Method, QdrantError, QdrantErrorView, Reply, Request, RequestView, Step,
    StepView,
};
use serde_json::{Number, Value};
use vstd::prelude::*;
use vstd::string::*;

verus! {

/// A client for one endpoint: where it is, and the key to present there.
pub struct Qdrant {
    pub url_base: String,
    api_key: Option<String>,
}

/// What a client holds: the base URL, and the key where one is set.
pub struct QdrantView {
    pub url_base: Seq<char>,
    pub api_key: Option<Seq<char>>,
}

impl View for Qdrant {
    type V = QdrantView;

    closed spec fn view(&self) -> QdrantView {
        QdrantView {
            url_base: self.url_base@,
            api_key: match self.api_key {
                Some(key) => Some(key@),
                None => None,
            },
        }
    }
}

/// The path of a collection.
pub open spec fn collection_path(name: Seq<char>) -> Seq<char> {
    "/collections/"@ + name
}

/// The step of an operation that is one request and its reply: the request while no reply
/// is there, and then what the first reply gives.
pub open spec fn exchange<M>(
    request: RequestView,
    replies: Seq<Reply>,
    outcome: spec_fn(Reply) -> Result<M, QdrantErrorView>,
) -> StepView<M> {
    if replies.len() == 0 {
        StepView::Send(request)
    } else {
        settled(outcome(replies[0]))
    }
}

impl QdrantView {
    /// The request that a client makes of a path below its base URL. The path is added to
    /// the base as it stands. Every request names JSON as its content type, and presents
    /// the key where the client has one.
    pub open spec fn request(self, method: Method, path: Seq<char>, body: Option<Seq<u8>>) -> RequestView {
        RequestView { method, url: self.url_base + path, headers: headers_for(self.api_key), body }
    }

    /// A request whose body is the text of a JSON value.
    pub open spec fn request_with(self, method: Method, path: Seq<char>, params: Json) -> RequestView {
        self.request(method, path, Some(json_text(params)))
    }

    /// The request that lists the collections.
    pub open spec fn listing_request(self) -> RequestView {
        self.request(Method::Get, "/collections"@, None)
    }

    /// The steps of an operation that first makes sure whether a collection exists: it
    /// lists the collections, fails with `unwanted` where the listing does not show what
    /// `wanted` asks, and only else sends `request` and reads the acknowledgement.
    pub open spec fn guarded(
        self,
        name: Seq<char>,
        wanted: bool,
        unwanted: QdrantErrorView,
        request: RequestView,
        replies: Seq<Reply>,
    ) -> StepView<()> {
        if replies.len() == 0 {
            StepView::Send(self.listing_request())
        } else {
            match listed(replies[0], name) {
                Err(error) => StepView::Failed(error),
                Ok(exists) => if exists != wanted {
                    StepView::Failed(unwanted)
                } else if replies.len() == 1 {
                    StepView::Send(request)
                } else {
                    settled(carried_out(replies[1]))
                },
            }
        }
    }

    /// The steps of making a collection.
    pub open spec fn creation(self, name: Seq<char>, size: u32, replies: Seq<Reply>) -> StepView<()> {
        self.guarded(
            name,
            false,
            QdrantErrorView::Conflict(name),
            self.request_with(Method::Put, collection_path(name), creation_params(size)),
            replies,
        )
    }

    /// The steps of deleting a collection.
    pub open spec fn deletion(self, name: Seq<char>, replies: Seq<Reply>) -> StepView<()> {
        self.guarded(
            name,
            true,
            QdrantErrorView::NotFound(name),
            self.request(Method::Delete, collection_path(name), None),
            replies,
        )
    }
}

/// A collection that the listing names is not made again: the operation fails with
/// `Conflict` once the listing is there, whatever replies follow it, and sends no request
/// to make the collection.
pub proof fn creation_of_present_conflicts(
    client: QdrantView,
    name: Seq<char>,
    size: u32,
    replies: Seq<Reply>,
)
    requires
        replies.len() >= 1,
        listed(replies[0], name) matches Ok(exists) && exists,
    ensures
        client.creation(name, size, replies) == StepView::<()>::Failed(
            QdrantErrorView::Conflict(name),
        ),
{
}

/// A collection that the listing does not name is not deleted: the operation fails with
/// `NotFound` once the listing is there, whatever replies follow it, and sends no request
/// to delete the collection.
pub proof fn deletion_of_absent_is_not_found(client: QdrantView, name: Seq<char>, replies: Seq<Reply>)
    requires
        replies.len() >= 1,
        listed(replies[0], name) matches Ok(exists) && !exists,
    ensures
        client.deletion(name, replies) == StepView::<()>::Failed(QdrantErrorView::NotFound(name)),
{
}

/// An operation that makes sure of a collection's existence sends at most two requests:
/// with two replies it has always ended.
pub proof fn guarded_ends_after_two(
    client: QdrantView,
    name: Seq<char>,
    wanted: bool,
    unwanted: QdrantErrorView,
    request: RequestView,
    replies: Seq<Reply>,
)
    requires
        replies.len() >= 2,
    ensures
        !(client.guarded(name, wanted, unwanted, request, replies) is Send),
{
}

fn finish<T: Model>(result: Result<T, QdrantError>) -> (step: Step<T>)
    ensures
        step@ == settled(result.model()),
{
    match result {
        Ok(value) => Step::Done(value),
        Err(error) => Step::Failed(error),
    }
}

fn collection(name: &str) -> (r: String)
    ensures
        r@ == collection_path(name@),
{
    let mut path = "/collections/".to_owned();
    path.append(name);
    path
}

fn below_collection(name: &str, rest: &str) -> (r: String)
    ensures
        r@ == collection_path(name@) + rest@,
{
    let mut path = collection(name);
    path.append(rest);
    path
}

impl Qdrant {
    /// A client for the endpoint at `url_base_`, without a key. The URL is kept as given.
    pub fn new_with_url(url_base_: String) -> (r: Qdrant)
        ensures
            r@.url_base == url_base_@,
            r@.api_key is None,
    {
        Qdrant { url_base: url_base_, api_key: None }
    }

    /// A client for the endpoint on this machine.
    pub fn new() -> (r: Qdrant)
        ensures
            r@.url_base == "http://localhost:6333"@,
            r@.api_key is None,
    {
        Qdrant::new_with_url("http://localhost:6333".to_owned())
    }

    /// Sets the key that every later request presents, in place of an earlier one.
    pub fn set_api_key(&mut self, api_key: String)
        ensures
            final(self)@.url_base == old(self)@.url_base,
            final(self)@.api_key == Some(api_key@),
    {
        self.api_key = Some(api_key);
    }

    fn request(&self, method: Method, path: &str, body: Option<Vec<u8>>) -> (r: Request)
        ensures
            r@ == self@.request(
                method,
                path@,
                match body {
                    Some(bytes) => Some(bytes@),
                    None => None,
                },
            ),
    {
        let mut url = self.url_base.clone();
        url.append(path);
        let mut headers: Vec<(String, String)> = Vec::new();
        match &self.api_key {
            Some(key) => {
                headers.push(("api-key".to_owned(), key.clone()));
            },
            None => {},
        }
        headers.push(("Content-Type".to_owned(), "application/json".to_owned()));
        let r = Request { method, url, headers, body };
        assert(r@.headers =~= headers_for(self@.api_key));
        r
    }

    fn request_with(&self, method: Method, path: &str, params: &Value) -> (r: Request)
        ensures
            r@ == self@.request_with(method, path@, json_of(*params)),
    {
        self.request(method, path, Some(value_text(params)))
    }

    fn point_request<T: Model>(&self, collection_name: &str, id: &PointId) -> (step: Step<T>)
        ensures
            step@ == StepView::<T::M>::Send(
                self@.request(
                    Method::Get,
                    collection_path(collection_name@) + "/points/"@ + id@.text(),
                    None,
                ),
            ),
    {
        let mut path = below_collection(collection_name, "/points/");
        let id = id.to_string();
        path.append(id.as_str());
        Step::Send(self.request(Method::Get, path.as_str(), None))
    }

    fn listing_request(&self) -> (r: Request)
        ensures
            r@ == self@.listing_request(),
    {
        self.request(Method::Get, "/collections", None)
    }

    /// The number of points in a collection: `GET /collections/{name}`, and of the reply
    /// the number under `result.points_count`, whatever its status. A reply without that
    /// number fails to decode.
    pub fn collection_info(&self, collection_name: &str, replies: &[Reply]) -> (step: Step<u64>)
        ensures
            step@ == exchange(
                self@.request(Method::Get, collection_path(collection_name@), None),
                replies@,
                |reply: Reply| counted(reply),
            ),
    {
        if replies.len() == 0 {
            let path = collection(collection_name);
            return Step::Send(self.request(Method::Get, path.as_str(), None));
        }
        finish(read_counted(&replies[0]))
    }

    /// Makes a collection for vectors of `size` components.
    ///
    /// The collections are listed first. Where the listing names the collection already,
    /// the operation fails with `Conflict` and sends nothing more. Else it sends
    /// `PUT /collections/{name}` with the settings, and succeeds where the server
    /// acknowledges with `true`.
    pub fn create_collection(&self, collection_name: &str, size: u32, replies: &[Reply]) -> (step: Step<()>)
        ensures
            step@ == self@.creation(collection_name@, size, replies@),
    {
        if replies.len() == 0 {
            return Step::Send(self.listing_request());
        }
        match read_listed(&replies[0], collection_name) {
            Err(error) => Step::Failed(error),
            Ok(true) => Step::Failed(QdrantError::Conflict(collection_name.to_owned())),
            Ok(false) => {
                if replies.len() == 1 {
                    let params = write_creation_params(size);
                    let path = collection(collection_name);
                    Step::Send(self.request_with(Method::Put, path.as_str(), &params))
                } else {
                    finish(read_carried_out(&replies[1]))
                }
            },
        }
    }

    /// The names of the collections: see [`Qdrant::list_collections_api`].
    pub fn list_collections(&self, replies: &[Reply]) -> (step: Step<Vec<String>>)
        ensures
            step@ == exchange(self@.listing_request(), replies@, |reply: Reply| listing(reply)),
    {
        self.list_collections_api(replies)
    }

    /// Whether a collection exists: whether the listing of the collections names it. A
    /// collection that is not there is `false`, no error.
    pub fn collection_exists(&self, collection_name: &str, replies: &[Reply]) -> (step: Step<bool>)
        ensures
            step@ == exchange(
                self@.listing_request(),
                replies@,
                |reply: Reply| listed(reply, collection_name@),
            ),
    {
        if replies.len() == 0 {
            return Step::Send(self.listing_request());
        }
        finish(read_listed(&replies[0], collection_name))
    }

    /// Deletes a collection.
    ///
    /// The collections are listed first. Where the listing does not name the collection,
    /// the operation fails with `NotFound` and sends nothing more. Else it sends
    /// `DELETE /collections/{name}`, and succeeds where the server acknowledges with `true`.
    pub fn delete_collection(&self, collection_name: &str, replies: &[Reply]) -> (step: Step<()>)
        ensures
            step@ == self@.deletion(collection_name@, replies@),
    {
        if replies.len() == 0 {
            return Step::Send(self.listing_request());
        }
        match read_listed(&replies[0], collection_name) {
            Err(error) => Step::Failed(error),
            Ok(false) => Step::Failed(QdrantError::NotFound(collection_name.to_owned())),
            Ok(true) => {
                if replies.len() == 1 {
                    let path = collection(collection_name);
                    Step::Send(self.request(Method::Delete, path.as_str(), None))
                } else {
                    finish(read_carried_out(&replies[1]))
                }
            },
        }
    }

    /// Writes points into a collection, all in one request, and waits until the server has
    /// applied them: see [`Qdrant::upsert_points_api`].
    pub fn upsert_points(&self, collection_name: &str, points: &[Point], replies: &[Reply]) -> (step: Step<()>)
        ensures
            step@ == exchange(
                self@.request_with(
                    Method::Put,
                    collection_path(collection_name@) + "/points?wait=true"@,
                    upsert_params(points.model()),
                ),
                replies@,
                |reply: Reply| upserted(reply),
            ),
    {
        if replies.len() == 0 {
            let params = write_upsert_params(points);
            let path = below_collection(collection_name, "/points?wait=true");
            return Step::Send(self.request_with(Method::Put, path.as_str(), &params));
        }
        finish(read_upsert(&replies[0]))
    }

    /// Searches a collection for the points nearest to a vector, at most `limit` of them and
    /// none below the threshold, which is zero where none is given. The server applies
    /// limit and threshold and orders the results; they are returned as it gave them, with
    /// payloads and vectors.
    ///
    /// Of the two ways to treat a search that failed, this is the lenient one. A search
    /// finds nothing where it could not be made, where the server refused it by its status,
    /// and where the answer has no `result`: these are the empty list, not an error. An
    /// answer with a status of success whose body is no JSON, or whose `result` is no array
    /// of search results, fails to decode. For a search that reports every failure, see
    /// [`Qdrant::search_points_api`].
    pub fn search_points(
        &self,
        collection_name: &str,
        vector: &[Number],
        limit: u64,
        score_threshold: Option<&Number>,
        replies: &[Reply],
    ) -> (step: Step<Vec<ScoredPoint>>)
        ensures
            step@ == exchange(
                self@.request_with(
                    Method::Post,
                    collection_path(collection_name@) + "/points/search"@,
                    search_params(vector.model(), limit, threshold_or_zero(score_threshold)),
                ),
                replies@,
                |reply: Reply| found(reply),
            ),
    {
        if replies.len() == 0 {
            let params = write_search_params(vector, limit, score_threshold);
            let path = below_collection(collection_name, "/points/search");
            return Step::Send(self.request_with(Method::Post, path.as_str(), &params));
        }
        finish(read_found(&replies[0]))
    }

    /// The points with the given ids, as far as the collection holds them, with payloads
    /// and vectors: `POST /collections/{name}/points`, and of the reply the array under
    /// `result`, whatever its status. A reply without it, or with an element that is no
    /// point, fails to decode.
    pub fn get_points(&self, collection_name: &str, ids: &[PointId], replies: &[Reply]) -> (step: Step<Vec<Point>>)
        ensures
            step@ == exchange(
                self@.request_with(
                    Method::Post,
                    collection_path(collection_name@) + "/points"@,
                    selection_params(ids.model()),
                ),
                replies@,
                |reply: Reply| fetched_all(reply),
            ),
    {
        if replies.len() == 0 {
            let params = write_selection_params(ids);
            let path = below_collection(collection_name, "/points");
            return Step::Send(self.request_with(Method::Post, path.as_str(), &params));
        }
        finish(read_fetched_all(&replies[0]))
    }

    /// The point with the given id: `GET /collections/{name}/points/{id}`, and of the reply
    /// the point under `result`, whatever its status. A reply without one fails to decode.
    pub fn get_point(&self, collection_name: &str, id: &PointId, replies: &[Reply]) -> (step: Step<Point>)
        ensures
            step@ == exchange(
                self@.request(
                    Method::Get,
                    collection_path(collection_name@) + "/points/"@ + id@.text(),
                    None,
                ),
                replies@,
                |reply: Reply| fetched(reply),
            ),
    {
        if replies.len() == 0 {
            return self.point_request(collection_name, id);
        }
        finish(read_fetched(&replies[0]))
    }

    /// Deletes the points with the given ids and waits until the server has applied that:
    /// see [`Qdrant::delete_points_api`]. An id that the collection does not hold is no
    /// error.
    pub fn delete_points(&self, collection_name: &str, ids: &[PointId], replies: &[Reply]) -> (step: Step<()>)
        ensures
            step@ == exchange(
                self@.request_with(
                    Method::Post,
                    collection_path(collection_name@) + "/points/delete?wait=true"@,
                    removal_params(ids.model()),
                ),
                replies@,
                |reply: Reply| removed(reply),
            ),
    {
        if replies.len() == 0 {
            let params = write_removal_params(ids);
            let path = below_collection(collection_name, "/points/delete?wait=true");
            return Step::Send(self.request_with(Method::Post, path.as_str(), &params));
        }
        finish(read_removed(&replies[0]))
    }

    /// `GET /collections/{name}`: the body of the reply as JSON, whatever its status.
    pub fn collection_info_api(&self, collection_name: &str, replies: &[Reply]) -> (step: Step<Value>)
        ensures
            step@ == exchange(
                self@.request(Method::Get, collection_path(collection_name@), None),
                replies@,
                |reply: Reply| parsed(reply, false),
            ),
    {
        if replies.len() == 0 {
            let path = collection(collection_name);
            return Step::Send(self.request(Method::Get, path.as_str(), None));
        }
        finish(parse_reply(&replies[0], false))
    }

    /// `PUT /collections/{name}` with the given settings: the boolean under `result` of the
    /// reply. The request fails on a status other than success; a body without a boolean
    /// under `result` fails to decode.
    pub fn create_collection_api(&self, collection_name: &str, params: &Value, replies: &[Reply]) -> (step: Step<bool>)
        ensures
            step@ == exchange(
                self@.request_with(Method::Put, collection_path(collection_name@), json_of(*params)),
                replies@,
                |reply: Reply| acknowledged(reply),
            ),
    {
        if replies.len() == 0 {
            let path = collection(collection_name);
            return Step::Send(self.request_with(Method::Put, path.as_str(), params));
        }
        finish(read_acknowledgement(&replies[0]))
    }

    /// `GET /collections`: the names under `result.collections` of the reply.
    ///
    /// The request fails on a status other than success and on a body that lacks the names;
    /// a body that is no JSON fails to decode. A listing without entries is the empty list.
    pub fn list_collections_api(&self, replies: &[Reply]) -> (step: Step<Vec<String>>)
        ensures
            step@ == exchange(self@.listing_request(), replies@, |reply: Reply| listing(reply)),
    {
        if replies.len() == 0 {
            return Step::Send(self.listing_request());
        }
        finish(read_listing(&replies[0]))
    }

    /// `GET /collections/{name}/exists`: the boolean under `result.exists` of the reply,
    /// whatever its status. A body that is no JSON, that has no `result`, or whose `result`
    /// does not hold the boolean fails to decode.
    pub fn collection_exists_api(&self, collection_name: &str, replies: &[Reply]) -> (step: Step<bool>)
        ensures
            step@ == exchange(
                self@.request(Method::Get, collection_path(collection_name@) + "/exists"@, None),
                replies@,
                |reply: Reply| existence(reply),
            ),
    {
        if replies.len() == 0 {
            let path = below_collection(collection_name, "/exists");
            return Step::Send(self.request(Method::Get, path.as_str(), None));
        }
        finish(read_existence(&replies[0]))
    }

    /// `DELETE /collections/{name}`: the boolean under `result` of the reply. The request
    /// fails on a status other than success; a body without a boolean under `result` fails
    /// to decode.
    pub fn delete_collection_api(&self, collection_name: &str, replies: &[Reply]) -> (step: Step<bool>)
        ensures
            step@ == exchange(
                self@.request(Method::Delete, collection_path(collection_name@), None),
                replies@,
                |reply: Reply| acknowledged(reply),
            ),
    {
        if replies.len() == 0 {
            let path = collection(collection_name);
            return Step::Send(self.request(Method::Delete, path.as_str(), None));
        }
        finish(read_acknowledgement(&replies[0]))
    }

    /// `PUT /collections/{name}/points?wait=true` with the given body: the server answers
    /// when it has applied the points.
    ///
    /// The request fails on a status other than success, and where the body of the reply
    /// names a status other than `ok`, which the error then carries. A body without a
    /// status fails to decode.
    pub fn upsert_points_api(&self, collection_name: &str, params: &Value, replies: &[Reply]) -> (step: Step<()>)
        ensures
            step@ == exchange(
                self@.request_with(
                    Method::Put,
                    collection_path(collection_name@) + "/points?wait=true"@,
                    json_of(*params),
                ),
                replies@,
                |reply: Reply| upserted(reply),
            ),
    {
        if replies.len() == 0 {
            let path = below_collection(collection_name, "/points?wait=true");
            return Step::Send(self.request_with(Method::Put, path.as_str(), params));
        }
        finish(read_upsert(&replies[0]))
    }

    /// `POST /collections/{name}/points/search` with the given body: the body of the reply
    /// as JSON. The request fails on a status other than success.
    pub fn search_points_api(&self, collection_name: &str, params: &Value, replies: &[Reply]) -> (step: Step<Value>)
        ensures
            step@ == exchange(
                self@.request_with(
                    Method::Post,
                    collection_path(collection_name@) + "/points/search"@,
                    json_of(*params),
                ),
                replies@,
                |reply: Reply| parsed(reply, true),
            ),
    {
        if replies.len() == 0 {
            let path = below_collection(collection_name, "/points/search");
            return Step::Send(self.request_with(Method::Post, path.as_str(), params));
        }
        finish(parse_reply(&replies[0], true))
    }

    /// `POST /collections/{name}/points` with the given body: the body of the reply as
    /// JSON, whatever its status.
    pub fn get_points_api(&self, collection_name: &str, params: &Value, replies: &[Reply]) -> (step: Step<Value>)
        ensures
            step@ == exchange(
                self@.request_with(
                    Method::Post,
                    collection_path(collection_name@) + "/points"@,
                    json_of(*params),
                ),
                replies@,
                |reply: Reply| parsed(reply, false),
            ),
    {
        if replies.len() == 0 {
            let path = below_collection(collection_name, "/points");
            return Step::Send(self.request_with(Method::Post, path.as_str(), params));
        }
        finish(parse_reply(&replies[0], false))
    }

    /// `GET /collections/{name}/points/{id}`: the body of the reply as JSON, whatever its
    /// status. The id stands in the path as it is, a number in decimal.
    pub fn get_point_api(&self, collection_name: &str, id: &PointId, replies: &[Reply]) -> (step: Step<Value>)
        ensures
            step@ == exchange(
                self@.request(
                    Method::Get,
                    collection_path(collection_name@) + "/points/"@ + id@.text(),
                    None,
                ),
                replies@,
                |reply: Reply| parsed(reply, false),
            ),
    {
        if replies.len() == 0 {
            return self.point_request(collection_name, id);
        }
        finish(parse_reply(&replies[0], false))
    }

    /// `POST /collections/{name}/points/delete?wait=true` with the given body: the server
    /// answers when it has applied the deletion. The request fails on a status other than
    /// success; the body of the reply is not read.
    pub fn delete_points_api(&self, collection_name: &str, params: &Value, replies: &[Reply]) -> (step: Step<()>)
        ensures
            step@ == exchange(
                self@.request_with(
                    Method::Post,
                    collection_path(collection_name@) + "/points/delete?wait=true"@,
                    json_of(*params),
                ),
                replies@,
                |reply: Reply| removed(reply),
            ),
    {
        if replies.len() == 0 {
            let path = below_collection(collection_name, "/points/delete?wait=true");
            return Step::Send(self.request_with(Method::Post, path.as_str(), params));
        }
        finish(read_removed(&replies[0]))
    }
}

} // verus!
