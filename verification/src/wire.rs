//! What passes between the client and its transport: the request to send, the reply that
//! came back, and the step that an operation takes next.
//!
//! The client performs no I/O. An operation is a function of its arguments and of the
//! replies received so far; it answers with the next request to send or with its outcome.

use crate::model::Model;
use vstd::prelude::*;

verus! {

/// The HTTP methods that the client uses.
#[derive(Clone, Copy, Debug, PartialEq, Eq, Structural)]
pub enum Method {
    Get,
    Put,
    Post,
    Delete,
}

/// One HTTP request, ready to be sent as it stands.
#[derive(Clone, Debug, PartialEq, Eq)]
pub struct Request {
    pub method: Method,
    pub url: String,
    /// Header names and values, in the order in which they are set.
    pub headers: Vec<(String, String)>,
    pub body: Option<Vec<u8>>,
}

/// A request as a mathematical value.
pub struct RequestView {
    pub method: Method,
    pub url: Seq<char>,
    pub headers: Seq<(Seq<char>, Seq<char>)>,
    pub body: Option<Seq<u8>>,
}

impl View for Request {
    type V = RequestView;

    open spec fn view(&self) -> RequestView {
        RequestView {
            method: self.method,
            url: self.url@,
            headers: self.headers@.map_values(|header: (String, String)| (header.0@, header.1@)),
            body: match self.body {
                Some(body) => Some(body@),
                None => None,
            },
        }
    }
}

/// What the transport hands back for one request.
#[derive(Clone, Debug, PartialEq, Eq)]
pub enum Reply {
    /// The call could not be completed; the transport's own description of the failure.
    Failure(String),
    /// The server answered: the HTTP status code and the body as received.
    Response { status: u16, body: Vec<u8> },
}

/// Why an operation failed.
#[derive(Clone, Debug, PartialEq, Eq)]
pub enum QdrantError {
    /// The HTTP call itself could not be completed.
    Transport(String),
    /// The server answered and reported a failure: by the HTTP status, by the status that
    /// the body names, by answering `false` where it acknowledges, or by a listing that
    /// lacks the names of the collections.
    RequestFailed { status: u16, server_status: Option<String> },
    /// The body is no JSON document, or lacks a member that the operation cannot do without.
    Decode,
    /// A collection of that name exists already.
    Conflict(String),
    /// No collection of that name exists.
    NotFound(String),
}

/// An error as a mathematical value.
pub enum QdrantErrorView {
    Transport(Seq<char>),
    RequestFailed { status: u16, server_status: Option<Seq<char>> },
    Decode,
    Conflict(Seq<char>),
    NotFound(Seq<char>),
}

impl View for QdrantError {
    type V = QdrantErrorView;

    open spec fn view(&self) -> QdrantErrorView {
        match *self {
            QdrantError::Transport(message) => QdrantErrorView::Transport(message@),
            QdrantError::RequestFailed { status, server_status } => QdrantErrorView::RequestFailed {
                status,
                server_status: match server_status {
                    Some(text) => Some(text@),
                    None => None,
                },
            },
            QdrantError::Decode => QdrantErrorView::Decode,
            QdrantError::Conflict(name) => QdrantErrorView::Conflict(name@),
            QdrantError::NotFound(name) => QdrantErrorView::NotFound(name@),
        }
    }
}

/// What an operation does next.
#[derive(Debug)]
pub enum Step<T> {
    /// Send this request, add its reply to the replies, and ask again.
    Send(Request),
    /// The operation succeeded with this result.
    Done(T),
    /// The operation failed.
    Failed(QdrantError),
}

/// A step as a mathematical value.
pub enum StepView<M> {
    Send(RequestView),
    Done(M),
    Failed(QdrantErrorView),
}

impl<T: Model> View for Step<T> {
    type V = StepView<T::M>;

    open spec fn view(&self) -> StepView<T::M> {
        match *self {
            Step::Send(request) => StepView::Send(request@),
            Step::Done(result) => StepView::Done(result.model()),
            Step::Failed(error) => StepView::Failed(error@),
        }
    }
}

/// The step that ends an operation with the given outcome.
pub open spec fn settled<M>(outcome: Result<M, QdrantErrorView>) -> StepView<M> {
    match outcome {
        Ok(result) => StepView::Done(result),
        Err(error) => StepView::Failed(error),
    }
}

/// Whether an HTTP status reports success: the codes 200 to 299.
pub open spec fn is_success(status: u16) -> bool {
    200 <= status < 300
}

/// The headers of every request: the content type, and before it the key where one is set.
pub open spec fn headers_for(api_key: Option<Seq<char>>) -> Seq<(Seq<char>, Seq<char>)> {
    match api_key {
        Some(key) => seq![("api-key"@, key), ("Content-Type"@, "application/json"@)],
        None => seq![("Content-Type"@, "application/json"@)],
    }
}

/// The headers of a request always name JSON as the content type, and present the key
/// exactly where one is set.
pub proof fn headers_name_json_and_key(api_key: Option<Seq<char>>)
    ensures
        headers_for(api_key).contains(("Content-Type"@, "application/json"@)),
        api_key matches Some(key) ==> headers_for(api_key).contains(("api-key"@, key)),
        api_key is None ==> headers_for(api_key).len() == 1,
{
    let headers = headers_for(api_key);
    assert(headers[headers.len() - 1] == ("Content-Type"@, "application/json"@));
    if api_key is Some {
        assert(headers[0] == ("api-key"@, api_key->0));
    }
}

} // verus!
