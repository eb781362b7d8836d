//! What passes between a handler and its surroundings: the answers of the
//! store that a handler is given, and the step that it asks for in turn.

use vstd::prelude::*;
use crate::state::{Todo, TodoView};

verus! {

/// The answer of the store to a fetch of one key.
#[derive(Clone, Debug, PartialEq, Eq)]
pub enum Lookup {
    /// The store has not been asked yet.
    Pending,
    /// The key holds this record.
    Found(Todo),
    /// The key holds nothing.
    Missing,
    /// The store failed, or what the key holds is no record.
    Failed(String),
}

/// The answer of the store to a write or a removal.
#[derive(Clone, Debug, PartialEq, Eq)]
pub enum Written {
    /// The store has not been asked yet.
    Pending,
    /// The store did as it was asked.
    Done,
    /// The store failed, with this message.
    Failed(String),
}

/// The answer of the store when asked for the names of all its keys.
#[derive(Clone, Debug, PartialEq, Eq)]
pub enum Listing {
    /// The store has not been asked yet.
    Pending,
    /// The names of the keys, in the order in which the store gave them.
    Keys(Vec<String>),
    /// The store failed, with this message.
    Failed(String),
}

/// The body of a response.
#[derive(Clone, Debug, PartialEq, Eq)]
pub enum Payload {
    /// Plain text.
    Text(String),
    /// One record, to be sent as a JSON object.
    Record(Todo),
    /// Records, to be sent as a JSON array in this order.
    Records(Vec<Todo>),
}

/// A response to the client.
#[derive(Clone, Debug, PartialEq, Eq)]
pub struct Reply {
    pub status: u16,
    pub payload: Payload,
}

/// Why a request was given up without a reply of the service's own.
#[derive(Clone, Debug, PartialEq, Eq)]
pub enum Failure {
    /// The request body could not be read as what the route expects.
    Body(String),
    /// The store failed.
    Store(String),
}

/// What a handler wants done next.
#[derive(Clone, Debug, PartialEq, Eq)]
pub enum Step {
    /// Fetch the record under this key, and come back with a `Lookup`.
    Fetch(String),
    /// Write the record under this key, and come back with a `Written`.
    Put(String, Todo),
    /// Remove this key, and come back with a `Written`.
    Delete(String),
    /// List the names of all keys, and come back with a `Listing`.
    List,
    /// Fetch each of these keys, all at once, and come back with one
    /// `Lookup` for each, in this order.
    FetchAll(Vec<String>),
    /// Send this reply; the request is done.
    Respond(Reply),
    /// Give the request up with this failure.
    Fail(Failure),
}

/// What a `Lookup` is, mathematically.
pub enum LookupView {
    Pending,
    Found(TodoView),
    Missing,
    Failed(Seq<char>),
}

/// What a `Written` is, mathematically.
pub enum WrittenView {
    Pending,
    Done,
    Failed(Seq<char>),
}

/// What a `Listing` is, mathematically.
pub enum ListingView {
    Pending,
    Keys(Seq<Seq<char>>),
    Failed(Seq<char>),
}

/// What a `Payload` is, mathematically.
pub enum PayloadView {
    Text(Seq<char>),
    Record(TodoView),
    Records(Seq<TodoView>),
}

/// What a `Reply` is, mathematically.
pub struct ReplyView {
    pub status: u16,
    pub payload: PayloadView,
}

/// What a `Failure` is, mathematically.
pub enum FailureView {
    Body(Seq<char>),
    Store(Seq<char>),
}

/// What a `Step` is, mathematically.
pub enum StepView {
    Fetch(Seq<char>),
    Put(Seq<char>, TodoView),
    Delete(Seq<char>),
    List,
    FetchAll(Seq<Seq<char>>),
    Respond(ReplyView),
    Fail(FailureView),
}

/// The texts that a vector of strings holds.
pub open spec fn texts(v: Seq<String>) -> Seq<Seq<char>> {
    Seq::new(v.len(), |i: int| v[i]@)
}

/// The records that a vector of records holds.
pub open spec fn records(v: Seq<Todo>) -> Seq<TodoView> {
    Seq::new(v.len(), |i: int| v[i]@)
}

/// The answers that a vector of answers holds.
pub open spec fn lookups(v: Seq<Lookup>) -> Seq<LookupView> {
    Seq::new(v.len(), |i: int| v[i]@)
}

/// The text of an optional string.
pub open spec fn text_of(o: Option<String>) -> Option<Seq<char>> {
    match o {
        Some(s) => Some(s@),
        None => None,
    }
}

/// A request body, read or not, as mathematical values.
pub open spec fn body_of<T: View>(r: Result<T, String>) -> Result<T::V, Seq<char>> {
    match r {
        Ok(t) => Ok(t@),
        Err(e) => Err(e@),
    }
}

impl View for Lookup {
    type V = LookupView;

    open spec fn view(&self) -> LookupView {
        match self {
            Lookup::Pending => LookupView::Pending,
            Lookup::Found(t) => LookupView::Found(t@),
            Lookup::Missing => LookupView::Missing,
            Lookup::Failed(e) => LookupView::Failed(e@),
        }
    }
}

impl View for Written {
    type V = WrittenView;

    open spec fn view(&self) -> WrittenView {
        match self {
            Written::Pending => WrittenView::Pending,
            Written::Done => WrittenView::Done,
            Written::Failed(e) => WrittenView::Failed(e@),
        }
    }
}

impl View for Listing {
    type V = ListingView;

    open spec fn view(&self) -> ListingView {
        match self {
            Listing::Pending => ListingView::Pending,
            Listing::Keys(k) => ListingView::Keys(texts(k@)),
            Listing::Failed(e) => ListingView::Failed(e@),
        }
    }
}

impl View for Payload {
    type V = PayloadView;

    open spec fn view(&self) -> PayloadView {
        match self {
            Payload::Text(s) => PayloadView::Text(s@),
            Payload::Record(t) => PayloadView::Record(t@),
            Payload::Records(v) => PayloadView::Records(records(v@)),
        }
    }
}

impl View for Reply {
    type V = ReplyView;

    open spec fn view(&self) -> ReplyView {
        ReplyView { status: self.status, payload: self.payload@ }
    }
}

impl View for Failure {
    type V = FailureView;

    open spec fn view(&self) -> FailureView {
        match self {
            Failure::Body(e) => FailureView::Body(e@),
            Failure::Store(e) => FailureView::Store(e@),
        }
    }
}

impl View for Step {
    type V = StepView;

    open spec fn view(&self) -> StepView {
        match self {
            Step::Fetch(k) => StepView::Fetch(k@),
            Step::Put(k, t) => StepView::Put(k@, t@),
            Step::Delete(k) => StepView::Delete(k@),
            Step::List => StepView::List,
            Step::FetchAll(k) => StepView::FetchAll(texts(k@)),
            Step::Respond(r) => StepView::Respond(r@),
            Step::Fail(f) => StepView::Fail(f@),
        }
    }
}

/// The reply with status 200 that carries one record.
pub open spec fn ok_record(t: TodoView) -> StepView {
    StepView::Respond(ReplyView { status: 200, payload: PayloadView::Record(t) })
}

/// The reply with status 200 that carries records.
pub open spec fn ok_records(ts: Seq<TodoView>) -> StepView {
    StepView::Respond(ReplyView { status: 200, payload: PayloadView::Records(ts) })
}

/// The reply with the given status and text.
pub open spec fn text_reply(status: u16, text: Seq<char>) -> StepView {
    StepView::Respond(ReplyView { status, payload: PayloadView::Text(text) })
}

/// The reply that every route gives for a record that is not there.
pub open spec fn not_found() -> StepView {
    text_reply(404, "Todo not found"@)
}

impl Reply {
    /// A reply with the given status and text.
    pub fn text(status: u16, text: String) -> (reply: Reply)
        ensures
            reply@ == (ReplyView { status, payload: PayloadView::Text(text@) }),
    {
        Reply { status, payload: Payload::Text(text) }
    }

    /// The reply for a record that is not there: status 404 and the text
    /// "Todo not found".
    pub fn not_found() -> (reply: Reply)
        ensures
            StepView::Respond(reply@) == not_found(),
    {
        Reply::text(404, String::from_str("Todo not found"))
    }

    /// The reply with status 200 that carries one record.
    pub fn record(todo: Todo) -> (reply: Reply)
        ensures
            StepView::Respond(reply@) == ok_record(todo@),
    {
        Reply { status: 200, payload: Payload::Record(todo) }
    }

    /// The reply with status 200 that carries records.
    pub fn records(todos: Vec<Todo>) -> (reply: Reply)
        ensures
            StepView::Respond(reply@) == ok_records(records(todos@)),
    {
        Reply { status: 200, payload: Payload::Records(todos) }
    }
}

} // verus!
