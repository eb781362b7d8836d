//! The handlers, one for each route.
//!
//! A handler never talks to the store. It is called with what the request
//! holds and with the answers that the store has given so far (`Pending`
//! where it has not been asked), and returns the next `Step`. Whoever runs
//! it performs the step, and calls it again with the answer filled in, until
//! the step is `Respond` or `Fail`.

use vstd::prelude::*;
use crate::key::{id_of, key_of, parse_id, todo_key};
use crate::protocol::{
    body_of, lookups, not_found, ok_record, ok_records, records, text_of, text_reply, Failure,
    FailureView, Listing, ListingView, Lookup, LookupView, Reply, ReplyView, PayloadView, Step,
    StepView, Written, WrittenView,
};
use crate::state::{Todo, TodoUpdate, TodoUpdateView, TodoView};

verus! {

/// The records among the answers to a fetch of many keys, in the order of
/// the answers. An answer that is no record is passed over.
pub open spec fn present(answers: Seq<LookupView>) -> Seq<TodoView>
    decreases answers.len(),
{
    if answers.len() == 0 {
        Seq::empty()
    } else {
        let before = present(answers.drop_last());
        match answers.last() {
            LookupView::Found(t) => before.push(t),
            _ => before,
        }
    }
}

/// The answers to a fetch of many keys, if they are in.
pub open spec fn answers_of(o: Option<Vec<Lookup>>) -> Option<Seq<LookupView>> {
    match o {
        Some(v) => Some(lookups(v@)),
        None => None,
    }
}

/// What the route `GET /` answers.
pub open spec fn index_spec() -> ReplyView {
    ReplyView { status: 200, payload: PayloadView::Text("Todo Api"@) }
}

/// What creating a record does next.
///
/// A body that is no record fails the request. Otherwise the record is
/// written under the key of its id, whatever that key held; once the store
/// has done so the record is sent back with status 200. A failure of the
/// store fails the request.
pub open spec fn create_todo_spec(body: Result<TodoView, Seq<char>>, stored: WrittenView) -> StepView {
    match body {
        Err(e) => StepView::Fail(FailureView::Body(e)),
        Ok(t) => match stored {
            WrittenView::Pending => StepView::Put(key_of(t.id), t),
            WrittenView::Done => ok_record(t),
            WrittenView::Failed(e) => StepView::Fail(FailureView::Store(e)),
        },
    }
}

/// What fetching one record does next.
///
/// Without an id in the path the answer is "not found". Otherwise the key
/// is fetched as it stands in the path; a record is sent back with status
/// 200, a key that holds nothing gives "not found", and a failure of the
/// store fails the request.
pub open spec fn todoby_id_spec(id: Option<Seq<char>>, fetched: LookupView) -> StepView {
    match id {
        None => not_found(),
        Some(k) => match fetched {
            LookupView::Pending => StepView::Fetch(k),
            LookupView::Found(t) => ok_record(t),
            LookupView::Missing => not_found(),
            LookupView::Failed(e) => StepView::Fail(FailureView::Store(e)),
        },
    }
}

/// What updating a record does next.
///
/// Without an id in the path the answer is "not found". A body that is no
/// update fails the request. Then the key is fetched as it stands in the
/// path: if it holds nothing the answer is "not found" and nothing is
/// written. If it holds a record but the path's id denotes no id, the
/// answer is status 400. Otherwise the record made of the path's id and the
/// body's name and description is written under the same key, and sent back
/// with status 200. A failure of the store fails the request.
pub open spec fn update_todo_spec(
    id: Option<Seq<char>>,
    body: Result<TodoUpdateView, Seq<char>>,
    fetched: LookupView,
    stored: WrittenView,
) -> StepView {
    match id {
        None => not_found(),
        Some(k) => match body {
            Err(e) => StepView::Fail(FailureView::Body(e)),
            Ok(b) => match fetched {
                LookupView::Pending => StepView::Fetch(k),
                LookupView::Missing => not_found(),
                LookupView::Failed(e) => StepView::Fail(FailureView::Store(e)),
                LookupView::Found(_) => match id_of(k) {
                    None => text_reply(400, "Invalid todo id"@),
                    Some(n) => match stored {
                        WrittenView::Pending => StepView::Put(k, b.with_id(n)),
                        WrittenView::Done => ok_record(b.with_id(n)),
                        WrittenView::Failed(e) => StepView::Fail(FailureView::Store(e)),
                    },
                },
            },
        },
    }
}

/// What deleting a record does next.
///
/// Without an id in the path the answer is "not found". Otherwise the key
/// is removed as it stands in the path, without a look at what it holds;
/// once the store has done so the answer is status 204 with an empty body.
/// A failure of the store is answered with status 404 and the store's
/// message.
pub open spec fn delete_todo_spec(id: Option<Seq<char>>, removed: WrittenView) -> StepView {
    match id {
        None => not_found(),
        Some(k) => match removed {
            WrittenView::Pending => StepView::Delete(k),
            WrittenView::Done => text_reply(204, Seq::empty()),
            WrittenView::Failed(e) => text_reply(404, e),
        },
    }
}

/// What listing all records does next.
///
/// First the names of all keys are listed; a failure there fails the
/// request. Then all those keys are fetched, in the order of the listing.
/// The records among the answers are sent back with status 200, in that
/// order; an answer that is no record is left out and fails nothing.
pub open spec fn get_all_todos_spec(listed: ListingView, fetched: Option<Seq<LookupView>>) -> StepView {
    match listed {
        ListingView::Pending => StepView::List,
        ListingView::Failed(e) => StepView::Fail(FailureView::Store(e)),
        ListingView::Keys(ks) => match fetched {
            None => StepView::FetchAll(ks),
            Some(answers) => ok_records(present(answers)),
        },
    }
}

/// Whether a step ends its request: a reply or a failure.
pub open spec fn ends(step: StepView) -> bool {
    step is Respond || step is Fail
}

/// Whether a step, if it is a reply, carries a status that this service
/// uses: 200, 204, 400 or 404.
pub open spec fn status_in_use(step: StepView) -> bool {
    match step {
        StepView::Respond(reply) => reply.status == 200 || reply.status == 204 || reply.status
            == 400 || reply.status == 404,
        _ => true,
    }
}

/// Creating a record asks for one write at most: every step is a write, a
/// reply or a failure, and once the write is answered the request ends.
pub proof fn law_create_finishes(body: Result<TodoView, Seq<char>>, stored: WrittenView)
    ensures
        create_todo_spec(body, stored) is Put || ends(create_todo_spec(body, stored)),
        !(stored is Pending) ==> ends(create_todo_spec(body, stored)),
        status_in_use(create_todo_spec(body, stored)),
{
}

/// Fetching a record asks for one fetch at most, and ends once it is
/// answered.
pub proof fn law_get_finishes(id: Option<Seq<char>>, fetched: LookupView)
    ensures
        todoby_id_spec(id, fetched) is Fetch || ends(todoby_id_spec(id, fetched)),
        !(fetched is Pending) ==> ends(todoby_id_spec(id, fetched)),
        status_in_use(todoby_id_spec(id, fetched)),
{
}

/// Updating a record asks for one fetch and then for one write at most:
/// it never writes before the fetch is answered with a record, never
/// fetches again once it is answered, and ends once both are answered.
pub proof fn law_update_finishes(
    id: Option<Seq<char>>,
    body: Result<TodoUpdateView, Seq<char>>,
    fetched: LookupView,
    stored: WrittenView,
)
    ensures
        update_todo_spec(id, body, fetched, stored) is Fetch || update_todo_spec(
            id,
            body,
            fetched,
            stored,
        ) is Put || ends(update_todo_spec(id, body, fetched, stored)),
        update_todo_spec(id, body, fetched, stored) is Put ==> fetched is Found,
        !(fetched is Pending) ==> !(update_todo_spec(id, body, fetched, stored) is Fetch),
        !(fetched is Pending) && !(stored is Pending) ==> ends(
            update_todo_spec(id, body, fetched, stored),
        ),
        status_in_use(update_todo_spec(id, body, fetched, stored)),
{
}

/// Deleting a record asks for one removal at most, and ends once it is
/// answered; it ends with a reply, never with a failure.
pub proof fn law_delete_finishes(id: Option<Seq<char>>, removed: WrittenView)
    ensures
        delete_todo_spec(id, removed) is Delete || delete_todo_spec(id, removed) is Respond,
        !(removed is Pending) ==> delete_todo_spec(id, removed) is Respond,
        status_in_use(delete_todo_spec(id, removed)),
{
}

/// Listing all records asks for the names of the keys, then for their
/// records, and ends once both are answered. Once the names are in, no
/// answer to a fetch makes it fail.
pub proof fn law_list_finishes(listed: ListingView, fetched: Option<Seq<LookupView>>)
    ensures
        get_all_todos_spec(listed, fetched) is List || get_all_todos_spec(listed, fetched)
            is FetchAll || ends(get_all_todos_spec(listed, fetched)),
        !(listed is Pending) && fetched is Some ==> ends(get_all_todos_spec(listed, fetched)),
        listed is Keys && fetched is Some ==> get_all_todos_spec(listed, fetched) is Respond,
        status_in_use(get_all_todos_spec(listed, fetched)),
{
}

/// Copies the records out of the answers to a fetch of many keys.
pub fn collect_present(answers: &Vec<Lookup>) -> (todos: Vec<Todo>)
    ensures
        records(todos@) == present(lookups(answers@)),
{
    let mut todos: Vec<Todo> = Vec::new();
    let mut at: usize = 0;
    assert(records(todos@) =~= present(lookups(answers@).take(0)));
    while at < answers.len()
        invariant
            at <= answers.len(),
            records(todos@) == present(lookups(answers@).take(at as int)),
        decreases answers.len() - at,
    {
        let ghost before = records(todos@);
        let ghost seen = lookups(answers@).take(at + 1);
        proof {
            assert(seen.drop_last() =~= lookups(answers@).take(at as int));
            assert(seen.last() == answers@[at as int]@);
        }
        match &answers[at] {
            Lookup::Found(todo) => {
                todos.push(todo.clone());
                assert(records(todos@) =~= before.push(todo@));
            },
            _ => {},
        }
        at += 1;
    }
    assert(lookups(answers@).take(at as int) =~= lookups(answers@));
    todos
}

/// Answers `GET /`.
pub fn index() -> (reply: Reply)
    ensures
        reply@ == index_spec(),
{
    Reply::text(200, String::from_str("Todo Api"))
}

/// Lists all records: see `get_all_todos_spec`.
pub fn get_all_todos(listed: Listing, fetched: Option<Vec<Lookup>>) -> (step: Step)
    ensures
        step@ == get_all_todos_spec(listed@, answers_of(fetched)),
{
    match listed {
        Listing::Pending => Step::List,
        Listing::Failed(e) => Step::Fail(Failure::Store(e)),
        Listing::Keys(keys) => match fetched {
            None => Step::FetchAll(keys),
            Some(answers) => Step::Respond(Reply::records(collect_present(&answers))),
        },
    }
}

/// Creates or replaces a record: see `create_todo_spec`.
pub fn create_todo(body: Result<Todo, String>, stored: Written) -> (step: Step)
    ensures
        step@ == create_todo_spec(body_of(body), stored@),
{
    match body {
        Err(e) => Step::Fail(Failure::Body(e)),
        Ok(todo) => match stored {
            Written::Pending => Step::Put(todo_key(todo.id), todo),
            Written::Done => Step::Respond(Reply::record(todo)),
            Written::Failed(e) => Step::Fail(Failure::Store(e)),
        },
    }
}

/// Fetches one record: see `todoby_id_spec`.
pub fn todoby_id(id: Option<String>, fetched: Lookup) -> (step: Step)
    ensures
        step@ == todoby_id_spec(text_of(id), fetched@),
{
    match id {
        None => Step::Respond(Reply::not_found()),
        Some(key) => match fetched {
            Lookup::Pending => Step::Fetch(key),
            Lookup::Found(todo) => Step::Respond(Reply::record(todo)),
            Lookup::Missing => Step::Respond(Reply::not_found()),
            Lookup::Failed(e) => Step::Fail(Failure::Store(e)),
        },
    }
}

/// Replaces the name and the description of a record that is there: see
/// `update_todo_spec`.
pub fn update_todo(
    id: Option<String>,
    body: Result<TodoUpdate, String>,
    fetched: Lookup,
    stored: Written,
) -> (step: Step)
    ensures
        step@ == update_todo_spec(text_of(id), body_of(body), fetched@, stored@),
{
    let key = match id {
        None => {
            return Step::Respond(Reply::not_found());
        },
        Some(key) => key,
    };
    let update = match body {
        Err(e) => {
            return Step::Fail(Failure::Body(e));
        },
        Ok(update) => update,
    };
    match fetched {
        Lookup::Pending => Step::Fetch(key),
        Lookup::Missing => Step::Respond(Reply::not_found()),
        Lookup::Failed(e) => Step::Fail(Failure::Store(e)),
        Lookup::Found(_) => match parse_id(key.as_str()) {
            None => Step::Respond(Reply::text(400, String::from_str("Invalid todo id"))),
            Some(n) => match stored {
                Written::Pending => Step::Put(key, update.into_todo(n)),
                Written::Done => Step::Respond(Reply::record(update.into_todo(n))),
                Written::Failed(e) => Step::Fail(Failure::Store(e)),
            },
        },
    }
}

/// Deletes a record, whether it is there or not: see `delete_todo_spec`.
pub fn delete_todo(id: Option<String>, removed: Written) -> (step: Step)
    ensures
        step@ == delete_todo_spec(text_of(id), removed@),
{
    match id {
        None => Step::Respond(Reply::not_found()),
        Some(key) => match removed {
            Written::Pending => Step::Delete(key),
            Written::Done => Step::Respond(Reply::text(204, String::new())),
            Written::Failed(e) => Step::Respond(Reply::text(404, e)),
        },
    }
}

} // verus!
