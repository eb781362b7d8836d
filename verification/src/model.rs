//! The service in front of an ideal store, and what then holds of it.
//!
//! An ideal store never fails and answers every request from what the
//! requests before it left behind. It is a map from keys to records. To
//! serve a request is to run its handler step by step against that map.

use vstd::prelude::*;
use crate::key::{id_of, key_of, lemma_key_round_trip};
use crate::protocol::{
    not_found, ok_record, ok_records, text_reply, ListingView, LookupView, StepView, WrittenView,
};
use crate::state::{TodoUpdateView, TodoView};
use crate::todo_handlers::{
    create_todo_spec, delete_todo_spec, get_all_todos_spec, present, todoby_id_spec,
    update_todo_spec,
};

verus! {

/// A request that has been served: the store as the request left it, and the
/// step with which its handler ended.
pub struct Served {
    pub store: Map<Seq<char>, TodoView>,
    pub end: StepView,
}

/// What an ideal store answers to a fetch of one key.
pub open spec fn fetch(store: Map<Seq<char>, TodoView>, key: Seq<char>) -> LookupView {
    if store.contains_key(key) {
        LookupView::Found(store[key])
    } else {
        LookupView::Missing
    }
}

/// What an ideal store answers to a fetch of many keys.
pub open spec fn fetch_each(store: Map<Seq<char>, TodoView>, keys: Seq<Seq<char>>) -> Seq<LookupView> {
    Seq::new(keys.len(), |i: int| fetch(store, keys[i]))
}

/// The records that a store holds under the given keys, in their order.
pub open spec fn records_at(store: Map<Seq<char>, TodoView>, keys: Seq<Seq<char>>) -> Seq<TodoView> {
    Seq::new(keys.len(), |i: int| store[keys[i]])
}

/// Serves the creation of a record.
pub open spec fn serve_create(store: Map<Seq<char>, TodoView>, body: TodoView) -> Served {
    match create_todo_spec(Ok(body), WrittenView::Pending) {
        StepView::Put(k, t) => Served {
            store: store.insert(k, t),
            end: create_todo_spec(Ok(body), WrittenView::Done),
        },
        end => Served { store, end },
    }
}

/// Serves the fetch of one record.
pub open spec fn serve_get(store: Map<Seq<char>, TodoView>, id: Seq<char>) -> Served {
    match todoby_id_spec(Some(id), LookupView::Pending) {
        StepView::Fetch(k) => Served { store, end: todoby_id_spec(Some(id), fetch(store, k)) },
        end => Served { store, end },
    }
}

/// Serves the update of a record.
pub open spec fn serve_update(store: Map<Seq<char>, TodoView>, id: Seq<char>, body: TodoUpdateView) -> Served {
    match update_todo_spec(Some(id), Ok(body), LookupView::Pending, WrittenView::Pending) {
        StepView::Fetch(k) => {
            let got = fetch(store, k);
            match update_todo_spec(Some(id), Ok(body), got, WrittenView::Pending) {
                StepView::Put(k2, t) => Served {
                    store: store.insert(k2, t),
                    end: update_todo_spec(Some(id), Ok(body), got, WrittenView::Done),
                },
                end => Served { store, end },
            }
        },
        end => Served { store, end },
    }
}

/// Serves the deletion of a record.
pub open spec fn serve_delete(store: Map<Seq<char>, TodoView>, id: Seq<char>) -> Served {
    match delete_todo_spec(Some(id), WrittenView::Pending) {
        StepView::Delete(k) => Served {
            store: store.remove(k),
            end: delete_todo_spec(Some(id), WrittenView::Done),
        },
        end => Served { store, end },
    }
}

/// Serves the listing of all records, by a store that names `listing` as
/// its keys.
pub open spec fn serve_list(store: Map<Seq<char>, TodoView>, listing: Seq<Seq<char>>) -> Served {
    match get_all_todos_spec(ListingView::Pending, None) {
        StepView::List => match get_all_todos_spec(ListingView::Keys(listing), None) {
            StepView::FetchAll(ks) => Served {
                store,
                end: get_all_todos_spec(ListingView::Keys(listing), Some(fetch_each(store, ks))),
            },
            end => Served { store, end },
        },
        end => Served { store, end },
    }
}

/// A record that was created is what a fetch of its id then returns, name
/// and description included.
pub proof fn law_create_then_get(store: Map<Seq<char>, TodoView>, todo: TodoView)
    ensures
        serve_create(store, todo).end == ok_record(todo),
        serve_create(store, todo).store == store.insert(key_of(todo.id), todo),
        serve_get(serve_create(store, todo).store, key_of(todo.id)).end == ok_record(todo),
{
}

/// A deletion ends with status 204 and an empty body whether the record was
/// there or not, and leaves a store without it; a second deletion changes
/// nothing.
pub proof fn law_delete_is_idempotent(store: Map<Seq<char>, TodoView>, id: Seq<char>)
    ensures
        serve_delete(store, id).end == text_reply(204, Seq::empty()),
        serve_delete(store, id).store == store.remove(id),
        serve_delete(serve_delete(store, id).store, id) == serve_delete(store, id),
{
    assert(store.remove(id).remove(id) =~= store.remove(id));
}

/// A record created under an id that is taken replaces the one that was
/// there: the request succeeds, and the store is as if the first had never
/// been created.
pub proof fn law_create_overwrites(store: Map<Seq<char>, TodoView>, first: TodoView, second: TodoView)
    requires
        first.id == second.id,
    ensures
        serve_create(serve_create(store, first).store, second).end == ok_record(second),
        serve_create(serve_create(store, first).store, second).store == serve_create(
            store,
            second,
        ).store,
{
    let k = key_of(first.id);
    assert(store.insert(k, first).insert(k, second) =~= store.insert(k, second));
}

/// An update of a record that is there keeps the id of the path and takes
/// name and description from the body: that record is sent back, and it is
/// what the store then holds under the key. Nothing else changes.
pub proof fn law_update_keeps_id(store: Map<Seq<char>, TodoView>, id: Seq<char>, body: TodoUpdateView)
    requires
        store.contains_key(id),
        id_of(id) is Some,
    ensures
        serve_update(store, id, body).end == ok_record(body.with_id(id_of(id)->0)),
        serve_update(store, id, body).store == store.insert(id, body.with_id(id_of(id)->0)),
        serve_get(serve_update(store, id, body).store, id).end == ok_record(
            body.with_id(id_of(id)->0),
        ),
{
}

/// An update of a record that was created leaves a record with the id it
/// was created with.
pub proof fn law_update_after_create(store: Map<Seq<char>, TodoView>, todo: TodoView, body: TodoUpdateView)
    ensures
        serve_update(serve_create(store, todo).store, key_of(todo.id), body).end == ok_record(
            body.with_id(todo.id),
        ),
        serve_update(serve_create(store, todo).store, key_of(todo.id), body).store[key_of(
            todo.id,
        )] == body.with_id(todo.id),
{
    lemma_key_round_trip(todo.id);
}

/// An update of a record that is not there is answered "not found" and
/// writes nothing: a fetch of the id is still answered "not found".
pub proof fn law_update_missing_writes_nothing(
    store: Map<Seq<char>, TodoView>,
    id: Seq<char>,
    body: TodoUpdateView,
)
    requires
        !store.contains_key(id),
    ensures
        serve_update(store, id, body).end == not_found(),
        serve_update(store, id, body).store == store,
        serve_get(serve_update(store, id, body).store, id).end == not_found(),
{
}

/// A fetch of an id that the store does not hold is answered "not found",
/// and changes nothing.
pub proof fn law_get_missing(store: Map<Seq<char>, TodoView>, id: Seq<char>)
    requires
        !store.contains_key(id),
    ensures
        serve_get(store, id).end == not_found(),
        serve_get(store, id).store == store,
{
}

/// Where every answer is a record, none is left out.
pub proof fn lemma_present_all(store: Map<Seq<char>, TodoView>, keys: Seq<Seq<char>>)
    requires
        forall|i: int| 0 <= i < keys.len() ==> store.contains_key(#[trigger] keys[i]),
    ensures
        present(fetch_each(store, keys)) == records_at(store, keys),
    decreases keys.len(),
{
    if keys.len() == 0 {
        assert(present(fetch_each(store, keys)) =~= records_at(store, keys));
    } else {
        let answers = fetch_each(store, keys);
        let front = keys.drop_last();
        assert forall|i: int| 0 <= i < front.len() implies store.contains_key(#[trigger] front[i]) by {
            assert(front[i] == keys[i]);
        }
        lemma_present_all(store, front);
        assert(answers.drop_last() =~= fetch_each(store, front));
        assert(store.contains_key(keys[keys.len() - 1]));
        assert(records_at(store, front).push(store[keys.last()]) =~= records_at(store, keys));
    }
}

/// Where the store names each of its keys once, the list of all records
/// holds the record of every key, once, in the order of the names.
pub proof fn law_list_is_complete(store: Map<Seq<char>, TodoView>, listing: Seq<Seq<char>>)
    requires
        listing.no_duplicates(),
        listing.to_set() == store.dom(),
    ensures
        serve_list(store, listing).end == ok_records(records_at(store, listing)),
        serve_list(store, listing).store == store,
        records_at(store, listing).len() == listing.len(),
        forall|k: Seq<char>| #[trigger]
            store.contains_key(k) ==> exists|i: int|
                0 <= i < listing.len() && listing[i] == k && records_at(store, listing)[i]
                    == store[k],
{
    assert forall|i: int| 0 <= i < listing.len() implies store.contains_key(#[trigger] listing[i]) by {
        assert(listing.to_set().contains(listing[i]));
    }
    lemma_present_all(store, listing);
    assert forall|k: Seq<char>| #[trigger] store.contains_key(k) implies exists|i: int|
        0 <= i < listing.len() && listing[i] == k && records_at(store, listing)[i] == store[k] by {
        assert(listing.to_set().contains(k));
        let i = choose|i: int| 0 <= i < listing.len() && listing[i] == k;
        assert(records_at(store, listing)[i] == store[k]);
    }
}

/// An answer that is no record changes nothing in the list: the records
/// are those of the other answers.
pub proof fn lemma_present_skips(answers: Seq<LookupView>, at: int)
    requires
        0 <= at < answers.len(),
        !(answers[at] is Found),
    ensures
        present(answers) == present(answers.remove(at)),
    decreases answers.len(),
{
    if at == answers.len() - 1 {
        assert(answers.remove(at) =~= answers.drop_last());
    } else {
        lemma_present_skips(answers.drop_last(), at);
        assert(answers.remove(at).drop_last() =~= answers.drop_last().remove(at));
        assert(answers.remove(at).last() == answers.last());
    }
}

/// The list of all records is answered with status 200 whatever the
/// fetches gave. A key that holds nothing when it is fetched, or whose
/// fetch fails, is left out, and the list is that of the other keys.
pub proof fn law_list_tolerates_failures(listing: Seq<Seq<char>>, answers: Seq<LookupView>, at: int)
    requires
        0 <= at < answers.len(),
        !(answers[at] is Found),
    ensures
        get_all_todos_spec(ListingView::Keys(listing), Some(answers)) == ok_records(
            present(answers.remove(at)),
        ),
{
    lemma_present_skips(answers, at);
}

/// A key that was deleted after the store named it is left out of the list
/// of all records, which holds the records of the other keys.
pub proof fn law_list_after_delete(store: Map<Seq<char>, TodoView>, listing: Seq<Seq<char>>, at: int)
    requires
        listing.no_duplicates(),
        listing.to_set() == store.dom(),
        0 <= at < listing.len(),
    ensures
        serve_list(serve_delete(store, listing[at]).store, listing).end == ok_records(
            records_at(store, listing.remove(at)),
        ),
{
    let gone = listing[at];
    let left = store.remove(gone);
    let rest = listing.remove(at);
    let answers = fetch_each(left, listing);
    lemma_present_skips(answers, at);
    assert(answers.remove(at) =~= fetch_each(left, rest));
    assert forall|i: int| 0 <= i < rest.len() implies left.contains_key(#[trigger] rest[i]) by {
        let j = if i < at { i } else { i + 1 };
        assert(rest[i] == listing[j]);
        assert(listing.to_set().contains(listing[j]));
        assert(listing[j] != listing[at]);
    }
    lemma_present_all(left, rest);
    assert(records_at(left, rest) =~= records_at(store, rest));
}

} // verus!
