use todo_worker::protocol::{Failure, Listing, Lookup, Payload, Reply, Step, Written};
use todo_worker::state::{SharedData, Todo, TodoUpdate};
use todo_worker::todo_handlers::{
    collect_present, create_todo, delete_todo, get_all_todos, index, todoby_id, update_todo,
};

fn todo(id: u8, name: &str, description: &str) -> Todo {
    Todo { id, name: name.to_string(), description: description.to_string() }
}

fn update(name: &str, description: &str) -> TodoUpdate {
    TodoUpdate { name: name.to_string(), description: description.to_string() }
}

fn text(status: u16, body: &str) -> Step {
    Step::Respond(Reply { status, payload: Payload::Text(body.to_string()) })
}

fn record(t: Todo) -> Step {
    Step::Respond(Reply { status: 200, payload: Payload::Record(t) })
}

fn some(s: &str) -> Option<String> {
    Some(s.to_string())
}

#[test]
fn index_says_what_the_service_is() {
    assert_eq!(index(), Reply { status: 200, payload: Payload::Text("Todo Api".to_string()) });
}

#[test]
fn shared_data_carries_a_name() {
    let data = SharedData { name: "Rust Worker".to_string() };
    assert_eq!(data.clone().name, "Rust Worker");
}

#[test]
fn todo_clone_keeps_every_field() {
    let t = todo(9, "n", "d");
    assert_eq!(t.clone(), t);
}

#[test]
fn update_body_takes_the_given_id() {
    assert_eq!(update("a", "b").into_todo(5), todo(5, "a", "b"));
}

#[test]
fn reply_builders() {
    assert_eq!(Reply::not_found(), Reply { status: 404, payload: Payload::Text("Todo not found".to_string()) });
    assert_eq!(Reply::text(204, String::new()), Reply { status: 204, payload: Payload::Text(String::new()) });
    assert_eq!(Reply::record(todo(1, "a", "b")), Reply { status: 200, payload: Payload::Record(todo(1, "a", "b")) });
    assert_eq!(Reply::records(vec![todo(1, "a", "b")]), Reply { status: 200, payload: Payload::Records(vec![todo(1, "a", "b")]) });
}

#[test]
fn create_writes_under_the_decimal_key() {
    assert_eq!(
        create_todo(Ok(todo(7, "milk", "buy milk")), Written::Pending),
        Step::Put("7".to_string(), todo(7, "milk", "buy milk"))
    );
    assert_eq!(
        create_todo(Ok(todo(255, "x", "")), Written::Pending),
        Step::Put("255".to_string(), todo(255, "x", ""))
    );
}

#[test]
fn create_echoes_the_record_once_written() {
    assert_eq!(create_todo(Ok(todo(7, "milk", "buy milk")), Written::Done), record(todo(7, "milk", "buy milk")));
}

#[test]
fn create_fails_on_a_malformed_body() {
    assert_eq!(
        create_todo(Err("missing field `id`".to_string()), Written::Pending),
        Step::Fail(Failure::Body("missing field `id`".to_string()))
    );
    assert_eq!(
        create_todo(Err("bad".to_string()), Written::Done),
        Step::Fail(Failure::Body("bad".to_string()))
    );
}

#[test]
fn create_fails_when_the_store_fails() {
    assert_eq!(
        create_todo(Ok(todo(1, "a", "b")), Written::Failed("quota".to_string())),
        Step::Fail(Failure::Store("quota".to_string()))
    );
}

#[test]
fn get_fetches_the_key_of_the_path() {
    assert_eq!(todoby_id(some("42"), Lookup::Pending), Step::Fetch("42".to_string()));
    assert_eq!(todoby_id(some("042"), Lookup::Pending), Step::Fetch("042".to_string()));
    assert_eq!(todoby_id(some("abc"), Lookup::Pending), Step::Fetch("abc".to_string()));
}

#[test]
fn get_returns_the_record_found() {
    assert_eq!(todoby_id(some("3"), Lookup::Found(todo(3, "n", "d"))), record(todo(3, "n", "d")));
}

#[test]
fn get_of_a_missing_record_is_not_found() {
    assert_eq!(todoby_id(some("42"), Lookup::Missing), text(404, "Todo not found"));
}

#[test]
fn get_without_an_id_is_not_found() {
    assert_eq!(todoby_id(None, Lookup::Pending), text(404, "Todo not found"));
    assert_eq!(todoby_id(None, Lookup::Found(todo(1, "a", "b"))), text(404, "Todo not found"));
}

#[test]
fn get_fails_when_the_store_fails() {
    assert_eq!(
        todoby_id(some("1"), Lookup::Failed("corrupt".to_string())),
        Step::Fail(Failure::Store("corrupt".to_string()))
    );
}

#[test]
fn update_checks_for_the_record_first() {
    assert_eq!(
        update_todo(some("5"), Ok(update("a", "b")), Lookup::Pending, Written::Pending),
        Step::Fetch("5".to_string())
    );
}

#[test]
fn update_writes_the_new_record_under_the_same_key() {
    assert_eq!(
        update_todo(some("5"), Ok(update("a", "b")), Lookup::Found(todo(5, "old", "older")), Written::Pending),
        Step::Put("5".to_string(), todo(5, "a", "b"))
    );
    assert_eq!(
        update_todo(some("005"), Ok(update("a", "b")), Lookup::Found(todo(5, "old", "older")), Written::Pending),
        Step::Put("005".to_string(), todo(5, "a", "b"))
    );
}

#[test]
fn update_takes_the_id_from_the_path_not_from_the_store() {
    assert_eq!(
        update_todo(some("5"), Ok(update("a", "b")), Lookup::Found(todo(9, "old", "older")), Written::Done),
        record(todo(5, "a", "b"))
    );
}

#[test]
fn update_of_a_missing_record_is_not_found() {
    assert_eq!(
        update_todo(some("999"), Ok(update("a", "b")), Lookup::Missing, Written::Pending),
        text(404, "Todo not found")
    );
    assert_eq!(
        update_todo(some("9"), Ok(update("a", "b")), Lookup::Missing, Written::Pending),
        text(404, "Todo not found")
    );
}

#[test]
fn update_without_an_id_is_not_found() {
    assert_eq!(
        update_todo(None, Ok(update("a", "b")), Lookup::Pending, Written::Pending),
        text(404, "Todo not found")
    );
    assert_eq!(
        update_todo(None, Err("bad".to_string()), Lookup::Pending, Written::Pending),
        text(404, "Todo not found")
    );
}

#[test]
fn update_rejects_an_id_that_is_no_id() {
    for id in ["abc", "999", "256", "-1", ""] {
        assert_eq!(
            update_todo(some(id), Ok(update("a", "b")), Lookup::Found(todo(1, "x", "y")), Written::Pending),
            text(400, "Invalid todo id"),
            "on {:?}",
            id
        );
    }
}

#[test]
fn update_fails_on_a_malformed_body() {
    assert_eq!(
        update_todo(some("5"), Err("missing field `name`".to_string()), Lookup::Pending, Written::Pending),
        Step::Fail(Failure::Body("missing field `name`".to_string()))
    );
}

#[test]
fn update_fails_when_the_store_fails() {
    assert_eq!(
        update_todo(some("5"), Ok(update("a", "b")), Lookup::Failed("down".to_string()), Written::Pending),
        Step::Fail(Failure::Store("down".to_string()))
    );
    assert_eq!(
        update_todo(some("5"), Ok(update("a", "b")), Lookup::Found(todo(5, "x", "y")), Written::Failed("full".to_string())),
        Step::Fail(Failure::Store("full".to_string()))
    );
}

#[test]
fn delete_removes_the_key_of_the_path() {
    assert_eq!(delete_todo(some("8"), Written::Pending), Step::Delete("8".to_string()));
}

#[test]
fn delete_answers_no_content() {
    assert_eq!(delete_todo(some("8"), Written::Done), text(204, ""));
}

#[test]
fn delete_without_an_id_is_not_found() {
    assert_eq!(delete_todo(None, Written::Pending), text(404, "Todo not found"));
}

#[test]
fn delete_reports_a_store_failure_as_404_with_its_message() {
    assert_eq!(delete_todo(some("8"), Written::Failed("kv unreachable".to_string())), text(404, "kv unreachable"));
}

#[test]
fn list_asks_for_the_keys_first() {
    assert_eq!(get_all_todos(Listing::Pending, None), Step::List);
    assert_eq!(get_all_todos(Listing::Pending, Some(vec![Lookup::Missing])), Step::List);
}

#[test]
fn list_fetches_every_key_in_listing_order() {
    let keys = vec!["3".to_string(), "1".to_string(), "2".to_string()];
    assert_eq!(get_all_todos(Listing::Keys(keys.clone()), None), Step::FetchAll(keys));
}

#[test]
fn list_fails_when_the_listing_fails() {
    assert_eq!(
        get_all_todos(Listing::Failed("no namespace".to_string()), None),
        Step::Fail(Failure::Store("no namespace".to_string()))
    );
}

#[test]
fn list_keeps_the_records_and_drops_the_rest() {
    let keys = vec!["1".to_string(), "2".to_string(), "3".to_string(), "4".to_string()];
    let answers = vec![
        Lookup::Found(todo(1, "a", "A")),
        Lookup::Missing,
        Lookup::Failed("not json".to_string()),
        Lookup::Found(todo(4, "d", "D")),
    ];
    assert_eq!(
        get_all_todos(Listing::Keys(keys), Some(answers)),
        Step::Respond(Reply {
            status: 200,
            payload: Payload::Records(vec![todo(1, "a", "A"), todo(4, "d", "D")]),
        })
    );
}

#[test]
fn list_of_an_empty_store_is_an_empty_array() {
    assert_eq!(
        get_all_todos(Listing::Keys(vec![]), Some(vec![])),
        Step::Respond(Reply { status: 200, payload: Payload::Records(vec![]) })
    );
}

#[test]
fn collect_present_keeps_order() {
    let answers = vec![
        Lookup::Pending,
        Lookup::Found(todo(3, "c", "C")),
        Lookup::Found(todo(1, "a", "A")),
        Lookup::Missing,
        Lookup::Found(todo(2, "b", "B")),
    ];
    assert_eq!(collect_present(&answers), vec![todo(3, "c", "C"), todo(1, "a", "A"), todo(2, "b", "B")]);
    assert_eq!(collect_present(&vec![]), vec![]);
}
