use axum_todo::error::AppError;
use axum_todo::handlers::{
    create_todo, created, delete_todo, deleted, get_todo, list_todos, listed, mark_completed,
    returned, update_todo, Body, Reply, TodoFilter,
};
use axum_todo::models::{CreateTodo, Todo, UpdateTodo};
use axum_todo::repository::{MemoryTodoRepository, TodoRepository};

fn titled(title: &str) -> CreateTodo {
    CreateTodo { title: title.to_string(), description: None }
}

fn only_flag(completed: bool) -> UpdateTodo {
    UpdateTodo { title: None, description: None, completed: Some(completed) }
}

fn nothing() -> UpdateTodo {
    UpdateTodo { title: None, description: None, completed: None }
}

fn three() -> (MemoryTodoRepository, Todo, Todo, Todo) {
    let mut repo = MemoryTodoRepository::new();
    repo.set_time(1_000);
    let a = repo.create(titled("a")).unwrap();
    repo.set_time(2_000);
    let b = repo.create(titled("b")).unwrap();
    repo.set_time(3_000);
    let c = repo.create(titled("c")).unwrap();
    (repo, a, b, c)
}

#[test]
fn created_record_is_open_and_stamped_once() {
    let mut repo = MemoryTodoRepository::new();
    repo.set_time(1_700_000_000_000_000);
    let todo = repo.create(titled("Buy milk")).unwrap();
    assert_eq!(
        todo,
        Todo {
            id: 1,
            title: "Buy milk".to_string(),
            description: None,
            completed: false,
            created_at: 1_700_000_000_000_000,
            updated_at: 1_700_000_000_000_000,
        }
    );
    assert_ne!(todo.id, 0);
    assert_eq!(todo.created_at, todo.updated_at);
}

#[test]
fn created_record_keeps_its_description() {
    let mut repo = MemoryTodoRepository::new();
    let todo = repo
        .create(CreateTodo { title: "t".to_string(), description: Some("two litres".to_string()) })
        .unwrap();
    assert_eq!(todo.description, Some("two litres".to_string()));
    assert_eq!(repo.get(todo.id).unwrap(), todo);
}

#[test]
fn a_new_store_stamps_from_the_epoch() {
    let mut repo = MemoryTodoRepository::new();
    let first = repo.create(titled("a")).unwrap();
    let second = repo.create(titled("b")).unwrap();
    assert_eq!(first.created_at, 0);
    assert_eq!(second.created_at, 1);
}

#[test]
fn identifiers_count_up_from_one() {
    let (_, a, b, c) = three();
    assert_eq!((a.id, b.id, c.id), (1, 2, 3));
}

#[test]
fn identifiers_are_not_reused_after_a_delete() {
    let (mut repo, _, _, c) = three();
    repo.delete(c.id).unwrap();
    let d = repo.create(titled("d")).unwrap();
    assert_eq!(d.id, 4);
    assert!(matches!(repo.get(c.id), Err(AppError::NotFound(_))));
}

#[test]
fn list_without_filter_returns_all_newest_first() {
    let (repo, a, b, c) = three();
    assert_eq!(repo.list(None).unwrap(), vec![c, b, a]);
}

#[test]
fn list_of_an_empty_store_is_empty() {
    let repo = MemoryTodoRepository::new();
    assert_eq!(repo.list(None).unwrap(), Vec::<Todo>::new());
    assert_eq!(repo.list(Some(true)).unwrap(), Vec::<Todo>::new());
}

#[test]
fn list_with_filter_returns_only_the_matching_records() {
    let (mut repo, a, b, c) = three();
    let b = repo.mark_completed(b.id).unwrap();
    let done = repo.list(Some(true)).unwrap();
    assert_eq!(done, vec![b]);
    assert!(done.iter().all(|t| t.completed));
    let open = repo.list(Some(false)).unwrap();
    assert_eq!(open, vec![c, a]);
    assert!(open.iter().all(|t| !t.completed));
}

#[test]
fn get_of_an_absent_identifier_is_not_found() {
    let (repo, _, _, _) = three();
    assert_eq!(repo.get(99), Err(AppError::todo_not_found(99)));
    assert_eq!(
        repo.get(99),
        Err(AppError::NotFound(
            "Todo with id 00000000-0000-0000-0000-000000000063 not found".to_string()
        ))
    );
}

#[test]
fn get_returns_the_record_as_stored() {
    let (repo, a, b, c) = three();
    assert_eq!(repo.get(1).unwrap(), a);
    assert_eq!(repo.get(2).unwrap(), b);
    assert_eq!(repo.get(3).unwrap(), c);
}

#[test]
fn update_of_the_flag_leaves_the_texts_and_advances_the_time() {
    let mut repo = MemoryTodoRepository::new();
    repo.set_time(1_000);
    let before = repo
        .create(CreateTodo { title: "t".to_string(), description: Some("d".to_string()) })
        .unwrap();
    repo.set_time(5_000);
    let after = repo.update(before.id, only_flag(true)).unwrap();
    assert_eq!(
        after,
        Todo {
            id: before.id,
            title: "t".to_string(),
            description: Some("d".to_string()),
            completed: true,
            created_at: 1_000,
            updated_at: 5_000,
        }
    );
    assert!(after.updated_at > before.updated_at);
    assert_eq!(repo.get(before.id).unwrap(), after);
}

#[test]
fn update_of_nothing_advances_the_time_only() {
    let mut repo = MemoryTodoRepository::new();
    repo.set_time(1_000);
    let before = repo.create(titled("t")).unwrap();
    repo.set_time(1_500);
    let after = repo.update(before.id, nothing()).unwrap();
    assert_eq!(after, Todo { updated_at: 1_500, ..before });
}

#[test]
fn update_advances_the_time_where_the_clock_stands_still() {
    let mut repo = MemoryTodoRepository::new();
    repo.set_time(1_000);
    let before = repo.create(titled("t")).unwrap();
    let once = repo.update(before.id, nothing()).unwrap();
    let twice = repo.update(before.id, nothing()).unwrap();
    assert_eq!(once.updated_at, 1_001);
    assert_eq!(twice.updated_at, 1_002);
    repo.set_time(500);
    let thrice = repo.update(before.id, nothing()).unwrap();
    assert_eq!(thrice.updated_at, 1_003);
    assert_eq!(thrice.created_at, 1_000);
}

#[test]
fn update_writes_every_supplied_field() {
    let (mut repo, a, _, _) = three();
    let after = repo
        .update(
            a.id,
            UpdateTodo {
                title: Some("new".to_string()),
                description: Some("".to_string()),
                completed: Some(true),
            },
        )
        .unwrap();
    assert_eq!(after.title, "new");
    assert_eq!(after.description, Some(String::new()));
    assert!(after.completed);
    assert_eq!(after.created_at, a.created_at);
}

#[test]
fn update_leaves_the_other_records_alone() {
    let (mut repo, a, b, c) = three();
    let changed = repo.update(b.id, only_flag(true)).unwrap();
    assert_eq!(repo.list(None).unwrap(), vec![c, changed, a]);
}

#[test]
fn update_of_an_absent_identifier_is_not_found() {
    let (mut repo, a, b, c) = three();
    assert_eq!(repo.update(77, only_flag(true)), Err(AppError::todo_not_found(77)));
    assert_eq!(repo.list(None).unwrap(), vec![c, b, a]);
}

#[test]
fn delete_twice_succeeds_then_is_not_found() {
    let (mut repo, a, b, c) = three();
    assert_eq!(repo.delete(b.id), Ok(()));
    assert_eq!(repo.delete(b.id), Err(AppError::todo_not_found(b.id)));
    assert_eq!(repo.list(None).unwrap(), vec![c, a]);
}

#[test]
fn mark_completed_twice_stays_completed_and_advances_the_time() {
    let (mut repo, a, _, _) = three();
    repo.set_time(4_000);
    let once = repo.mark_completed(a.id).unwrap();
    assert_eq!(once, Todo { completed: true, updated_at: 4_000, ..a });
    repo.set_time(4_500);
    let twice = repo.mark_completed(a.id).unwrap();
    assert_eq!(twice, Todo { updated_at: 4_500, ..once });
    let thrice = repo.mark_completed(a.id).unwrap();
    assert!(thrice.completed);
    assert_eq!(thrice.updated_at, 4_501);
}

#[test]
fn mark_completed_is_the_update_of_the_flag() {
    let (mut repo, a, _, _) = three();
    let (mut other, _, _, _) = three();
    assert_eq!(repo.mark_completed(a.id), other.update(a.id, only_flag(true)));
    assert_eq!(repo.list(None), other.list(None));
}

#[test]
fn mark_completed_of_an_absent_identifier_is_not_found() {
    let mut repo = MemoryTodoRepository::new();
    assert_eq!(repo.mark_completed(1), Err(AppError::todo_not_found(1)));
}

#[test]
fn a_store_out_of_time_refuses_changes_and_keeps_its_records() {
    let mut repo = MemoryTodoRepository::new();
    repo.set_time(i64::MAX);
    let last = repo.create(titled("last")).unwrap();
    assert_eq!(last.created_at, i64::MAX);
    let exhausted = AppError::Internal("the store can take no further change".to_string());
    assert_eq!(repo.create(titled("late")), Err(exhausted));
    assert!(matches!(repo.update(last.id, nothing()), Err(AppError::Internal(_))));
    assert!(matches!(repo.mark_completed(last.id), Err(AppError::Internal(_))));
    assert_eq!(repo.update(2, nothing()), Err(AppError::todo_not_found(2)));
    assert_eq!(repo.list(None).unwrap(), vec![last]);
    assert_eq!(repo.delete(1), Ok(()));
}

#[test]
fn records_never_change_before_they_were_created() {
    let (mut repo, a, b, _) = three();
    repo.set_time(-5);
    repo.update(a.id, nothing()).unwrap();
    repo.mark_completed(b.id).unwrap();
    for todo in repo.list(None).unwrap() {
        assert!(todo.created_at <= todo.updated_at);
    }
}

#[test]
fn create_handler_answers_201_with_the_record() {
    let mut repo = MemoryTodoRepository::new();
    repo.set_time(10);
    let reply = create_todo(&mut repo, titled("Buy milk")).unwrap();
    assert_eq!(reply.status, 201);
    assert_eq!(reply.body, Body::Record(repo.get(1).unwrap()));
    assert_eq!(reply.status, axum::http::StatusCode::CREATED.as_u16());
}

#[test]
fn list_handler_answers_200_with_the_records() {
    let (mut repo, a, b, c) = three();
    let b = repo.mark_completed(b.id).unwrap();
    let all = list_todos(&repo, TodoFilter { completed: None }).unwrap();
    assert_eq!(all, Reply { status: 200, body: Body::Records(vec![c, b, a]) });
    let done = list_todos(&repo, TodoFilter { completed: Some(true) }).unwrap();
    assert_eq!(done, Reply { status: 200, body: Body::Records(vec![repo.get(2).unwrap()]) });
}

#[test]
fn get_handler_answers_200_or_passes_not_found_on() {
    let (repo, a, _, _) = three();
    assert_eq!(get_todo(&repo, a.id), Ok(Reply { status: 200, body: Body::Record(a) }));
    assert_eq!(get_todo(&repo, 9), Err(AppError::todo_not_found(9)));
}

#[test]
fn update_handler_answers_200_with_the_changed_record() {
    let (mut repo, _, b, _) = three();
    let reply = update_todo(&mut repo, b.id, only_flag(true)).unwrap();
    assert_eq!(reply, Reply { status: 200, body: Body::Record(repo.get(b.id).unwrap()) });
    assert_eq!(update_todo(&mut repo, 9, nothing()), Err(AppError::todo_not_found(9)));
}

#[test]
fn delete_handler_answers_204_without_a_body() {
    let (mut repo, a, _, _) = three();
    assert_eq!(delete_todo(&mut repo, a.id), Ok(Reply { status: 204, body: Body::Empty }));
    assert_eq!(delete_todo(&mut repo, a.id), Err(AppError::todo_not_found(a.id)));
    assert_eq!(Reply { status: 204, body: Body::Empty }.status, axum::http::StatusCode::NO_CONTENT.as_u16());
}

#[test]
fn mark_completed_handler_answers_200_with_the_marked_record() {
    let (mut repo, a, _, _) = three();
    let reply = mark_completed(&mut repo, a.id).unwrap();
    assert_eq!(reply.status, 200);
    match reply.body {
        Body::Record(todo) => assert!(todo.completed && todo.id == a.id),
        other => panic!("unexpected body {:?}", other),
    }
    assert_eq!(mark_completed(&mut repo, 9), Err(AppError::todo_not_found(9)));
}

#[test]
fn outcomes_are_answered_with_their_status() {
    let todo = Todo {
        id: 5,
        title: "t".to_string(),
        description: None,
        completed: false,
        created_at: 1,
        updated_at: 2,
    };
    assert_eq!(created(Ok(todo.clone())), Ok(Reply { status: 201, body: Body::Record(todo.clone()) }));
    assert_eq!(returned(Ok(todo.clone())), Ok(Reply { status: 200, body: Body::Record(todo.clone()) }));
    assert_eq!(
        listed(Ok(vec![todo.clone()])),
        Ok(Reply { status: 200, body: Body::Records(vec![todo.clone()]) })
    );
    assert_eq!(deleted(Ok(())), Ok(Reply { status: 204, body: Body::Empty }));
}

#[test]
fn failed_outcomes_are_passed_on_unchanged() {
    let failure = || AppError::DatabaseError("pool closed".to_string());
    assert_eq!(created(Err(failure())), Err(failure()));
    assert_eq!(returned(Err(failure())), Err(failure()));
    assert_eq!(listed(Err(failure())), Err(failure()));
    assert_eq!(deleted(Err(failure())), Err(failure()));
    assert_eq!(returned(Err(AppError::todo_not_found(3))), Err(AppError::todo_not_found(3)));
}
