use axum_todo::models::{CreateTodo, UpdateTodo};
use axum_todo::query::{
    complete_statement, delete_statement, exists_statement, get_statement, insert_statement,
    list_statement, update_statement, Param, Statement,
};

const RETURNING: &str = " RETURNING id, title, description, completed, created_at, updated_at";

fn update_of(title: Option<&str>, description: Option<&str>, completed: Option<bool>) -> Statement {
    update_statement(
        42,
        UpdateTodo {
            title: title.map(|s| s.to_string()),
            description: description.map(|s| s.to_string()),
            completed,
        },
    )
}

#[test]
fn insert_binds_title_then_description() {
    let st = insert_statement(CreateTodo {
        title: "Buy milk".to_string(),
        description: Some("two litres".to_string()),
    });
    assert_eq!(
        st.sql,
        "INSERT INTO todos (title, description) VALUES ($1, $2) RETURNING id, title, description, completed, created_at, updated_at"
    );
    assert_eq!(
        st.params,
        vec![Param::Text("Buy milk".to_string()), Param::NullableText(Some("two litres".to_string()))]
    );
}

#[test]
fn insert_without_description_binds_null() {
    let st = insert_statement(CreateTodo { title: "Buy milk".to_string(), description: None });
    assert_eq!(st.params, vec![Param::Text("Buy milk".to_string()), Param::NullableText(None)]);
}

#[test]
fn list_without_filter_selects_everything_newest_first() {
    let st = list_statement(None);
    assert_eq!(
        st.sql,
        "SELECT id, title, description, completed, created_at, updated_at FROM todos ORDER BY created_at DESC"
    );
    assert!(st.params.is_empty());
}

#[test]
fn list_with_filter_binds_the_flag() {
    let done = list_statement(Some(true));
    assert_eq!(
        done.sql,
        "SELECT id, title, description, completed, created_at, updated_at FROM todos WHERE completed = $1 ORDER BY created_at DESC"
    );
    assert_eq!(done.params, vec![Param::Bool(true)]);
    let open = list_statement(Some(false));
    assert_eq!(open.sql, done.sql);
    assert_eq!(open.params, vec![Param::Bool(false)]);
}

#[test]
fn keyed_statements_bind_the_identifier() {
    assert_eq!(
        get_statement(7),
        Statement {
            sql: "SELECT id, title, description, completed, created_at, updated_at FROM todos WHERE id = $1"
                .to_string(),
            params: vec![Param::Uuid(7)],
        }
    );
    assert_eq!(
        exists_statement(8),
        Statement { sql: "SELECT id FROM todos WHERE id = $1".to_string(), params: vec![Param::Uuid(8)] }
    );
    assert_eq!(
        delete_statement(9),
        Statement { sql: "DELETE FROM todos WHERE id = $1".to_string(), params: vec![Param::Uuid(9)] }
    );
    assert_eq!(
        complete_statement(10),
        Statement {
            sql: "UPDATE todos SET completed = true, updated_at = NOW() WHERE id = $1 RETURNING id, title, description, completed, created_at, updated_at"
                .to_string(),
            params: vec![Param::Uuid(10)],
        }
    );
}

#[test]
fn update_of_all_fields() {
    let st = update_of(Some("t"), Some("d"), Some(true));
    assert_eq!(
        st.sql,
        format!(
            "UPDATE todos SET updated_at = NOW(), title = $1, description = $2, completed = $3 WHERE id = $4{}",
            RETURNING
        )
    );
    assert_eq!(
        st.params,
        vec![
            Param::Text("t".to_string()),
            Param::Text("d".to_string()),
            Param::Bool(true),
            Param::Uuid(42)
        ]
    );
}

#[test]
fn update_of_title_and_description() {
    let st = update_of(Some("t"), Some("d"), None);
    assert_eq!(
        st.sql,
        format!(
            "UPDATE todos SET updated_at = NOW(), title = $1, description = $2 WHERE id = $3{}",
            RETURNING
        )
    );
    assert_eq!(
        st.params,
        vec![Param::Text("t".to_string()), Param::Text("d".to_string()), Param::Uuid(42)]
    );
}

#[test]
fn update_of_title_and_completed() {
    let st = update_of(Some("t"), None, Some(false));
    assert_eq!(
        st.sql,
        format!(
            "UPDATE todos SET updated_at = NOW(), title = $1, completed = $2 WHERE id = $3{}",
            RETURNING
        )
    );
    assert_eq!(st.params, vec![Param::Text("t".to_string()), Param::Bool(false), Param::Uuid(42)]);
}

#[test]
fn update_of_title_only() {
    let st = update_of(Some("t"), None, None);
    assert_eq!(
        st.sql,
        format!("UPDATE todos SET updated_at = NOW(), title = $1 WHERE id = $2{}", RETURNING)
    );
    assert_eq!(st.params, vec![Param::Text("t".to_string()), Param::Uuid(42)]);
}

#[test]
fn update_of_description_and_completed() {
    let st = update_of(None, Some("d"), Some(true));
    assert_eq!(
        st.sql,
        format!(
            "UPDATE todos SET updated_at = NOW(), description = $1, completed = $2 WHERE id = $3{}",
            RETURNING
        )
    );
    assert_eq!(st.params, vec![Param::Text("d".to_string()), Param::Bool(true), Param::Uuid(42)]);
}

#[test]
fn update_of_description_only() {
    let st = update_of(None, Some("d"), None);
    assert_eq!(
        st.sql,
        format!("UPDATE todos SET updated_at = NOW(), description = $1 WHERE id = $2{}", RETURNING)
    );
    assert_eq!(st.params, vec![Param::Text("d".to_string()), Param::Uuid(42)]);
}

#[test]
fn update_of_completed_only() {
    let st = update_of(None, None, Some(true));
    assert_eq!(
        st.sql,
        format!("UPDATE todos SET updated_at = NOW(), completed = $1 WHERE id = $2{}", RETURNING)
    );
    assert_eq!(st.params, vec![Param::Bool(true), Param::Uuid(42)]);
}

#[test]
fn update_of_nothing_still_refreshes_the_time() {
    let st = update_of(None, None, None);
    assert_eq!(st.sql, format!("UPDATE todos SET updated_at = NOW() WHERE id = $1{}", RETURNING));
    assert_eq!(st.params, vec![Param::Uuid(42)]);
}

#[test]
fn update_with_an_empty_description_binds_the_empty_text() {
    let st = update_of(None, Some(""), None);
    assert_eq!(st.params, vec![Param::Text(String::new()), Param::Uuid(42)]);
}

#[test]
fn update_binds_as_many_values_as_it_numbers() {
    let cases: Vec<(Option<&str>, Option<&str>, Option<bool>)> = vec![
        (None, None, None),
        (Some("a"), None, None),
        (None, Some("b"), None),
        (None, None, Some(true)),
        (Some("a"), Some("b"), None),
        (Some("a"), None, Some(false)),
        (None, Some("b"), Some(true)),
        (Some("a"), Some("b"), Some(true)),
    ];
    for (title, description, completed) in cases {
        let st = update_of(title, description, completed);
        let placeholders = st.sql.matches('$').count();
        assert_eq!(placeholders, st.params.len());
        for n in 1..=st.params.len() {
            assert!(st.sql.contains(&format!("${}", n)));
        }
        assert_eq!(st.params.last(), Some(&Param::Uuid(42)));
        assert!(st.sql.contains(&format!(" WHERE id = ${} ", st.params.len())));
    }
}
