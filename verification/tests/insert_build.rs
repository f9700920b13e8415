use sql_builder::Insert;
use sql_builder::InsertData;
use sql_builder::InsertImpl;
use sql_builder::NullType;
use sql_builder::OnConflict;
use sql_builder::Value;

fn simple_data() -> InsertData {
    InsertData {
        into_clause: "user".to_string(),
        columns: vec!["name".to_string(), "age".to_string()],
        row_values: vec![vec![Value::String("Alice".to_string()), Value::I32(30)]],
        lookup: vec![],
        on_conflict: OnConflict::ABORT,
        returning_clause: None,
    }
}

#[test]
fn sqlite_simple_insert() {
    let (text, params) = InsertImpl::SQLite(simple_data()).build();
    assert_eq!(text, "INSERT OR ABORT INTO user (name, age) VALUES (?, ?);");
    assert_eq!(
        params,
        vec![Value::String("Alice".to_string()), Value::I32(30)]
    );
}

#[test]
fn postgres_simple_insert() {
    let (text, params) = InsertImpl::Postgres(simple_data()).build();
    assert_eq!(
        text,
        "INSERT INTO \"user\" (\"name\", \"age\") VALUES ($1, $2);"
    );
    assert_eq!(
        params,
        vec![Value::String("Alice".to_string()), Value::I32(30)]
    );
}

#[test]
fn mysql_simple_insert() {
    let (text, params) = InsertImpl::MySQL(simple_data()).build();
    assert_eq!(text, "INSERT INTO `user` (`name`, `age`) VALUES (?, ?);");
    assert_eq!(params.len(), 2);
}

#[test]
fn mysql_default_values_with_returning() {
    let d = InsertData {
        into_clause: "user".to_string(),
        columns: vec![],
        row_values: vec![],
        lookup: vec![],
        on_conflict: OnConflict::ABORT,
        returning_clause: Some(vec!["id".to_string()]),
    };
    let (text, params) = InsertImpl::MySQL(d).build();
    assert_eq!(
        text,
        "INSERT OR ABORT INTO `user` DEFAULT VALUES RETURNING `id`;"
    );
    assert_eq!(params, vec![]);
}

#[test]
fn sqlite_default_values_ignores_rows() {
    let d = InsertData {
        into_clause: "user".to_string(),
        columns: vec![],
        row_values: vec![vec![Value::I64(1)], vec![Value::I64(2)]],
        lookup: vec![],
        on_conflict: OnConflict::ABORT,
        returning_clause: None,
    };
    let (text, params) = InsertImpl::SQLite(d).build();
    assert_eq!(text, "INSERT OR ABORT INTO user DEFAULT VALUES;");
    assert_eq!(params, vec![]);
}

#[test]
fn postgres_default_values_with_returning() {
    let d = InsertData {
        into_clause: "user".to_string(),
        columns: vec![],
        row_values: vec![],
        lookup: vec![],
        on_conflict: OnConflict::ROLLBACK,
        returning_clause: Some(vec!["id".to_string(), "name".to_string()]),
    };
    let (text, params) = InsertImpl::Postgres(d).build();
    assert_eq!(
        text,
        "INSERT INTO \"user\" DEFAULT VALUES RETURNING \"id\", \"name\";"
    );
    assert_eq!(params, vec![]);
}

#[test]
fn sqlite_returning_uses_double_quotes() {
    let mut d = simple_data();
    d.returning_clause = Some(vec!["id".to_string()]);
    let (text, _) = InsertImpl::SQLite(d).build();
    assert_eq!(
        text,
        "INSERT OR ABORT INTO user (name, age) VALUES (?, ?) RETURNING \"id\";"
    );
}

#[test]
fn rollback_transaction_switches_conflict_clause() {
    let built = InsertImpl::SQLite(simple_data())
        .rollback_transaction()
        .build();
    assert_eq!(
        built.0,
        "INSERT OR ROLLBACK INTO user (name, age) VALUES (?, ?);"
    );
}

#[test]
fn rollback_transaction_is_idempotent() {
    let once = InsertImpl::SQLite(simple_data())
        .rollback_transaction()
        .build();
    let twice = InsertImpl::SQLite(simple_data())
        .rollback_transaction()
        .rollback_transaction()
        .build();
    assert_eq!(once.0, twice.0);
    assert_eq!(once.1, twice.1);
}

#[test]
fn mysql_column_branch_drops_conflict_clause() {
    let mut d = simple_data();
    d.on_conflict = OnConflict::ROLLBACK;
    let (text, _) = InsertImpl::MySQL(d).build();
    assert_eq!(text, "INSERT INTO `user` (`name`, `age`) VALUES (?, ?);");
}

#[test]
fn inline_values_never_reach_parameters() {
    let d = InsertData {
        into_clause: "t".to_string(),
        columns: vec![
            "a".to_string(),
            "b".to_string(),
            "c".to_string(),
            "d".to_string(),
        ],
        row_values: vec![vec![
            Value::Ident("col".to_string()),
            Value::Choice("red".to_string()),
            Value::Null(NullType::Choice),
            Value::I64(5),
        ]],
        lookup: vec![],
        on_conflict: OnConflict::ABORT,
        returning_clause: None,
    };
    let (text, params) = InsertImpl::SQLite(d).build();
    assert_eq!(
        text,
        "INSERT OR ABORT INTO t (a, b, c, d) VALUES (col, 'red', NULL, ?);"
    );
    assert_eq!(params, vec![Value::I64(5)]);
}

#[test]
fn postgres_quotes_ident_cells() {
    let d = InsertData {
        into_clause: "t".to_string(),
        columns: vec!["a".to_string(), "b".to_string()],
        row_values: vec![vec![Value::Ident("col".to_string()), Value::Bool(true)]],
        lookup: vec![],
        on_conflict: OnConflict::ABORT,
        returning_clause: None,
    };
    let (text, params) = InsertImpl::Postgres(d).build();
    assert_eq!(
        text,
        "INSERT INTO \"t\" (\"a\", \"b\") VALUES (\"col\", $1);"
    );
    assert_eq!(params, vec![Value::Bool(true)]);
}

#[test]
fn choice_escaping_differs_by_dialect() {
    let mut d = InsertData {
        into_clause: "t".to_string(),
        columns: vec!["a".to_string()],
        row_values: vec![vec![Value::Choice("it's".to_string())]],
        lookup: vec![],
        on_conflict: OnConflict::ABORT,
        returning_clause: None,
    };
    let (sqlite_text, _) = InsertImpl::SQLite(d).build();
    assert_eq!(
        sqlite_text,
        "INSERT OR ABORT INTO t (a) VALUES ('it''s');"
    );
    d = InsertData {
        into_clause: "t".to_string(),
        columns: vec!["a".to_string()],
        row_values: vec![vec![Value::Choice("it's".to_string())]],
        lookup: vec![],
        on_conflict: OnConflict::ABORT,
        returning_clause: None,
    };
    let (mysql_text, _) = InsertImpl::MySQL(d).build();
    assert_eq!(mysql_text, "INSERT INTO `t` (`a`) VALUES ('it\\'s');");
}

#[test]
fn postgres_numbering_runs_across_rows() {
    let mut rows = Vec::new();
    for r in 0..4 {
        let mut row = Vec::new();
        for c in 0..3 {
            row.push(Value::I32(r * 3 + c));
        }
        rows.push(row);
    }
    let d = InsertData {
        into_clause: "t".to_string(),
        columns: vec!["a".to_string(), "b".to_string(), "c".to_string()],
        row_values: rows,
        lookup: vec![],
        on_conflict: OnConflict::ABORT,
        returning_clause: None,
    };
    let (text, params) = InsertImpl::Postgres(d).build();
    assert_eq!(
        text,
        "INSERT INTO \"t\" (\"a\", \"b\", \"c\") VALUES \
         ($1, $2, $3), ($4, $5, $6), ($7, $8, $9), ($10, $11, $12);"
    );
    assert_eq!(params.len(), 12);
    assert_eq!(params[11], Value::I32(11));
}

#[test]
fn prefilled_lookup_shifts_postgres_numbering() {
    let d = InsertData {
        into_clause: "t".to_string(),
        columns: vec!["a".to_string()],
        row_values: vec![vec![Value::I16(7)]],
        lookup: vec![Value::Bool(false), Value::Bool(true)],
        on_conflict: OnConflict::ABORT,
        returning_clause: None,
    };
    let (text, params) = InsertImpl::Postgres(d).build();
    assert_eq!(text, "INSERT INTO \"t\" (\"a\") VALUES ($3);");
    assert_eq!(
        params,
        vec![Value::Bool(false), Value::Bool(true), Value::I16(7)]
    );
}

#[test]
fn sqlite_and_mysql_bind_in_the_same_order() {
    let make = || InsertData {
        into_clause: "t".to_string(),
        columns: vec!["a".to_string(), "b".to_string()],
        row_values: vec![
            vec![Value::I64(1), Value::Choice("x".to_string())],
            vec![Value::Null(NullType::I64), Value::String("y".to_string())],
        ],
        lookup: vec![],
        on_conflict: OnConflict::ABORT,
        returning_clause: None,
    };
    let (_, sqlite_params) = InsertImpl::SQLite(make()).build();
    let (_, mysql_params) = InsertImpl::MySQL(make()).build();
    assert_eq!(sqlite_params, mysql_params);
    assert_eq!(
        sqlite_params,
        vec![
            Value::I64(1),
            Value::Null(NullType::I64),
            Value::String("y".to_string()),
        ]
    );
}
