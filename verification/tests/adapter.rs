//! Renderer, batch-insert, row-materializer and misuse-recovery behaviour.

use turso_backend::ast_walk::{walk_query, AstStep};
use turso_backend::batch_insert::{
    build_insert_statements, classify_batch, contains_defaultable_value, sum_counts,
    BatchDecision, InsertValue,
};
use turso_backend::backend::TursoType;
use turso_backend::bind_collector::TursoBindCollector;
use turso_backend::connection::{
    column_name_or_default, execute_disposition, execute_success_result, field_keys,
    materialize_rows, prepare, ExecuteDisposition, TursoEngineError, TursoResult,
};
use turso_backend::limit_offset::LimitOffsetClause;
use turso_backend::query_builder::{unescape_identifier, TursoQueryBuilder};
use turso_backend::row::TursoRow;
use turso_backend::text::str_contains;
use turso_backend::value::{TursoValue, Value};

fn bound(v: Value, t: TursoType) -> InsertValue {
    InsertValue::Expression(TursoValue::from_turso_value(v), t)
}

fn text(s: &str) -> Value {
    Value::Text(String::from(s))
}

#[test]
fn builder_accumulates_sql_text() {
    let mut qb = TursoQueryBuilder::new();
    qb.push_sql("SELECT ");
    qb.push_identifier("name");
    qb.push_sql(" FROM ");
    qb.push_identifier("users");
    qb.push_sql(" WHERE id = ");
    qb.push_bind_param();
    assert_eq!(qb.finish(), "SELECT `name` FROM `users` WHERE id = ?");
}

#[test]
fn identifier_with_delimiter_is_doubled_and_round_trips() {
    let mut qb = TursoQueryBuilder::new();
    qb.push_identifier("we`ird");
    let rendered = qb.finish();
    assert_eq!(rendered, "`we``ird`");
    let body = &rendered[1..rendered.len() - 1];
    assert_eq!(unescape_identifier(body), "we`ird");
}

#[test]
fn identifier_with_many_delimiters_round_trips() {
    let name = "``a`b``";
    let mut qb = TursoQueryBuilder::new();
    qb.push_identifier(name);
    let rendered = qb.finish();
    let body = &rendered[1..rendered.len() - 1];
    assert_eq!(unescape_identifier(body), name);
}

#[test]
fn limit_offset_renders_all_four_shapes() {
    let cases: [(Option<i64>, Option<i64>, &str, Vec<i64>); 4] = [
        (None, None, "", vec![]),
        (Some(3), None, " LIMIT ?", vec![3]),
        (None, Some(5), " LIMIT -1  OFFSET ?", vec![5]),
        (Some(3), Some(5), " LIMIT ? OFFSET ?", vec![3, 5]),
    ];
    for (limit, offset, expected_sql, expected_binds) in cases {
        let clause = LimitOffsetClause { limit, offset };
        let mut qb = TursoQueryBuilder::new();
        let mut binds = TursoBindCollector::new();
        clause.walk_ast(&mut qb, &mut binds);
        assert_eq!(qb.finish(), expected_sql);
        assert_eq!(binds.binds.len(), expected_binds.len());
        for (entry, expected) in binds.binds.iter().zip(expected_binds) {
            assert!(entry.0.to_turso_value() == Value::Integer(expected));
            assert_eq!(entry.1, TursoType::Integer);
        }
    }
}

#[test]
fn offset_without_limit_renders_unbounded_limit_first() {
    let clause = LimitOffsetClause {
        limit: None,
        offset: Some(5),
    };
    let mut qb = TursoQueryBuilder::new();
    let mut binds = TursoBindCollector::new();
    clause.walk_ast(&mut qb, &mut binds);
    let sql = qb.finish();
    let limit_at = sql.find("LIMIT -1").expect("LIMIT -1 must appear");
    let offset_at = sql.find("OFFSET").expect("OFFSET must appear");
    assert!(limit_at < offset_at);
    assert!(binds.binds[0].0.to_turso_value() == Value::Integer(5));
}

#[test]
fn uniform_batch_renders_one_statement_with_all_tuples() {
    let rows = vec![
        vec![
            bound(text("Alice"), TursoType::Text),
            bound(Value::Integer(30), TursoType::Integer),
        ],
        vec![
            bound(text("Bob"), TursoType::Text),
            bound(Value::Integer(25), TursoType::Integer),
        ],
    ];
    assert!(!contains_defaultable_value(&rows));
    assert_eq!(classify_batch(&rows), BatchDecision::Uniform);
    let columns = vec![String::from("name"), String::from("age")];
    let statements = build_insert_statements("INSERT", "users", &columns, rows);
    assert_eq!(statements.len(), 1);
    assert_eq!(
        statements[0].sql,
        "INSERT INTO `users` (`name`, `age`) VALUES (?, ?), (?, ?)"
    );
    assert_eq!(statements[0].binds.len(), 4);
    assert!(statements[0].binds[0].0.to_turso_value() == text("Alice"));
    assert!(statements[0].binds[1].0.to_turso_value() == Value::Integer(30));
    assert!(statements[0].binds[2].0.to_turso_value() == text("Bob"));
    assert!(statements[0].binds[3].0.to_turso_value() == Value::Integer(25));
}

#[test]
fn mixed_batch_splits_into_one_statement_per_row() {
    let rows = vec![
        vec![
            bound(text("Alice"), TursoType::Text),
            InsertValue::Default,
        ],
        vec![
            bound(text("Bob"), TursoType::Text),
            bound(Value::Integer(25), TursoType::Integer),
        ],
        vec![
            bound(text("Carol"), TursoType::Text),
            bound(Value::Integer(40), TursoType::Integer),
        ],
    ];
    assert!(contains_defaultable_value(&rows));
    assert_eq!(classify_batch(&rows), BatchDecision::Mixed);
    let columns = vec![String::from("name"), String::from("age")];
    let statements = build_insert_statements("INSERT", "users", &columns, rows);
    assert_eq!(statements.len(), 3);
    assert_eq!(
        statements[0].sql,
        "INSERT INTO `users` (`name`, `age`) VALUES (?, DEFAULT)"
    );
    assert_eq!(statements[0].binds.len(), 1);
    assert_eq!(
        statements[1].sql,
        "INSERT INTO `users` (`name`, `age`) VALUES (?, ?)"
    );
    assert_eq!(statements[1].binds.len(), 2);
    assert_eq!(
        statements[2].sql,
        "INSERT INTO `users` (`name`, `age`) VALUES (?, ?)"
    );
    let summed = sum_counts(&vec![1usize, 1, 1]);
    assert_eq!(summed, Some(3));
}

#[test]
fn summed_counts_detect_overflow() {
    assert_eq!(sum_counts(&vec![usize::MAX, 1]), None);
    assert_eq!(sum_counts(&vec![2, 3, 4]), Some(9));
    assert_eq!(sum_counts(&vec![]), Some(0));
}

#[test]
fn duplicate_column_name_resolves_to_first_occurrence() {
    let row = TursoRow::from_turso_values(
        vec![Value::Integer(1), text("n"), Value::Integer(2)],
        vec![String::from("id"), String::from("name"), String::from("id")],
    );
    assert_eq!(row.idx_by_name("id"), Some(0));
    let field = row.get_named("id").expect("id resolves");
    assert_eq!(field.field_name(), "id");
    let value = field.value().expect("not null");
    assert!(value.to_turso_value() == Value::Integer(1));
}

#[test]
fn row_lookup_by_index_and_missing_names() {
    let row = TursoRow::from_turso_values(
        vec![Value::Null, text("x")],
        vec![String::from("a"), String::from("b")],
    );
    assert_eq!(row.field_count(), 2);
    assert_eq!(row.idx(1), Some(1));
    assert_eq!(row.idx(2), None);
    assert!(row.get(2).is_none());
    assert!(row.get_named("missing").is_none());
    let null_field = row.get(0).expect("in range");
    assert!(null_field.value().is_none());
    let text_field = row.get(1).expect("in range");
    assert!(text_field.value().expect("not null").to_turso_value() == text("x"));
}

#[test]
fn misuse_with_unexpected_row_is_retried_as_query() {
    let outcome: Result<usize, TursoEngineError> = Err(TursoEngineError::Misuse(String::from(
        "cannot step statement: unexpected row during execution",
    )));
    assert!(matches!(
        execute_disposition(outcome),
        ExecuteDisposition::RetryAsQuery
    ));
}

#[test]
fn other_engine_errors_keep_their_message() {
    let outcome: Result<usize, TursoEngineError> =
        Err(TursoEngineError::Misuse(String::from("some other misuse")));
    match execute_disposition(outcome) {
        ExecuteDisposition::Fail(m) => assert_eq!(m, "some other misuse"),
        _ => panic!("expected a failure"),
    }
    let outcome: Result<usize, TursoEngineError> = Err(TursoEngineError::Other(String::from(
        "table is locked: unexpected row",
    )));
    assert!(matches!(
        execute_disposition(outcome),
        ExecuteDisposition::Fail(_)
    ));
}

#[test]
fn completed_mutation_reports_its_count() {
    let outcome: Result<usize, TursoEngineError> = Ok(7);
    match execute_disposition(outcome) {
        ExecuteDisposition::Done(n) => assert_eq!(n, 7),
        _ => panic!("expected completion"),
    }
    let result = execute_success_result(7);
    assert!(result.results().is_none());
    assert!(result.error().is_none());
    assert_eq!(result.meta().changes, 7);
}

#[test]
fn recovered_execute_returns_what_the_query_path_returned() {
    let raw = vec![vec![(String::from("seq"), Value::Integer(1))]];
    let query_result = TursoResult {
        results: raw,
        error: None,
        changes: 0,
    };
    let outcome: Result<usize, TursoEngineError> = Err(TursoEngineError::Misuse(String::from(
        "unexpected row",
    )));
    let handed_back = match execute_disposition(outcome) {
        ExecuteDisposition::Done(n) => {
            let _ = n;
            panic!("expected the retry")
        },
        ExecuteDisposition::Fail(_) => panic!("the recovery must absorb the misuse"),
        ExecuteDisposition::RetryAsQuery => query_result,
    };
    assert!(handed_back.error().is_none());
    let rows = handed_back.results().expect("rows are present");
    assert_eq!(rows.len(), 1);
    assert_eq!(rows[0][0].0, "seq");
    assert!(rows[0][0].1 == Value::Integer(1));
}

#[test]
fn column_names_fall_back_to_synthetic_positions() {
    let columns = vec![String::from("id"), String::from("name")];
    assert_eq!(column_name_or_default(&columns, 1), "name");
    assert_eq!(column_name_or_default(&columns, 2), "col_2");
    assert_eq!(column_name_or_default(&Vec::new(), 123), "col_123");
    assert_eq!(column_name_or_default(&Vec::new(), 0), "col_0");
}

#[test]
fn query_results_materialize_into_named_rows() {
    let raw = vec![
        vec![
            (String::from("id"), Value::Integer(1)),
            (String::from("name"), text("John Doe")),
        ],
        vec![
            (String::from("id"), Value::Integer(2)),
            (String::from("name"), text("Jane Doe")),
        ],
    ];
    let keys = field_keys(&raw);
    assert_eq!(keys, vec![String::from("id"), String::from("name")]);
    let rows = materialize_rows(&raw, &keys);
    assert_eq!(rows.len(), 2);
    let first_name = rows[0].get_named("name").expect("name resolves");
    assert!(first_name.value().expect("not null").to_turso_value() == text("John Doe"));
    let second_id = rows[1].get_named("id").expect("id resolves");
    assert!(second_id.value().expect("not null").to_turso_value() == Value::Integer(2));
}

#[test]
fn empty_result_sets_have_no_field_keys() {
    let raw: Vec<Vec<(String, Value)>> = Vec::new();
    assert!(field_keys(&raw).is_empty());
    assert!(materialize_rows(&raw, &Vec::new()).is_empty());
}

#[test]
fn prepared_statements_carry_sql_and_binds() {
    let mut stmt = prepare("SELECT name FROM users WHERE id = ?");
    assert_eq!(stmt.sql, "SELECT name FROM users WHERE id = ?");
    assert!(stmt.binds.is_empty());
    stmt.bind(vec![Value::Integer(4)]);
    assert_eq!(stmt.binds.len(), 1);
    assert!(stmt.binds[0] == Value::Integer(4));
}

#[test]
fn substring_search_matches_the_standard_library() {
    let hay = "cannot step: unexpected row found";
    assert_eq!(str_contains(hay, "unexpected row"), hay.contains("unexpected row"));
    assert!(!str_contains("short", "much longer needle"));
    assert!(str_contains("abc", ""));
    assert!(str_contains("ü unexpected row ö", "unexpected row"));
}

#[test]
fn ast_walk_emits_one_placeholder_per_bind_in_order() {
    let steps = vec![
        AstStep::Sql(String::from("SELECT ")),
        AstStep::Identifier(String::from("name")),
        AstStep::Sql(String::from(" FROM ")),
        AstStep::Identifier(String::from("users")),
        AstStep::Sql(String::from(" WHERE ")),
        AstStep::Identifier(String::from("id")),
        AstStep::Sql(String::from(" = ")),
        AstStep::Bind(
            TursoValue::from_turso_value(Value::Integer(7)),
            TursoType::Integer,
        ),
        AstStep::Sql(String::from(" AND ")),
        AstStep::Identifier(String::from("na`me")),
        AstStep::Sql(String::from(" = ")),
        AstStep::Bind(
            TursoValue::from_turso_value(Value::Text(String::from("x"))),
            TursoType::Text,
        ),
    ];
    let mut qb = TursoQueryBuilder::new();
    let mut binds = TursoBindCollector::new();
    walk_query(&steps, &mut qb, &mut binds);
    let sql = qb.finish();
    assert_eq!(
        sql,
        "SELECT `name` FROM `users` WHERE `id` = ? AND `na``me` = ?"
    );
    let placeholders = sql.matches('?').count();
    assert_eq!(placeholders, binds.binds.len());
    assert!(binds.binds[0].0.to_turso_value() == Value::Integer(7));
    assert_eq!(binds.binds[0].1, TursoType::Integer);
    assert!(binds.binds[1].0.to_turso_value() == Value::Text(String::from("x")));
    assert_eq!(binds.binds[1].1, TursoType::Text);
}
