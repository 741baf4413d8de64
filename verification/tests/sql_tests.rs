use ai_query_check::sql::{check_sql_readonly, check_statements, is_modifying_statement, ParsedStatement, QueryCheck};

#[test]
fn test_readonly_select() {
    assert!(matches!(check_sql_readonly("SELECT * FROM users"), QueryCheck::ReadOnly));
}

#[test]
fn test_readonly_explain() {
    assert!(matches!(check_sql_readonly("EXPLAIN SELECT * FROM users"), QueryCheck::ReadOnly));
}

#[test]
fn test_readonly_show() {
    assert!(matches!(check_sql_readonly("SHOW TABLES"), QueryCheck::ReadOnly));
    assert!(matches!(check_sql_readonly("SHOW CREATE TABLE users"), QueryCheck::ReadOnly));
    assert!(matches!(check_sql_readonly("SHOW TABLES LIKE '%users%'"), QueryCheck::ReadOnly));
}

#[test]
fn test_modifying_insert() {
    assert!(matches!(
        check_sql_readonly("INSERT INTO users (name) VALUES ('test')"),
        QueryCheck::Modifying(_)
    ));
}

#[test]
fn test_modifying_update() {
    assert!(matches!(check_sql_readonly("UPDATE users SET name = 'test'"), QueryCheck::Modifying(_)));
}

#[test]
fn test_modifying_delete() {
    assert!(matches!(check_sql_readonly("DELETE FROM users WHERE id = 1"), QueryCheck::Modifying(_)));
}

#[test]
fn test_modifying_drop() {
    assert!(matches!(check_sql_readonly("DROP TABLE users"), QueryCheck::Modifying(_)));
}

#[test]
fn test_modifying_truncate() {
    assert!(matches!(check_sql_readonly("TRUNCATE TABLE users"), QueryCheck::Modifying(_)));
}

#[test]
fn test_complex_explain() {
    let sql = r#"EXPLAIN SELECT ro.id, ro.service_id FROM routes ro WHERE ro.id = '2785'"#;
    assert!(matches!(check_sql_readonly(sql), QueryCheck::ReadOnly));
}

// ---------------------------------------------------------------- own tests

fn reason(sql: &str) -> String {
    match check_sql_readonly(sql) {
        QueryCheck::Modifying(reason) => reason,
        _ => panic!("expected a modifying statement: {}", sql),
    }
}

#[test]
fn reasons_name_the_statement() {
    assert_eq!(reason("INSERT INTO t VALUES (1)"), "INSERT statement");
    assert_eq!(reason("UPDATE t SET a = 1"), "UPDATE statement");
    assert_eq!(reason("DELETE FROM t"), "DELETE statement");
    assert_eq!(reason("TRUNCATE TABLE t"), "TRUNCATE statement");
    assert_eq!(reason("CREATE TABLE t (a INT)"), "CREATE TABLE statement");
    assert_eq!(reason("CREATE INDEX i ON t (a)"), "CREATE INDEX statement");
    assert_eq!(reason("CREATE VIEW v AS SELECT 1"), "CREATE VIEW statement");
    assert_eq!(reason("CREATE SCHEMA s"), "CREATE SCHEMA statement");
    assert_eq!(reason("CREATE DATABASE d"), "CREATE DATABASE statement");
    assert_eq!(reason("ALTER TABLE t ADD COLUMN b INT"), "ALTER TABLE statement");
    assert_eq!(reason("DROP TABLE t"), "DROP statement");
    assert_eq!(reason("GRANT SELECT ON t TO u"), "GRANT statement");
    assert_eq!(reason("REVOKE SELECT ON t FROM u"), "REVOKE statement");
    assert_eq!(reason("CALL p()"), "CALL statement (may modify data)");
}

#[test]
fn session_statements_are_read_only() {
    assert!(matches!(check_sql_readonly("USE db"), QueryCheck::ReadOnly));
    assert!(matches!(check_sql_readonly("START TRANSACTION"), QueryCheck::ReadOnly));
    assert!(matches!(check_sql_readonly("COMMIT"), QueryCheck::ReadOnly));
    assert!(matches!(check_sql_readonly("ROLLBACK"), QueryCheck::ReadOnly));
    assert!(matches!(check_sql_readonly("SET a = 1"), QueryCheck::ReadOnly));
    assert!(matches!(check_sql_readonly("SHOW COLUMNS FROM t"), QueryCheck::ReadOnly));
}

#[test]
fn no_statement_is_read_only() {
    assert!(matches!(check_sql_readonly(""), QueryCheck::ReadOnly));
}

#[test]
fn first_modifying_statement_gives_the_reason() {
    assert_eq!(reason("SELECT 1; DELETE FROM t; INSERT INTO t VALUES (1)"), "DELETE statement");
}

#[test]
fn unknown_statement_is_modifying() {
    let r = reason("KILL 5");
    assert!(r.starts_with("Unknown statement type: Discriminant("));
}

#[test]
fn unparsable_sql_is_a_parse_error() {
    match check_sql_readonly("SELEKT 1") {
        QueryCheck::ParseError(message) => assert!(message.starts_with("sql parser error: ")),
        _ => panic!("expected a parse error"),
    }
}

fn parsed(debug: &str) -> ParsedStatement {
    ParsedStatement {
        debug: debug.to_string(),
        discriminant: "Discriminant(7)".to_string(),
        explain: None,
        query: None,
    }
}

#[test]
fn classification_reads_the_variant_name() {
    assert_eq!(is_modifying_statement(&parsed("Query(Query { .. })")), None);
    assert_eq!(is_modifying_statement(&parsed("Set(SingleAssignment { .. })")), None);
    assert_eq!(is_modifying_statement(&parsed("Commit { chain: false }")), None);
    assert_eq!(
        is_modifying_statement(&parsed("Insert(Insert { .. })")),
        Some("INSERT statement".to_string())
    );
    assert_eq!(
        is_modifying_statement(&parsed("DropFunction { .. }")),
        Some("DROP FUNCTION statement".to_string())
    );
    assert_eq!(
        is_modifying_statement(&parsed("QueryPlan")),
        Some("Unknown statement type: Discriminant(7)".to_string())
    );
}

#[test]
fn statements_checked_in_order() {
    let stmts = vec![parsed("Query(..)"), parsed("Update { .. }"), parsed("Delete(..)")];
    match check_statements(&stmts) {
        QueryCheck::Modifying(r) => assert_eq!(r, "UPDATE statement"),
        _ => panic!("expected modifying"),
    }
    assert!(matches!(check_statements(&Vec::new()), QueryCheck::ReadOnly));
}

#[test]
fn explain_analyze_runs_its_statement() {
    assert_eq!(reason("EXPLAIN ANALYZE DELETE FROM users"), "DELETE statement");
    assert!(matches!(check_sql_readonly("EXPLAIN ANALYZE SELECT 1"), QueryCheck::ReadOnly));
    assert!(matches!(check_sql_readonly("EXPLAIN DELETE FROM users"), QueryCheck::ReadOnly));
}

#[test]
fn explain_options_run_the_statement_only_with_analyze() {
    assert!(matches!(check_sql_readonly("EXPLAIN (VERBOSE) DELETE FROM users"), QueryCheck::ReadOnly));
    assert!(matches!(
        check_sql_readonly("EXPLAIN (COSTS false, VERBOSE) DELETE FROM users"),
        QueryCheck::ReadOnly
    ));
    assert_eq!(reason("EXPLAIN (ANALYZE) DELETE FROM users"), "DELETE statement");
    assert_eq!(reason("EXPLAIN (verbose, Analyze true) UPDATE t SET a = 1"), "UPDATE statement");
    assert!(matches!(check_sql_readonly("EXPLAIN (ANALYZE) SELECT 1"), QueryCheck::ReadOnly));
}

#[test]
fn data_modifying_query_bodies() {
    assert_eq!(reason("WITH t AS (SELECT 1) INSERT INTO users SELECT * FROM t"), "INSERT statement");
    assert!(matches!(check_sql_readonly("WITH t AS (SELECT 1) SELECT * FROM t"), QueryCheck::ReadOnly));
    assert!(matches!(check_sql_readonly("SELECT 1 UNION SELECT 2"), QueryCheck::ReadOnly));
}
