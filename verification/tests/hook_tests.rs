use ai_query_check::hook::{review_command, Review};
use ai_query_check::sql::QueryCheck;

#[test]
fn read_only_command_is_approved() {
    let review = review_command(r#"docker exec db mysql -e "SELECT 1; SHOW TABLES" && psql -c 'SELECT 2'"#);
    assert!(review.allows());
    match review {
        Review::Checked(items) => {
            assert_eq!(items.len(), 2);
            assert_eq!(items[0].query, "SELECT 1; SHOW TABLES");
            assert_eq!(items[1].query, "SELECT 2");
            assert!(items.iter().all(|i| matches!(i.check, QueryCheck::ReadOnly)));
        }
        _ => panic!("expected checked queries"),
    }
}

#[test]
fn review_stops_at_first_modifying_query() {
    let review = review_command("mysql -e 'SELECT 1'; mysql -e 'DELETE FROM t'; mysql -e 'SELECT 2'");
    assert!(!review.allows());
    match review {
        Review::Checked(items) => {
            assert_eq!(items.len(), 2);
            assert!(matches!(items[0].check, QueryCheck::ReadOnly));
            match &items[1].check {
                QueryCheck::Modifying(reason) => assert_eq!(reason, "DELETE statement"),
                _ => panic!("expected modifying"),
            }
        }
        _ => panic!("expected checked queries"),
    }
}

#[test]
fn unparsable_query_is_not_approved() {
    let review = review_command("mysql -e 'SELEKT 1'");
    assert!(!review.allows());
    assert!(matches!(review, Review::Checked(ref items) if matches!(items[0].check, QueryCheck::ParseError(_))));
}

#[test]
fn command_without_sql_is_not_approved() {
    let review = review_command("ls -la");
    assert!(!review.allows());
    assert!(matches!(review, Review::NoSql));
}

#[test]
fn unparsable_command_is_not_approved() {
    let review = review_command("mysql -e 'unterminated");
    assert!(!review.allows());
    match review {
        Review::BashError(message) => assert!(message.starts_with("Failed to parse bash: ")),
        _ => panic!("expected a shell error"),
    }
}

#[test]
fn modifying_query_in_substitution_is_not_approved() {
    let review = review_command(r#"echo $(mysql -e "DROP TABLE users"); mysql -e "SELECT 1""#);
    assert!(!review.allows());
}

#[test]
fn explain_analyze_of_delete_is_not_approved() {
    assert!(!review_command(r#"psql -c "EXPLAIN ANALYZE DELETE FROM users""#).allows());
    assert!(review_command(r#"psql -c "EXPLAIN SELECT 1""#).allows());
    assert!(review_command(r#"psql -c "EXPLAIN (VERBOSE) DELETE FROM users""#).allows());
    assert!(!review_command(r#"psql -c "EXPLAIN (ANALYZE) DELETE FROM users""#).allows());
}

#[test]
fn quoted_large_number_before_angle_is_approved() {
    assert!(review_command("mysql -e 'SELECT 3000000000>1'").allows());
    assert!(!review_command("mysql -e 'SELECT 1' 3000000000>out").allows());
}
