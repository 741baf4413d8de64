use ai_query_check::bash::{extract_mysql_queries, extract_psql_queries, extract_sql_from_bash};

#[test]
fn test_extract_sql_simple() {
    let cmd = r#"mysql -e "SELECT * FROM users""#;
    let queries = extract_sql_from_bash(cmd).unwrap();
    assert_eq!(queries, vec!["SELECT * FROM users"]);
}

#[test]
fn test_extract_sql_docker() {
    let cmd = r#"docker exec mysql-container mysql -uroot -p123 mydb -e "SELECT id FROM users""#;
    let queries = extract_sql_from_bash(cmd).unwrap();
    assert_eq!(queries, vec!["SELECT id FROM users"]);
}

#[test]
fn test_extract_sql_single_quotes() {
    let cmd = "mysql -e 'SHOW TABLES'";
    let queries = extract_sql_from_bash(cmd).unwrap();
    assert_eq!(queries, vec!["SHOW TABLES"]);
}

#[test]
fn test_extract_sql_not_mysql() {
    let cmd = "ls -la";
    let queries = extract_sql_from_bash(cmd).unwrap();
    assert!(queries.is_empty());
}

#[test]
fn test_pipe_command() {
    let cmd = r#"docker exec mysql mysql -e "SELECT * FROM users" | grep admin"#;
    let queries = extract_sql_from_bash(cmd).unwrap();
    assert_eq!(queries, vec!["SELECT * FROM users"]);
}

#[test]
fn test_execute_flag_long() {
    let cmd = r#"mysql --execute="SELECT 1""#;
    let queries = extract_sql_from_bash(cmd).unwrap();
    assert_eq!(queries, vec!["SELECT 1"]);
}

#[test]
fn test_psql_simple() {
    let cmd = r#"psql -c "SELECT * FROM users""#;
    let queries = extract_sql_from_bash(cmd).unwrap();
    assert_eq!(queries, vec!["SELECT * FROM users"]);
}

#[test]
fn test_psql_docker() {
    let cmd = r#"docker exec postgres psql -U user -d db -c "SELECT id FROM users""#;
    let queries = extract_sql_from_bash(cmd).unwrap();
    assert_eq!(queries, vec!["SELECT id FROM users"]);
}

#[test]
fn test_psql_command_flag_long() {
    let cmd = r#"psql --command="EXPLAIN SELECT 1""#;
    let queries = extract_sql_from_bash(cmd).unwrap();
    assert_eq!(queries, vec!["EXPLAIN SELECT 1"]);
}

#[test]
fn test_mysql_show_tables_like() {
    let cmd = r#"docker exec aikido-core-mysql mysql -uroot -p123 aikido -e "SHOW TABLES LIKE '%zen%';""#;
    let queries = extract_sql_from_bash(cmd).unwrap();
    assert_eq!(queries, vec!["SHOW TABLES LIKE '%zen%';"]);
}

// ---------------------------------------------------------------- own tests

fn strings(words: &[&str]) -> Vec<String> {
    words.iter().map(|w| w.to_string()).collect()
}

#[test]
fn mysql_flags_each_form() {
    let mut queries = vec!["kept".to_string()];
    let words = strings(&["mysql", "-e", "A", "--execute", "B", "-eC", "--execute='D'", "-e", "E", "x"]);
    extract_mysql_queries(&words, &mut queries);
    assert_eq!(queries, vec!["kept", "A", "B", "C", "D", "E"]);
}

#[test]
fn mysql_flag_at_end_without_value() {
    let mut queries = Vec::new();
    extract_mysql_queries(&strings(&["mysql", "-e"]), &mut queries);
    assert!(queries.is_empty());
    extract_mysql_queries(&strings(&["mysql", "--execute="]), &mut queries);
    assert!(queries.is_empty());
}

#[test]
fn mysql_flag_value_is_taken_whatever_it_is() {
    let mut queries = Vec::new();
    extract_mysql_queries(&strings(&["-e", "-e", "SELECT 2"]), &mut queries);
    assert_eq!(queries, vec!["-e"]);
}

#[test]
fn psql_flags_each_form() {
    let mut queries = Vec::new();
    let words = strings(&["psql", "-c", "A", "--command", "B", "-cC", "--command=\"D\"", "-e", "E"]);
    extract_psql_queries(&words, &mut queries);
    assert_eq!(queries, vec!["A", "B", "C", "D"]);
}

#[test]
fn short_flag_value_is_not_unquoted_again() {
    let mut queries = Vec::new();
    extract_mysql_queries(&strings(&["-e'X'"]), &mut queries);
    assert_eq!(queries, vec!["'X'"]);
}

#[test]
fn client_named_by_path() {
    let queries = extract_sql_from_bash("/usr/bin/mysql -e 'SELECT 3'").unwrap();
    assert_eq!(queries, vec!["SELECT 3"]);
    let queries = extract_sql_from_bash("/opt/pg/bin/psql -c 'SELECT 4'").unwrap();
    assert_eq!(queries, vec!["SELECT 4"]);
}

#[test]
fn client_name_must_be_whole() {
    let queries = extract_sql_from_bash("mysqldump -e 'SELECT 1'").unwrap();
    assert!(queries.is_empty());
}

#[test]
fn both_clients_flags_are_read() {
    let queries = extract_sql_from_bash("mysql psql -c 'A' -e 'B'").unwrap();
    assert_eq!(queries, vec!["B", "A"]);
}

#[test]
fn container_named_mysql_running_psql() {
    let queries = extract_sql_from_bash(r#"docker exec mysql psql -c "DROP TABLE users""#).unwrap();
    assert_eq!(queries, vec!["DROP TABLE users"]);
}

#[test]
fn queries_in_command_substitutions() {
    let cmd = r#"echo $(mysql -e "DROP TABLE users"); mysql -e "SELECT 1""#;
    let queries = extract_sql_from_bash(cmd).unwrap();
    assert_eq!(queries, vec!["DROP TABLE users", "SELECT 1"]);
    let cmd = r#"X=`psql -c 'A'` echo "$(mysql -e 'B')""#;
    let queries = extract_sql_from_bash(cmd).unwrap();
    assert_eq!(queries, vec!["A", "B"]);
}

#[test]
fn substitution_runs_before_its_command() {
    let cmd = r#"mysql -e "$(psql -c 'A')""#;
    let queries = extract_sql_from_bash(cmd).unwrap();
    assert_eq!(queries, vec!["A", "$(psql -c 'A')"]);
}

#[test]
fn queries_in_process_substitutions() {
    let queries = extract_sql_from_bash("diff <(mysql -e 'A') <(psql -c 'B')").unwrap();
    assert_eq!(queries, vec!["A", "B"]);
}

#[test]
fn oversized_fd_number_is_an_error() {
    let err = extract_sql_from_bash("echo 99999999999>out; mysql -e 'SELECT 1'").unwrap_err();
    assert_eq!(err, "Failed to parse bash: file descriptor number out of range");
    let err = extract_sql_from_bash("echo 9999\\\n9999999>out").unwrap_err();
    assert_eq!(err, "Failed to parse bash: file descriptor number out of range");
    let queries = extract_sql_from_bash("mysql -e 'SELECT 1' 2>err 0000000000002>&1").unwrap();
    assert_eq!(queries, vec!["SELECT 1"]);
}

#[test]
fn digits_before_angle_in_quotes_are_no_fd_number() {
    let queries = extract_sql_from_bash("mysql -e 'SELECT 3000000000>1'").unwrap();
    assert_eq!(queries, vec!["SELECT 3000000000>1"]);
    let queries = extract_sql_from_bash("psql -c \"SELECT 99999999999<2\"").unwrap();
    assert_eq!(queries, vec!["SELECT 99999999999<2"]);
    let queries = extract_sql_from_bash("mysql -e 'SELECT 1' 3000000000 >out").unwrap();
    assert_eq!(queries, vec!["SELECT 1"]);
}

#[test]
fn here_document_body_holds_no_fd_number() {
    let queries = extract_sql_from_bash("cat <<EOF\n99999999999>x\nEOF\nmysql -e 'SELECT 1'").unwrap();
    assert_eq!(queries, vec!["SELECT 1"]);
}

#[test]
fn substitution_that_does_not_parse_hands_over_nothing() {
    assert_eq!(extract_sql_from_bash("echo $(if)").unwrap(), Vec::<String>::new());
    let queries = extract_sql_from_bash("mysql -e 'SELECT 1'; echo $(echo 99999999999>x)").unwrap();
    assert_eq!(queries, vec!["SELECT 1"]);
    let queries = extract_sql_from_bash("echo `fi`; psql -c 'B'").unwrap();
    assert_eq!(queries, vec!["B"]);
}

#[test]
fn queries_in_sequence_and_or_lists() {
    let cmd = "mysql -e 'A'; psql -c 'B' && mysql -e 'C' || psql -c 'D'";
    let queries = extract_sql_from_bash(cmd).unwrap();
    assert_eq!(queries, vec!["A", "B", "C", "D"]);
}

#[test]
fn queries_in_subshell_and_group() {
    let cmd = "(mysql -e 'A'); { psql -c 'B'; }";
    let queries = extract_sql_from_bash(cmd).unwrap();
    assert_eq!(queries, vec!["A", "B"]);
}

#[test]
fn queries_in_if_elif_else() {
    let cmd = "if mysql -e 'A'; then mysql -e 'B'; elif psql -c 'C'; then psql -c 'D'; else mysql -e 'E'; fi";
    let queries = extract_sql_from_bash(cmd).unwrap();
    assert_eq!(queries, vec!["A", "B", "C", "D", "E"]);
}

#[test]
fn queries_in_loops_and_case() {
    let cmd = "while mysql -e 'A'; do mysql -e 'B'; done; until psql -c 'C'; do psql -c 'D'; done; \
               for x in 1 2; do mysql -e 'E'; done; case $x in a) mysql -e 'F';; b) ;; esac";
    let queries = extract_sql_from_bash(cmd).unwrap();
    assert_eq!(queries, vec!["A", "B", "C", "D", "E", "F"]);
}

#[test]
fn function_bodies_are_read() {
    let queries = extract_sql_from_bash("f() { mysql -e 'DROP TABLE t'; }").unwrap();
    assert_eq!(queries, vec!["DROP TABLE t"]);
}

#[test]
fn assignments_and_redirections_are_not_words() {
    let queries = extract_sql_from_bash("mysql X=1 -e 'A' > out.txt").unwrap();
    assert_eq!(queries, vec!["A"]);
}

#[test]
fn unparsable_command_is_an_error() {
    let err = extract_sql_from_bash("mysql -e 'unterminated").unwrap_err();
    assert!(err.starts_with("Failed to parse bash: "));
    assert!(err.len() > "Failed to parse bash: ".len());
}

#[test]
fn queries_in_loop_words_case_words_and_redirections() {
    let cmd = "for x in $(mysql -e 'A'); do :; done; case $(psql -c 'B') in *) ;; esac; \
               cat < \"$(mysql -e 'C')\" <<< $(psql -c 'D')";
    let queries = extract_sql_from_bash(cmd).unwrap();
    assert_eq!(queries, vec!["A", "B", "C", "D"]);
}

#[test]
fn queries_in_redirections_of_compound_commands() {
    let cmd = "{ mysql -e 'B'; } > \"$(psql -c 'A')\"";
    let queries = extract_sql_from_bash(cmd).unwrap();
    assert_eq!(queries, vec!["A", "B"]);
}
