//! Classification of SQL text as read-only or modifying.

use sqlparser::ast::{Query, SetExpr, Statement, UtilityOption};
use sqlparser::dialect::GenericDialect;
use sqlparser::parser::Parser;
use vstd::prelude::*;

use crate::text::str_eq;

verus! {

/// The result of checking SQL text.
pub enum QueryCheck {
    /// Every statement only reads (or the text holds no statement).
    ReadOnly,
    /// Some statement may modify data; the reason names the first such statement.
    Modifying(String),
    /// The text does not parse; the parser's message.
    ParseError(String),
}

/// `QueryCheck` with its texts as character sequences.
pub enum QueryVerdict {
    ReadOnly,
    Modifying(Seq<char>),
    ParseError(Seq<char>),
}

impl View for QueryCheck {
    type V = QueryVerdict;

    open spec fn view(&self) -> QueryVerdict {
        match self {
            QueryCheck::ReadOnly => QueryVerdict::ReadOnly,
            QueryCheck::Modifying(reason) => QueryVerdict::Modifying(reason@),
            QueryCheck::ParseError(message) => QueryVerdict::ParseError(message@),
        }
    }
}

/// One statement as sqlparser parsed it.
pub struct ParsedStatement {
    /// The statement's `Debug` rendering, which starts with the name of its
    /// `Statement` variant.
    pub debug: String,
    /// The `Debug` rendering of the statement's discriminant.
    pub discriminant: String,
    /// For an `EXPLAIN` statement: what it explains.
    pub explain: Option<ExplainShape>,
    /// For a query statement: its shape.
    pub query: Option<QueryShape>,
}

/// An `EXPLAIN` statement.
pub struct ExplainShape {
    /// `EXPLAIN ANALYZE`: the explained statement is run.
    pub analyze: bool,
    /// The names of the utility options in `EXPLAIN ( .. )`, if there is such a list.
    pub option_names: Option<Vec<String>>,
    /// The explained statement.
    pub statement: Box<ParsedStatement>,
}

/// A query: its common table expressions (`WITH`) and its body.
pub struct QueryShape {
    /// The queries of the `WITH` clause, if there is one, in order.
    pub ctes: Option<Vec<QueryShape>>,
    pub body: Box<SetShape>,
}

/// The body of a query.
pub enum SetShape {
    Select,
    Query(QueryShape),
    /// `UNION`, `EXCEPT` or `INTERSECT` of two bodies.
    SetOperation(Box<SetShape>, Box<SetShape>),
    Values,
    Insert(ParsedStatement),
    Update(ParsedStatement),
    Delete(ParsedStatement),
    Merge(ParsedStatement),
    Table,
}

#[verifier::external_type_specification]
#[verifier::external_body]
pub struct ExSqlStatement(sqlparser::ast::Statement);

#[verifier::external_type_specification]
#[verifier::external_body]
pub struct ExSqlQuery(sqlparser::ast::Query);

#[verifier::external_type_specification]
#[verifier::external_body]
pub struct ExSqlSetExpr(sqlparser::ast::SetExpr);

#[verifier::external_type_specification]
#[verifier::external_body]
pub struct ExSqlUtilityOption(sqlparser::ast::UtilityOption);

/// What sqlparser's `Parser::parse_sql` makes of SQL text with the generic
/// dialect: the statements it parses, or the `Display` text of its error.
pub uninterp spec fn sql_parse(sql: Seq<char>) -> Result<Seq<ParsedStatement>, Seq<char>>;

/// Calls sqlparser's `Parser::parse_sql` with `GenericDialect` on `sql`, and
/// converts each statement it returns into a `ParsedStatement` (an error into its
/// `Display` text).
/// Trusted: the result is `sql_parse` of the text; nothing more is said of it.
#[verifier::external_body]
pub(crate) fn parse_sql_statements(sql: &str) -> (r: Result<Vec<ParsedStatement>, String>)
    ensures
        match r {
            Ok(statements) => sql_parse(sql@) == Ok::<_, Seq<char>>(statements@),
            Err(e) => sql_parse(sql@) == Err::<Seq<ParsedStatement>, _>(e@),
        },
{
    match Parser::parse_sql(&GenericDialect {}, sql) {
        Ok(statements) => Ok(statements.iter().map(statement_from_ast).collect()),
        Err(e) => Err(e.to_string()),
    }
}

/// Converts a `Statement`: its `Debug` renderings, and what an `EXPLAIN` or a
/// query statement holds.
#[verifier::external_body]
fn statement_from_ast(statement: &Statement) -> ParsedStatement {
    let explain = match statement {
        Statement::Explain { analyze, options, statement, .. } => {
            Some(explain_from_ast(*analyze, options, statement))
        },
        _ => None,
    };
    let query = match statement {
        Statement::Query(q) => Some(query_from_ast(q)),
        _ => None,
    };
    let debug = format!("{:?}", statement);
    let discriminant = format!("{:?}", std::mem::discriminant(statement));
    ParsedStatement { debug, discriminant, explain, query }
}

/// Converts the fields of a `Statement::Explain`: `analyze`, the names of its
/// utility options, and the explained statement.
#[verifier::external_body]
fn explain_from_ast(
    analyze: bool,
    options: &Option<Vec<UtilityOption>>,
    statement: &Statement,
) -> ExplainShape {
    ExplainShape {
        analyze,
        option_names: options.as_ref().map(|o| o.iter().map(|u| u.name.value.clone()).collect()),
        statement: Box::new(statement_from_ast(statement)),
    }
}

/// Converts a `Query`: the queries of its `WITH` clause, and its body.
#[verifier::external_body]
fn query_from_ast(query: &Query) -> QueryShape {
    QueryShape {
        ctes: query.with.as_ref().map(|w| w.cte_tables.iter().map(|c| query_from_ast(&c.query)).collect()),
        body: Box::new(set_expr_from_ast(&query.body)),
    }
}

/// Converts a `SetExpr`, one variant for one variant.
#[verifier::external_body]
fn set_expr_from_ast(body: &SetExpr) -> SetShape {
    match body {
        SetExpr::Select(_) => SetShape::Select,
        SetExpr::Query(q) => SetShape::Query(query_from_ast(q)),
        SetExpr::SetOperation { left, right, .. } => SetShape::SetOperation(
            Box::new(set_expr_from_ast(left)),
            Box::new(set_expr_from_ast(right)),
        ),
        SetExpr::Values(_) => SetShape::Values,
        SetExpr::Insert(s) => SetShape::Insert(statement_from_ast(s)),
        SetExpr::Update(s) => SetShape::Update(statement_from_ast(s)),
        SetExpr::Delete(s) => SetShape::Delete(statement_from_ast(s)),
        SetExpr::Merge(s) => SetShape::Merge(statement_from_ast(s)),
        SetExpr::Table(_) => SetShape::Table,
    }
}

/// Whether `c` can stand in a Rust identifier.
pub open spec fn is_ident_char(c: char) -> bool {
    ('a' <= c <= 'z') || ('A' <= c <= 'Z') || ('0' <= c <= '9') || c == '_'
}

/// The longest prefix of `s` made of identifier characters.
pub open spec fn ident_prefix(s: Seq<char>) -> Seq<char>
    decreases s.len(),
{
    if s.len() > 0 && is_ident_char(s[0]) {
        seq![s[0]] + ident_prefix(s.drop_first())
    } else {
        seq![]
    }
}

/// Whether the statement variant only reads data or controls the session.
pub open spec fn is_read_only_variant(variant: Seq<char>) -> bool {
    ||| variant == "Query"@
    ||| variant == "Explain"@
    ||| variant == "ExplainTable"@
    ||| variant == "ShowFunctions"@
    ||| variant == "ShowVariable"@
    ||| variant == "ShowStatus"@
    ||| variant == "ShowVariables"@
    ||| variant == "ShowCreate"@
    ||| variant == "ShowColumns"@
    ||| variant == "ShowTables"@
    ||| variant == "ShowCollation"@
    ||| variant == "Use"@
    ||| variant == "StartTransaction"@
    ||| variant == "Commit"@
    ||| variant == "Rollback"@
    ||| variant == "Set"@
}

/// Why a statement of the variant may modify data, or `None` where it only reads.
/// A variant not named here is treated as modifying.
pub open spec fn modifying_reason(variant: Seq<char>, discriminant: Seq<char>) -> Option<Seq<char>> {
    if is_read_only_variant(variant) {
        None
    } else if variant == "Insert"@ {
        Some("INSERT statement"@)
    } else if variant == "Update"@ {
        Some("UPDATE statement"@)
    } else if variant == "Delete"@ {
        Some("DELETE statement"@)
    } else if variant == "Truncate"@ {
        Some("TRUNCATE statement"@)
    } else if variant == "Merge"@ {
        Some("MERGE statement"@)
    } else if variant == "CreateTable"@ {
        Some("CREATE TABLE statement"@)
    } else if variant == "CreateIndex"@ {
        Some("CREATE INDEX statement"@)
    } else if variant == "CreateView"@ {
        Some("CREATE VIEW statement"@)
    } else if variant == "CreateSchema"@ {
        Some("CREATE SCHEMA statement"@)
    } else if variant == "CreateDatabase"@ {
        Some("CREATE DATABASE statement"@)
    } else if variant == "CreateFunction"@ {
        Some("CREATE FUNCTION statement"@)
    } else if variant == "CreateProcedure"@ {
        Some("CREATE PROCEDURE statement"@)
    } else if variant == "CreateTrigger"@ {
        Some("CREATE TRIGGER statement"@)
    } else if variant == "CreateSequence"@ {
        Some("CREATE SEQUENCE statement"@)
    } else if variant == "CreateRole"@ {
        Some("CREATE ROLE statement"@)
    } else if variant == "AlterTable"@ {
        Some("ALTER TABLE statement"@)
    } else if variant == "AlterIndex"@ {
        Some("ALTER INDEX statement"@)
    } else if variant == "AlterView"@ {
        Some("ALTER VIEW statement"@)
    } else if variant == "AlterRole"@ {
        Some("ALTER ROLE statement"@)
    } else if variant == "Drop"@ {
        Some("DROP statement"@)
    } else if variant == "DropFunction"@ {
        Some("DROP FUNCTION statement"@)
    } else if variant == "DropProcedure"@ {
        Some("DROP PROCEDURE statement"@)
    } else if variant == "Grant"@ {
        Some("GRANT statement"@)
    } else if variant == "Revoke"@ {
        Some("REVOKE statement"@)
    } else if variant == "Copy"@ {
        Some("COPY statement"@)
    } else if variant == "Call"@ {
        Some("CALL statement (may modify data)"@)
    } else if variant == "Execute"@ {
        Some("EXECUTE statement"@)
    } else if variant == "Prepare"@ {
        Some("PREPARE statement"@)
    } else {
        Some("Unknown statement type: "@ + discriminant)
    }
}

/// Whether `c` is an ASCII upper-case letter.
pub open spec fn is_ascii_upper(c: char) -> bool {
    'A' <= c && c <= 'Z'
}

/// Whether `a` and `b` are the same character when ASCII letters are compared
/// without case.
pub open spec fn same_ignoring_ascii_case(a: char, b: char) -> bool {
    a == b || (is_ascii_upper(a) && a as u32 + 32 == b as u32) || (is_ascii_upper(b) && b as u32
        + 32 == a as u32)
}

/// Whether `a` and `b` are equal when ASCII letters are compared without case.
pub open spec fn eq_ignore_ascii_case(a: Seq<char>, b: Seq<char>) -> bool {
    a.len() == b.len() && forall|i: int| 0 <= i < a.len() ==> same_ignoring_ascii_case(#[trigger] a[i], b[i])
}

/// Whether one of the utility option names is `ANALYZE`, in any case.
pub open spec fn names_analyze(names: Seq<String>) -> bool {
    exists|i: int| 0 <= i < names.len() && eq_ignore_ascii_case(#[trigger] names[i]@, "analyze"@)
}

/// Whether an `EXPLAIN` runs the statement it explains: with `ANALYZE`, or with
/// `ANALYZE` in its list of utility options.
pub open spec fn explain_runs(explain: ExplainShape) -> bool {
    explain.analyze || (explain.option_names matches Some(names) && names_analyze(names@))
}

/// Why a parsed statement may modify data, or `None` where it only reads. An
/// `EXPLAIN` that runs its statement, and a query, are judged by what they run.
pub open spec fn statement_reason(statement: ParsedStatement) -> Option<Seq<char>>
    decreases statement,
{
    let variant = ident_prefix(statement.debug@);
    if variant == "Explain"@ {
        match statement.explain {
            Some(explain) => if explain_runs(explain) {
                statement_reason(*explain.statement)
            } else {
                None
            },
            None => None,
        }
    } else if variant == "Query"@ {
        match statement.query {
            Some(query) => query_reason(query),
            None => None,
        }
    } else {
        modifying_reason(variant, statement.discriminant@)
    }
}

/// Why a query may modify data: the first of its `WITH` queries that may, else its body.
pub open spec fn query_reason(query: QueryShape) -> Option<Seq<char>>
    decreases query,
{
    let from_ctes = match query.ctes {
        Some(ctes) => queries_reason(ctes@),
        None => None,
    };
    match from_ctes {
        Some(reason) => Some(reason),
        None => set_reason(*query.body),
    }
}

/// The reason of the first query that may modify data, if any.
pub open spec fn queries_reason(queries: Seq<QueryShape>) -> Option<Seq<char>>
    decreases queries,
{
    if queries.len() == 0 {
        None
    } else {
        match query_reason(queries[0]) {
            Some(reason) => Some(reason),
            None => queries_reason(queries.drop_first()),
        }
    }
}

/// Why a query body may modify data: a data-modifying statement's reason, the
/// first reason of the two sides of a set operation, a nested query's reason.
pub open spec fn set_reason(body: SetShape) -> Option<Seq<char>>
    decreases body,
{
    match body {
        SetShape::Query(query) => query_reason(query),
        SetShape::SetOperation(left, right) => match set_reason(*left) {
            Some(reason) => Some(reason),
            None => set_reason(*right),
        },
        SetShape::Insert(s) => statement_reason(s),
        SetShape::Update(s) => statement_reason(s),
        SetShape::Delete(s) => statement_reason(s),
        SetShape::Merge(s) => statement_reason(s),
        _ => None,
    }
}

/// The reason of the first statement that may modify data, if any.
pub open spec fn first_modifying_reason(statements: Seq<ParsedStatement>) -> Option<Seq<char>>
    decreases statements.len(),
{
    if statements.len() == 0 {
        None
    } else {
        match statement_reason(statements[0]) {
            Some(reason) => Some(reason),
            None => first_modifying_reason(statements.drop_first()),
        }
    }
}

/// The check of parsed statements: modifying at the first modifying statement, else read-only.
pub open spec fn statements_verdict(statements: Seq<ParsedStatement>) -> QueryVerdict {
    match first_modifying_reason(statements) {
        Some(reason) => QueryVerdict::Modifying(reason),
        None => QueryVerdict::ReadOnly,
    }
}

/// The check of SQL text.
pub open spec fn sql_verdict(sql: Seq<char>) -> QueryVerdict {
    match sql_parse(sql) {
        Ok(statements) => statements_verdict(statements),
        Err(message) => QueryVerdict::ParseError(message),
    }
}

/// Parsed SQL is read-only exactly when none of its statements may modify data;
/// SQL with no statement at all is read-only.
pub proof fn lemma_read_only_iff_no_modifying_statement(statements: Seq<ParsedStatement>)
    ensures
        statements_verdict(statements) is ReadOnly <==> forall|i: int|
            0 <= i < statements.len() ==> statement_reason(#[trigger] statements[i]) is None,
    decreases statements.len(),
{
    if statements.len() > 0 {
        let rest = statements.drop_first();
        lemma_read_only_iff_no_modifying_statement(rest);
        assert forall|i: int| 1 <= i < statements.len() implies statements[i] == #[trigger] rest[i - 1] by {}
        if statement_reason(statements[0]) is None {
            if statements_verdict(rest) is ReadOnly {
                assert forall|i: int| 0 <= i < statements.len() implies statement_reason(#[trigger] statements[i]) is None by {
                    if i > 0 {
                        assert(statements[i] == rest[i - 1]);
                    }
                }
            } else {
                let j = choose|j: int| 0 <= j < rest.len() && !(statement_reason(#[trigger] rest[j]) is None);
                assert(statements[j + 1] == rest[j]);
            }
        }
    }
}

/// When parsed SQL may modify data, the reason given is that of its first
/// statement that may, and every statement before it only reads.
pub proof fn lemma_reason_of_first_modifying_statement(statements: Seq<ParsedStatement>)
    ensures
        statements_verdict(statements) matches QueryVerdict::Modifying(reason) ==> exists|i: int|
            0 <= i < statements.len() && statement_reason(#[trigger] statements[i]) == Some(reason)
                && forall|j: int| 0 <= j < i ==> statement_reason(#[trigger] statements[j]) is None,
    decreases statements.len(),
{
    if statements.len() > 0 {
        let rest = statements.drop_first();
        lemma_reason_of_first_modifying_statement(rest);
        if let QueryVerdict::Modifying(reason) = statements_verdict(statements) {
            if statement_reason(statements[0]) is None {
                let i = choose|i: int|
                    0 <= i < rest.len() && statement_reason(#[trigger] rest[i]) == Some(reason)
                        && forall|j: int| 0 <= j < i ==> statement_reason(#[trigger] rest[j]) is None;
                assert(statements[i + 1] == rest[i]);
                assert forall|j: int| 0 <= j < i + 1 implies statement_reason(#[trigger] statements[j]) is None by {
                    if j > 0 {
                        assert(statements[j] == rest[j - 1]);
                    }
                }
            } else {
                assert(statement_reason(statements[0]) == Some(reason));
            }
        }
    }
}

/// The characters of the statement variant names.
proof fn lemma_variant_names()
    ensures
        "Query"@.len() == 5,
        "Query"@[0] == 'Q',
        "Query"@[1] == 'u',
        "Query"@[2] == 'e',
        "Query"@[3] == 'r',
        "Query"@[4] == 'y',
        "Explain"@.len() == 7,
        "Explain"@[0] == 'E',
        "Explain"@[1] == 'x',
        "Explain"@[2] == 'p',
        "Explain"@[3] == 'l',
        "Explain"@[4] == 'a',
        "Explain"@[5] == 'i',
        "Explain"@[6] == 'n',
        "ExplainTable"@.len() == 12,
        "ExplainTable"@[0] == 'E',
        "ExplainTable"@[1] == 'x',
        "ExplainTable"@[2] == 'p',
        "ExplainTable"@[3] == 'l',
        "ExplainTable"@[4] == 'a',
        "ExplainTable"@[5] == 'i',
        "ExplainTable"@[6] == 'n',
        "ExplainTable"@[7] == 'T',
        "ExplainTable"@[8] == 'a',
        "ExplainTable"@[9] == 'b',
        "ExplainTable"@[10] == 'l',
        "ExplainTable"@[11] == 'e',
        "ShowFunctions"@.len() == 13,
        "ShowFunctions"@[0] == 'S',
        "ShowFunctions"@[1] == 'h',
        "ShowFunctions"@[2] == 'o',
        "ShowFunctions"@[3] == 'w',
        "ShowFunctions"@[4] == 'F',
        "ShowFunctions"@[5] == 'u',
        "ShowFunctions"@[6] == 'n',
        "ShowFunctions"@[7] == 'c',
        "ShowFunctions"@[8] == 't',
        "ShowFunctions"@[9] == 'i',
        "ShowFunctions"@[10] == 'o',
        "ShowFunctions"@[11] == 'n',
        "ShowFunctions"@[12] == 's',
        "ShowVariable"@.len() == 12,
        "ShowVariable"@[0] == 'S',
        "ShowVariable"@[1] == 'h',
        "ShowVariable"@[2] == 'o',
        "ShowVariable"@[3] == 'w',
        "ShowVariable"@[4] == 'V',
        "ShowVariable"@[5] == 'a',
        "ShowVariable"@[6] == 'r',
        "ShowVariable"@[7] == 'i',
        "ShowVariable"@[8] == 'a',
        "ShowVariable"@[9] == 'b',
        "ShowVariable"@[10] == 'l',
        "ShowVariable"@[11] == 'e',
        "ShowStatus"@.len() == 10,
        "ShowStatus"@[0] == 'S',
        "ShowStatus"@[1] == 'h',
        "ShowStatus"@[2] == 'o',
        "ShowStatus"@[3] == 'w',
        "ShowStatus"@[4] == 'S',
        "ShowStatus"@[5] == 't',
        "ShowStatus"@[6] == 'a',
        "ShowStatus"@[7] == 't',
        "ShowStatus"@[8] == 'u',
        "ShowStatus"@[9] == 's',
        "ShowVariables"@.len() == 13,
        "ShowVariables"@[0] == 'S',
        "ShowVariables"@[1] == 'h',
        "ShowVariables"@[2] == 'o',
        "ShowVariables"@[3] == 'w',
        "ShowVariables"@[4] == 'V',
        "ShowVariables"@[5] == 'a',
        "ShowVariables"@[6] == 'r',
        "ShowVariables"@[7] == 'i',
        "ShowVariables"@[8] == 'a',
        "ShowVariables"@[9] == 'b',
        "ShowVariables"@[10] == 'l',
        "ShowVariables"@[11] == 'e',
        "ShowVariables"@[12] == 's',
        "ShowCreate"@.len() == 10,
        "ShowCreate"@[0] == 'S',
        "ShowCreate"@[1] == 'h',
        "ShowCreate"@[2] == 'o',
        "ShowCreate"@[3] == 'w',
        "ShowCreate"@[4] == 'C',
        "ShowCreate"@[5] == 'r',
        "ShowCreate"@[6] == 'e',
        "ShowCreate"@[7] == 'a',
        "ShowCreate"@[8] == 't',
        "ShowCreate"@[9] == 'e',
        "ShowColumns"@.len() == 11,
        "ShowColumns"@[0] == 'S',
        "ShowColumns"@[1] == 'h',
        "ShowColumns"@[2] == 'o',
        "ShowColumns"@[3] == 'w',
        "ShowColumns"@[4] == 'C',
        "ShowColumns"@[5] == 'o',
        "ShowColumns"@[6] == 'l',
        "ShowColumns"@[7] == 'u',
        "ShowColumns"@[8] == 'm',
        "ShowColumns"@[9] == 'n',
        "ShowColumns"@[10] == 's',
        "ShowTables"@.len() == 10,
        "ShowTables"@[0] == 'S',
        "ShowTables"@[1] == 'h',
        "ShowTables"@[2] == 'o',
        "ShowTables"@[3] == 'w',
        "ShowTables"@[4] == 'T',
        "ShowTables"@[5] == 'a',
        "ShowTables"@[6] == 'b',
        "ShowTables"@[7] == 'l',
        "ShowTables"@[8] == 'e',
        "ShowTables"@[9] == 's',
        "ShowCollation"@.len() == 13,
        "ShowCollation"@[0] == 'S',
        "ShowCollation"@[1] == 'h',
        "ShowCollation"@[2] == 'o',
        "ShowCollation"@[3] == 'w',
        "ShowCollation"@[4] == 'C',
        "ShowCollation"@[5] == 'o',
        "ShowCollation"@[6] == 'l',
        "ShowCollation"@[7] == 'l',
        "ShowCollation"@[8] == 'a',
        "ShowCollation"@[9] == 't',
        "ShowCollation"@[10] == 'i',
        "ShowCollation"@[11] == 'o',
        "ShowCollation"@[12] == 'n',
        "Use"@.len() == 3,
        "Use"@[0] == 'U',
        "Use"@[1] == 's',
        "Use"@[2] == 'e',
        "StartTransaction"@.len() == 16,
        "StartTransaction"@[0] == 'S',
        "StartTransaction"@[1] == 't',
        "StartTransaction"@[2] == 'a',
        "StartTransaction"@[3] == 'r',
        "StartTransaction"@[4] == 't',
        "StartTransaction"@[5] == 'T',
        "StartTransaction"@[6] == 'r',
        "StartTransaction"@[7] == 'a',
        "StartTransaction"@[8] == 'n',
        "StartTransaction"@[9] == 's',
        "StartTransaction"@[10] == 'a',
        "StartTransaction"@[11] == 'c',
        "StartTransaction"@[12] == 't',
        "StartTransaction"@[13] == 'i',
        "StartTransaction"@[14] == 'o',
        "StartTransaction"@[15] == 'n',
        "Commit"@.len() == 6,
        "Commit"@[0] == 'C',
        "Commit"@[1] == 'o',
        "Commit"@[2] == 'm',
        "Commit"@[3] == 'm',
        "Commit"@[4] == 'i',
        "Commit"@[5] == 't',
        "Rollback"@.len() == 8,
        "Rollback"@[0] == 'R',
        "Rollback"@[1] == 'o',
        "Rollback"@[2] == 'l',
        "Rollback"@[3] == 'l',
        "Rollback"@[4] == 'b',
        "Rollback"@[5] == 'a',
        "Rollback"@[6] == 'c',
        "Rollback"@[7] == 'k',
        "Set"@.len() == 3,
        "Set"@[0] == 'S',
        "Set"@[1] == 'e',
        "Set"@[2] == 't',
        "Insert"@.len() == 6,
        "Insert"@[0] == 'I',
        "Insert"@[1] == 'n',
        "Insert"@[2] == 's',
        "Insert"@[3] == 'e',
        "Insert"@[4] == 'r',
        "Insert"@[5] == 't',
        "Update"@.len() == 6,
        "Update"@[0] == 'U',
        "Update"@[1] == 'p',
        "Update"@[2] == 'd',
        "Update"@[3] == 'a',
        "Update"@[4] == 't',
        "Update"@[5] == 'e',
        "Delete"@.len() == 6,
        "Delete"@[0] == 'D',
        "Delete"@[1] == 'e',
        "Delete"@[2] == 'l',
        "Delete"@[3] == 'e',
        "Delete"@[4] == 't',
        "Delete"@[5] == 'e',
        "Truncate"@.len() == 8,
        "Truncate"@[0] == 'T',
        "Truncate"@[1] == 'r',
        "Truncate"@[2] == 'u',
        "Truncate"@[3] == 'n',
        "Truncate"@[4] == 'c',
        "Truncate"@[5] == 'a',
        "Truncate"@[6] == 't',
        "Truncate"@[7] == 'e',
        "Merge"@.len() == 5,
        "Merge"@[0] == 'M',
        "Merge"@[1] == 'e',
        "Merge"@[2] == 'r',
        "Merge"@[3] == 'g',
        "Merge"@[4] == 'e',
        "CreateTable"@.len() == 11,
        "CreateTable"@[0] == 'C',
        "CreateTable"@[1] == 'r',
        "CreateTable"@[2] == 'e',
        "CreateTable"@[3] == 'a',
        "CreateTable"@[4] == 't',
        "CreateTable"@[5] == 'e',
        "CreateTable"@[6] == 'T',
        "CreateTable"@[7] == 'a',
        "CreateTable"@[8] == 'b',
        "CreateTable"@[9] == 'l',
        "CreateTable"@[10] == 'e',
        "CreateIndex"@.len() == 11,
        "CreateIndex"@[0] == 'C',
        "CreateIndex"@[1] == 'r',
        "CreateIndex"@[2] == 'e',
        "CreateIndex"@[3] == 'a',
        "CreateIndex"@[4] == 't',
        "CreateIndex"@[5] == 'e',
        "CreateIndex"@[6] == 'I',
        "CreateIndex"@[7] == 'n',
        "CreateIndex"@[8] == 'd',
        "CreateIndex"@[9] == 'e',
        "CreateIndex"@[10] == 'x',
        "CreateView"@.len() == 10,
        "CreateView"@[0] == 'C',
        "CreateView"@[1] == 'r',
        "CreateView"@[2] == 'e',
        "CreateView"@[3] == 'a',
        "CreateView"@[4] == 't',
        "CreateView"@[5] == 'e',
        "CreateView"@[6] == 'V',
        "CreateView"@[7] == 'i',
        "CreateView"@[8] == 'e',
        "CreateView"@[9] == 'w',
        "CreateSchema"@.len() == 12,
        "CreateSchema"@[0] == 'C',
        "CreateSchema"@[1] == 'r',
        "CreateSchema"@[2] == 'e',
        "CreateSchema"@[3] == 'a',
        "CreateSchema"@[4] == 't',
        "CreateSchema"@[5] == 'e',
        "CreateSchema"@[6] == 'S',
        "CreateSchema"@[7] == 'c',
        "CreateSchema"@[8] == 'h',
        "CreateSchema"@[9] == 'e',
        "CreateSchema"@[10] == 'm',
        "CreateSchema"@[11] == 'a',
        "CreateDatabase"@.len() == 14,
        "CreateDatabase"@[0] == 'C',
        "CreateDatabase"@[1] == 'r',
        "CreateDatabase"@[2] == 'e',
        "CreateDatabase"@[3] == 'a',
        "CreateDatabase"@[4] == 't',
        "CreateDatabase"@[5] == 'e',
        "CreateDatabase"@[6] == 'D',
        "CreateDatabase"@[7] == 'a',
        "CreateDatabase"@[8] == 't',
        "CreateDatabase"@[9] == 'a',
        "CreateDatabase"@[10] == 'b',
        "CreateDatabase"@[11] == 'a',
        "CreateDatabase"@[12] == 's',
        "CreateDatabase"@[13] == 'e',
        "CreateFunction"@.len() == 14,
        "CreateFunction"@[0] == 'C',
        "CreateFunction"@[1] == 'r',
        "CreateFunction"@[2] == 'e',
        "CreateFunction"@[3] == 'a',
        "CreateFunction"@[4] == 't',
        "CreateFunction"@[5] == 'e',
        "CreateFunction"@[6] == 'F',
        "CreateFunction"@[7] == 'u',
        "CreateFunction"@[8] == 'n',
        "CreateFunction"@[9] == 'c',
        "CreateFunction"@[10] == 't',
        "CreateFunction"@[11] == 'i',
        "CreateFunction"@[12] == 'o',
        "CreateFunction"@[13] == 'n',
        "CreateProcedure"@.len() == 15,
        "CreateProcedure"@[0] == 'C',
        "CreateProcedure"@[1] == 'r',
        "CreateProcedure"@[2] == 'e',
        "CreateProcedure"@[3] == 'a',
        "CreateProcedure"@[4] == 't',
        "CreateProcedure"@[5] == 'e',
        "CreateProcedure"@[6] == 'P',
        "CreateProcedure"@[7] == 'r',
        "CreateProcedure"@[8] == 'o',
        "CreateProcedure"@[9] == 'c',
        "CreateProcedure"@[10] == 'e',
        "CreateProcedure"@[11] == 'd',
        "CreateProcedure"@[12] == 'u',
        "CreateProcedure"@[13] == 'r',
        "CreateProcedure"@[14] == 'e',
        "CreateTrigger"@.len() == 13,
        "CreateTrigger"@[0] == 'C',
        "CreateTrigger"@[1] == 'r',
        "CreateTrigger"@[2] == 'e',
        "CreateTrigger"@[3] == 'a',
        "CreateTrigger"@[4] == 't',
        "CreateTrigger"@[5] == 'e',
        "CreateTrigger"@[6] == 'T',
        "CreateTrigger"@[7] == 'r',
        "CreateTrigger"@[8] == 'i',
        "CreateTrigger"@[9] == 'g',
        "CreateTrigger"@[10] == 'g',
        "CreateTrigger"@[11] == 'e',
        "CreateTrigger"@[12] == 'r',
        "CreateSequence"@.len() == 14,
        "CreateSequence"@[0] == 'C',
        "CreateSequence"@[1] == 'r',
        "CreateSequence"@[2] == 'e',
        "CreateSequence"@[3] == 'a',
        "CreateSequence"@[4] == 't',
        "CreateSequence"@[5] == 'e',
        "CreateSequence"@[6] == 'S',
        "CreateSequence"@[7] == 'e',
        "CreateSequence"@[8] == 'q',
        "CreateSequence"@[9] == 'u',
        "CreateSequence"@[10] == 'e',
        "CreateSequence"@[11] == 'n',
        "CreateSequence"@[12] == 'c',
        "CreateSequence"@[13] == 'e',
        "CreateRole"@.len() == 10,
        "CreateRole"@[0] == 'C',
        "CreateRole"@[1] == 'r',
        "CreateRole"@[2] == 'e',
        "CreateRole"@[3] == 'a',
        "CreateRole"@[4] == 't',
        "CreateRole"@[5] == 'e',
        "CreateRole"@[6] == 'R',
        "CreateRole"@[7] == 'o',
        "CreateRole"@[8] == 'l',
        "CreateRole"@[9] == 'e',
        "AlterTable"@.len() == 10,
        "AlterTable"@[0] == 'A',
        "AlterTable"@[1] == 'l',
        "AlterTable"@[2] == 't',
        "AlterTable"@[3] == 'e',
        "AlterTable"@[4] == 'r',
        "AlterTable"@[5] == 'T',
        "AlterTable"@[6] == 'a',
        "AlterTable"@[7] == 'b',
        "AlterTable"@[8] == 'l',
        "AlterTable"@[9] == 'e',
        "AlterIndex"@.len() == 10,
        "AlterIndex"@[0] == 'A',
        "AlterIndex"@[1] == 'l',
        "AlterIndex"@[2] == 't',
        "AlterIndex"@[3] == 'e',
        "AlterIndex"@[4] == 'r',
        "AlterIndex"@[5] == 'I',
        "AlterIndex"@[6] == 'n',
        "AlterIndex"@[7] == 'd',
        "AlterIndex"@[8] == 'e',
        "AlterIndex"@[9] == 'x',
        "AlterView"@.len() == 9,
        "AlterView"@[0] == 'A',
        "AlterView"@[1] == 'l',
        "AlterView"@[2] == 't',
        "AlterView"@[3] == 'e',
        "AlterView"@[4] == 'r',
        "AlterView"@[5] == 'V',
        "AlterView"@[6] == 'i',
        "AlterView"@[7] == 'e',
        "AlterView"@[8] == 'w',
        "AlterRole"@.len() == 9,
        "AlterRole"@[0] == 'A',
        "AlterRole"@[1] == 'l',
        "AlterRole"@[2] == 't',
        "AlterRole"@[3] == 'e',
        "AlterRole"@[4] == 'r',
        "AlterRole"@[5] == 'R',
        "AlterRole"@[6] == 'o',
        "AlterRole"@[7] == 'l',
        "AlterRole"@[8] == 'e',
        "Drop"@.len() == 4,
        "Drop"@[0] == 'D',
        "Drop"@[1] == 'r',
        "Drop"@[2] == 'o',
        "Drop"@[3] == 'p',
        "DropFunction"@.len() == 12,
        "DropFunction"@[0] == 'D',
        "DropFunction"@[1] == 'r',
        "DropFunction"@[2] == 'o',
        "DropFunction"@[3] == 'p',
        "DropFunction"@[4] == 'F',
        "DropFunction"@[5] == 'u',
        "DropFunction"@[6] == 'n',
        "DropFunction"@[7] == 'c',
        "DropFunction"@[8] == 't',
        "DropFunction"@[9] == 'i',
        "DropFunction"@[10] == 'o',
        "DropFunction"@[11] == 'n',
        "DropProcedure"@.len() == 13,
        "DropProcedure"@[0] == 'D',
        "DropProcedure"@[1] == 'r',
        "DropProcedure"@[2] == 'o',
        "DropProcedure"@[3] == 'p',
        "DropProcedure"@[4] == 'P',
        "DropProcedure"@[5] == 'r',
        "DropProcedure"@[6] == 'o',
        "DropProcedure"@[7] == 'c',
        "DropProcedure"@[8] == 'e',
        "DropProcedure"@[9] == 'd',
        "DropProcedure"@[10] == 'u',
        "DropProcedure"@[11] == 'r',
        "DropProcedure"@[12] == 'e',
        "Grant"@.len() == 5,
        "Grant"@[0] == 'G',
        "Grant"@[1] == 'r',
        "Grant"@[2] == 'a',
        "Grant"@[3] == 'n',
        "Grant"@[4] == 't',
        "Revoke"@.len() == 6,
        "Revoke"@[0] == 'R',
        "Revoke"@[1] == 'e',
        "Revoke"@[2] == 'v',
        "Revoke"@[3] == 'o',
        "Revoke"@[4] == 'k',
        "Revoke"@[5] == 'e',
        "Copy"@.len() == 4,
        "Copy"@[0] == 'C',
        "Copy"@[1] == 'o',
        "Copy"@[2] == 'p',
        "Copy"@[3] == 'y',
        "Call"@.len() == 4,
        "Call"@[0] == 'C',
        "Call"@[1] == 'a',
        "Call"@[2] == 'l',
        "Call"@[3] == 'l',
        "Execute"@.len() == 7,
        "Execute"@[0] == 'E',
        "Execute"@[1] == 'x',
        "Execute"@[2] == 'e',
        "Execute"@[3] == 'c',
        "Execute"@[4] == 'u',
        "Execute"@[5] == 't',
        "Execute"@[6] == 'e',
        "Prepare"@.len() == 7,
        "Prepare"@[0] == 'P',
        "Prepare"@[1] == 'r',
        "Prepare"@[2] == 'e',
        "Prepare"@[3] == 'p',
        "Prepare"@[4] == 'a',
        "Prepare"@[5] == 'r',
        "Prepare"@[6] == 'e',
{
    reveal_strlit("Query");
    reveal_strlit("Explain");
    reveal_strlit("ExplainTable");
    reveal_strlit("ShowFunctions");
    reveal_strlit("ShowVariable");
    reveal_strlit("ShowStatus");
    reveal_strlit("ShowVariables");
    reveal_strlit("ShowCreate");
    reveal_strlit("ShowColumns");
    reveal_strlit("ShowTables");
    reveal_strlit("ShowCollation");
    reveal_strlit("Use");
    reveal_strlit("StartTransaction");
    reveal_strlit("Commit");
    reveal_strlit("Rollback");
    reveal_strlit("Set");
    reveal_strlit("Insert");
    reveal_strlit("Update");
    reveal_strlit("Delete");
    reveal_strlit("Truncate");
    reveal_strlit("Merge");
    reveal_strlit("CreateTable");
    reveal_strlit("CreateIndex");
    reveal_strlit("CreateView");
    reveal_strlit("CreateSchema");
    reveal_strlit("CreateDatabase");
    reveal_strlit("CreateFunction");
    reveal_strlit("CreateProcedure");
    reveal_strlit("CreateTrigger");
    reveal_strlit("CreateSequence");
    reveal_strlit("CreateRole");
    reveal_strlit("AlterTable");
    reveal_strlit("AlterIndex");
    reveal_strlit("AlterView");
    reveal_strlit("AlterRole");
    reveal_strlit("Drop");
    reveal_strlit("DropFunction");
    reveal_strlit("DropProcedure");
    reveal_strlit("Grant");
    reveal_strlit("Revoke");
    reveal_strlit("Copy");
    reveal_strlit("Call");
    reveal_strlit("Execute");
    reveal_strlit("Prepare");
}

/// Statements that describe tables (`DESCRIBE`, `DESC`), show metadata or
/// settings, choose a database, control a transaction or set a session variable
/// only read: they give no reason.
pub proof fn lemma_inspection_and_session_statements_read_only(statement: ParsedStatement)
    requires
        ident_prefix(statement.debug@) == "ExplainTable"@
        || ident_prefix(statement.debug@) == "ShowFunctions"@
        || ident_prefix(statement.debug@) == "ShowVariable"@
        || ident_prefix(statement.debug@) == "ShowStatus"@
        || ident_prefix(statement.debug@) == "ShowVariables"@
        || ident_prefix(statement.debug@) == "ShowCreate"@
        || ident_prefix(statement.debug@) == "ShowColumns"@
        || ident_prefix(statement.debug@) == "ShowTables"@
        || ident_prefix(statement.debug@) == "ShowCollation"@
        || ident_prefix(statement.debug@) == "Use"@
        || ident_prefix(statement.debug@) == "StartTransaction"@
        || ident_prefix(statement.debug@) == "Commit"@
        || ident_prefix(statement.debug@) == "Rollback"@
        || ident_prefix(statement.debug@) == "Set"@,
    ensures
        statement_reason(statement) is None,
{
    lemma_variant_names();
}

/// Statements that write data, change the schema, change privileges, copy data
/// in or out, or run stored or prepared code may modify data, each with its reason.
pub proof fn lemma_modifying_statements_and_their_reasons(statement: ParsedStatement)
    ensures
        ident_prefix(statement.debug@) == "Insert"@ ==> statement_reason(statement) == Some("INSERT statement"@),
        ident_prefix(statement.debug@) == "Update"@ ==> statement_reason(statement) == Some("UPDATE statement"@),
        ident_prefix(statement.debug@) == "Delete"@ ==> statement_reason(statement) == Some("DELETE statement"@),
        ident_prefix(statement.debug@) == "Truncate"@ ==> statement_reason(statement) == Some("TRUNCATE statement"@),
        ident_prefix(statement.debug@) == "Merge"@ ==> statement_reason(statement) == Some("MERGE statement"@),
        ident_prefix(statement.debug@) == "CreateTable"@ ==> statement_reason(statement) == Some("CREATE TABLE statement"@),
        ident_prefix(statement.debug@) == "CreateIndex"@ ==> statement_reason(statement) == Some("CREATE INDEX statement"@),
        ident_prefix(statement.debug@) == "CreateView"@ ==> statement_reason(statement) == Some("CREATE VIEW statement"@),
        ident_prefix(statement.debug@) == "CreateSchema"@ ==> statement_reason(statement) == Some("CREATE SCHEMA statement"@),
        ident_prefix(statement.debug@) == "CreateDatabase"@ ==> statement_reason(statement) == Some("CREATE DATABASE statement"@),
        ident_prefix(statement.debug@) == "CreateFunction"@ ==> statement_reason(statement) == Some("CREATE FUNCTION statement"@),
        ident_prefix(statement.debug@) == "CreateProcedure"@ ==> statement_reason(statement) == Some("CREATE PROCEDURE statement"@),
        ident_prefix(statement.debug@) == "CreateTrigger"@ ==> statement_reason(statement) == Some("CREATE TRIGGER statement"@),
        ident_prefix(statement.debug@) == "CreateSequence"@ ==> statement_reason(statement) == Some("CREATE SEQUENCE statement"@),
        ident_prefix(statement.debug@) == "CreateRole"@ ==> statement_reason(statement) == Some("CREATE ROLE statement"@),
        ident_prefix(statement.debug@) == "AlterTable"@ ==> statement_reason(statement) == Some("ALTER TABLE statement"@),
        ident_prefix(statement.debug@) == "AlterIndex"@ ==> statement_reason(statement) == Some("ALTER INDEX statement"@),
        ident_prefix(statement.debug@) == "AlterView"@ ==> statement_reason(statement) == Some("ALTER VIEW statement"@),
        ident_prefix(statement.debug@) == "AlterRole"@ ==> statement_reason(statement) == Some("ALTER ROLE statement"@),
        ident_prefix(statement.debug@) == "Drop"@ ==> statement_reason(statement) == Some("DROP statement"@),
        ident_prefix(statement.debug@) == "DropFunction"@ ==> statement_reason(statement) == Some("DROP FUNCTION statement"@),
        ident_prefix(statement.debug@) == "DropProcedure"@ ==> statement_reason(statement) == Some("DROP PROCEDURE statement"@),
        ident_prefix(statement.debug@) == "Grant"@ ==> statement_reason(statement) == Some("GRANT statement"@),
        ident_prefix(statement.debug@) == "Revoke"@ ==> statement_reason(statement) == Some("REVOKE statement"@),
        ident_prefix(statement.debug@) == "Copy"@ ==> statement_reason(statement) == Some("COPY statement"@),
        ident_prefix(statement.debug@) == "Call"@ ==> statement_reason(statement) == Some("CALL statement (may modify data)"@),
        ident_prefix(statement.debug@) == "Execute"@ ==> statement_reason(statement) == Some("EXECUTE statement"@),
        ident_prefix(statement.debug@) == "Prepare"@ ==> statement_reason(statement) == Some("PREPARE statement"@),
{
    lemma_variant_names();
}

/// Every statement of a kind other than the sixteen that only read (a query,
/// `EXPLAIN`, a table description, the `SHOW` statements, `USE`, transaction
/// control and `SET`) may modify data.
pub proof fn lemma_other_statements_may_modify(statement: ParsedStatement)
    requires
        ident_prefix(statement.debug@) != "Query"@,
        ident_prefix(statement.debug@) != "Explain"@,
        ident_prefix(statement.debug@) != "ExplainTable"@,
        ident_prefix(statement.debug@) != "ShowFunctions"@,
        ident_prefix(statement.debug@) != "ShowVariable"@,
        ident_prefix(statement.debug@) != "ShowStatus"@,
        ident_prefix(statement.debug@) != "ShowVariables"@,
        ident_prefix(statement.debug@) != "ShowCreate"@,
        ident_prefix(statement.debug@) != "ShowColumns"@,
        ident_prefix(statement.debug@) != "ShowTables"@,
        ident_prefix(statement.debug@) != "ShowCollation"@,
        ident_prefix(statement.debug@) != "Use"@,
        ident_prefix(statement.debug@) != "StartTransaction"@,
        ident_prefix(statement.debug@) != "Commit"@,
        ident_prefix(statement.debug@) != "Rollback"@,
        ident_prefix(statement.debug@) != "Set"@,
    ensures
        statement_reason(statement) is Some,
{
    lemma_variant_names();
}

/// An `EXPLAIN ANALYZE` is judged by the statement it explains, which it runs.
pub proof fn lemma_explain_analyze_is_judged_by_its_statement(statement: ParsedStatement)
    requires
        ident_prefix(statement.debug@) == "Explain"@,
        statement.explain matches Some(explain) && explain.analyze,
    ensures
        statement_reason(statement) == statement_reason(*statement.explain->0.statement),
{
}

/// An `EXPLAIN` without `ANALYZE`, as a keyword or among its options, runs
/// nothing and only reads, whatever it explains.
pub proof fn lemma_explain_without_analyze_reads_only(statement: ParsedStatement)
    requires
        ident_prefix(statement.debug@) == "Explain"@,
        statement.explain matches Some(explain) && !explain.analyze && match explain.option_names {
            Some(names) => forall|i: int| 0 <= i < names@.len() ==> !eq_ignore_ascii_case(#[trigger] names@[i]@, "analyze"@),
            None => true,
        },
    ensures
        statement_reason(statement) is None,
{
}

/// A query whose body inserts, updates, deletes or merges is judged by that statement.
pub proof fn lemma_data_modifying_query_body(query: QueryShape, statement: ParsedStatement)
    requires
        query.ctes is None,
        *query.body == SetShape::Insert(statement) || *query.body == SetShape::Update(statement)
            || *query.body == SetShape::Delete(statement) || *query.body == SetShape::Merge(
            statement,
        ),
    ensures
        query_reason(query) == statement_reason(statement),
{
}

/// The optional text of an optional string.
pub open spec fn opt_text(s: Option<String>) -> Option<Seq<char>> {
    match s {
        Some(t) => Some(t@),
        None => None,
    }
}

/// Whether `c` can stand in a Rust identifier.
fn ident_char(c: char) -> (r: bool)
    ensures
        r == is_ident_char(c),
{
    ('a' <= c && c <= 'z') || ('A' <= c && c <= 'Z') || ('0' <= c && c <= '9') || c == '_'
}

/// The name of the `Statement` variant that a `Debug` rendering starts with.
fn variant_name(debug: &str) -> (r: &str)
    ensures
        r@ == ident_prefix(debug@),
{
    let n = debug.unicode_len();
    let mut i: usize = 0;
    assert(debug@.skip(0) =~= debug@);
    while i < n && ident_char(debug.get_char(i))
        invariant
            i <= n,
            n == debug@.len(),
            ident_prefix(debug@) == debug@.take(i as int) + ident_prefix(debug@.skip(i as int)),
        decreases n - i,
    {
        let c = debug.get_char(i);
        assert(debug@.skip(i as int).drop_first() =~= debug@.skip(i + 1));
        assert(debug@.take(i as int) + seq![c] =~= debug@.take(i + 1));
        assert(debug@.take(i as int) + (seq![c] + ident_prefix(debug@.skip(i + 1))) =~= debug@.take(i + 1) + ident_prefix(debug@.skip(i + 1)));
        i = i + 1;
    }
    assert(ident_prefix(debug@.skip(i as int)) =~= Seq::<char>::empty());
    assert(debug@.take(i as int) + Seq::<char>::empty() =~= debug@.take(i as int));
    debug.substring_char(0, i)
}

/// Why a statement of the variant may modify data, or `None` where it only reads.
fn variant_reason(v: &str, discriminant: &String) -> (r: Option<String>)
    ensures
        opt_text(r) == modifying_reason(v@, discriminant@),
{
    if str_eq(v, "Query") || str_eq(v, "Explain") || str_eq(v, "ExplainTable") || str_eq(v, "ShowFunctions") || str_eq(v, "ShowVariable") || str_eq(v, "ShowStatus") || str_eq(v, "ShowVariables") || str_eq(v, "ShowCreate") || str_eq(v, "ShowColumns") || str_eq(v, "ShowTables") || str_eq(v, "ShowCollation") || str_eq(v, "Use") || str_eq(v, "StartTransaction") || str_eq(v, "Commit") || str_eq(v, "Rollback") || str_eq(v, "Set") {
        None
    } else if str_eq(v, "Insert") {
        Some(String::from_str("INSERT statement"))
    } else if str_eq(v, "Update") {
        Some(String::from_str("UPDATE statement"))
    } else if str_eq(v, "Delete") {
        Some(String::from_str("DELETE statement"))
    } else if str_eq(v, "Truncate") {
        Some(String::from_str("TRUNCATE statement"))
    } else if str_eq(v, "Merge") {
        Some(String::from_str("MERGE statement"))
    } else if str_eq(v, "CreateTable") {
        Some(String::from_str("CREATE TABLE statement"))
    } else if str_eq(v, "CreateIndex") {
        Some(String::from_str("CREATE INDEX statement"))
    } else if str_eq(v, "CreateView") {
        Some(String::from_str("CREATE VIEW statement"))
    } else if str_eq(v, "CreateSchema") {
        Some(String::from_str("CREATE SCHEMA statement"))
    } else if str_eq(v, "CreateDatabase") {
        Some(String::from_str("CREATE DATABASE statement"))
    } else if str_eq(v, "CreateFunction") {
        Some(String::from_str("CREATE FUNCTION statement"))
    } else if str_eq(v, "CreateProcedure") {
        Some(String::from_str("CREATE PROCEDURE statement"))
    } else if str_eq(v, "CreateTrigger") {
        Some(String::from_str("CREATE TRIGGER statement"))
    } else if str_eq(v, "CreateSequence") {
        Some(String::from_str("CREATE SEQUENCE statement"))
    } else if str_eq(v, "CreateRole") {
        Some(String::from_str("CREATE ROLE statement"))
    } else if str_eq(v, "AlterTable") {
        Some(String::from_str("ALTER TABLE statement"))
    } else if str_eq(v, "AlterIndex") {
        Some(String::from_str("ALTER INDEX statement"))
    } else if str_eq(v, "AlterView") {
        Some(String::from_str("ALTER VIEW statement"))
    } else if str_eq(v, "AlterRole") {
        Some(String::from_str("ALTER ROLE statement"))
    } else if str_eq(v, "Drop") {
        Some(String::from_str("DROP statement"))
    } else if str_eq(v, "DropFunction") {
        Some(String::from_str("DROP FUNCTION statement"))
    } else if str_eq(v, "DropProcedure") {
        Some(String::from_str("DROP PROCEDURE statement"))
    } else if str_eq(v, "Grant") {
        Some(String::from_str("GRANT statement"))
    } else if str_eq(v, "Revoke") {
        Some(String::from_str("REVOKE statement"))
    } else if str_eq(v, "Copy") {
        Some(String::from_str("COPY statement"))
    } else if str_eq(v, "Call") {
        Some(String::from_str("CALL statement (may modify data)"))
    } else if str_eq(v, "Execute") {
        Some(String::from_str("EXECUTE statement"))
    } else if str_eq(v, "Prepare") {
        Some(String::from_str("PREPARE statement"))
    } else {
        let mut reason = String::from_str("Unknown statement type: ");
        reason.append(discriminant.as_str());
        Some(reason)
    }
}

/// Whether `a` and `b` are the same character when ASCII letters are compared
/// without case.
fn same_char_ignoring_ascii_case(a: char, b: char) -> (r: bool)
    ensures
        r == same_ignoring_ascii_case(a, b),
{
    a == b || ('A' <= a && a <= 'Z' && (a as u32) + 32 == (b as u32)) || ('A' <= b && b <= 'Z'
        && (b as u32) + 32 == (a as u32))
}

/// Whether `name` is `ANALYZE`, in any case.
fn is_analyze(name: &str) -> (r: bool)
    ensures
        r == eq_ignore_ascii_case(name@, "analyze"@),
{
    let word = "analyze";
    proof {
        reveal_strlit("analyze");
    }
    let n = name.unicode_len();
    if n != word.unicode_len() {
        return false;
    }
    let mut i: usize = 0;
    while i < n
        invariant
            i <= n,
            n == name@.len(),
            word@ == "analyze"@,
            n == word@.len(),
            forall|j: int| 0 <= j < i ==> same_ignoring_ascii_case(#[trigger] name@[j], word@[j]),
        decreases n - i,
    {
        if !same_char_ignoring_ascii_case(name.get_char(i), word.get_char(i)) {
            return false;
        }
        i = i + 1;
    }
    true
}

/// Whether one of `names` is `ANALYZE`, in any case.
fn any_analyze(names: &Vec<String>) -> (r: bool)
    ensures
        r == names_analyze(names@),
{
    let mut i: usize = 0;
    while i < names.len()
        invariant
            i <= names@.len(),
            forall|j: int| 0 <= j < i ==> !eq_ignore_ascii_case(#[trigger] names@[j]@, "analyze"@),
        decreases names@.len() - i,
    {
        if is_analyze(names[i].as_str()) {
            return true;
        }
        i = i + 1;
    }
    false
}

/// Why the statement may modify data, or `None` where it only reads.
pub fn is_modifying_statement(statement: &ParsedStatement) -> (r: Option<String>)
    ensures
        opt_text(r) == statement_reason(*statement),
    decreases statement,
{
    let v = variant_name(statement.debug.as_str());
    if str_eq(v, "Explain") {
        match &statement.explain {
            Some(explain) => {
                let runs = explain.analyze || match &explain.option_names {
                    Some(names) => any_analyze(names),
                    None => false,
                };
                if runs {
                    is_modifying_statement(&explain.statement)
                } else {
                    None
                }
            },
            None => None,
        }
    } else if str_eq(v, "Query") {
        match &statement.query {
            Some(query) => query_modifying_reason(query),
            None => None,
        }
    } else {
        variant_reason(v, &statement.discriminant)
    }
}

/// Why a query may modify data: the first of its `WITH` queries that may, else its body.
fn query_modifying_reason(query: &QueryShape) -> (r: Option<String>)
    ensures
        opt_text(r) == query_reason(*query),
    decreases query,
{
    if let Some(ctes) = &query.ctes {
        let n = ctes.len();
        let mut i: usize = 0;
        assert(ctes@.skip(0) =~= ctes@);
        while i < n
            invariant
                i <= n,
                n == ctes@.len(),
                query.ctes == Some(*ctes),
                queries_reason(ctes@) == queries_reason(ctes@.skip(i as int)),
            decreases n - i,
        {
            proof {
                assert(decreases_to!(query.ctes => query.ctes->0));
                assert(decreases_to!(*query => ctes@[i as int]));
            }
            assert(ctes@.skip(i as int)[0] == ctes@[i as int]);
            assert(ctes@.skip(i as int).drop_first() =~= ctes@.skip(i + 1));
            let found = query_modifying_reason(&ctes[i]);
            if found.is_some() {
                return found;
            }
            i = i + 1;
        }
        assert(ctes@.skip(n as int) =~= Seq::<QueryShape>::empty());
    }
    body_modifying_reason(&query.body)
}

/// Why a query body may modify data.
fn body_modifying_reason(body: &SetShape) -> (r: Option<String>)
    ensures
        opt_text(r) == set_reason(*body),
    decreases body,
{
    match body {
        SetShape::Query(query) => query_modifying_reason(query),
        SetShape::SetOperation(left, right) => {
            let found = body_modifying_reason(left);
            if found.is_some() {
                found
            } else {
                body_modifying_reason(right)
            }
        },
        SetShape::Insert(s) => is_modifying_statement(s),
        SetShape::Update(s) => is_modifying_statement(s),
        SetShape::Delete(s) => is_modifying_statement(s),
        SetShape::Merge(s) => is_modifying_statement(s),
        _ => None,
    }
}

/// Checks parsed statements: modifying at the first statement that may modify
/// data, read-only otherwise (also where there is no statement).
pub fn check_statements(statements: &Vec<ParsedStatement>) -> (r: QueryCheck)
    ensures
        r@ == statements_verdict(statements@),
{
    let ghost all = statements@;
    let n = statements.len();
    let mut i: usize = 0;
    assert(all.skip(0) =~= all);
    while i < n
        invariant
            i <= n,
            n == statements@.len(),
            all == statements@,
            first_modifying_reason(all) == first_modifying_reason(all.skip(i as int)),
        decreases n - i,
    {
        assert(all.skip(i as int)[0] == statements@[i as int]);
        assert(all.skip(i as int).drop_first() =~= all.skip(i + 1));
        if let Some(reason) = is_modifying_statement(&statements[i]) {
            return QueryCheck::Modifying(reason);
        }
        i = i + 1;
    }
    QueryCheck::ReadOnly
}

/// Checks whether SQL text only reads data: `ReadOnly` when every statement
/// only reads, `Modifying` with the reason of the first that may modify,
/// `ParseError` when the text does not parse.
pub fn check_sql_readonly(sql: &str) -> (r: QueryCheck)
    ensures
        r@ == sql_verdict(sql@),
{
    match parse_sql_statements(sql) {
        Ok(statements) => check_statements(&statements),
        Err(message) => QueryCheck::ParseError(message),
    }
}

} // verus!
