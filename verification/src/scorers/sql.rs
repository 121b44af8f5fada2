//! A scorer passing outputs that parse as SQL under a chosen dialect.

use vstd::prelude::*;

use crate::datasource::lookup_field;
use crate::render::json_text_of;
use crate::scorer::Scorer;
use crate::types::{Score, ScoreModel, SCORE_UNIT_MICROS};
use crate::value::{JsonValue, ValueModel};

verus! {

/// The SQL dialect to parse with.
#[derive(Debug, Clone, Copy, PartialEq, Eq, Structural)]
pub enum SqlDialect {
    Generic,
    PostgreSQL,
    MySQL,
    SQLite,
}

/// A name for each dialect, distinguishing them in specifications.
pub open spec fn dialect_key(d: SqlDialect) -> Seq<char> {
    match d {
        SqlDialect::Generic => seq!['g', 'e', 'n', 'e', 'r', 'i', 'c'],
        SqlDialect::PostgreSQL => seq!['p', 'o', 's', 't', 'g', 'r', 'e', 's'],
        SqlDialect::MySQL => seq!['m', 'y', 's', 'q', 'l'],
        SqlDialect::SQLite => seq!['s', 'q', 'l', 'i', 't', 'e'],
    }
}

/// How many statements the SQL text parses to under the dialect, or nothing
/// when it does not parse; the outcome is a function of dialect and text
/// alone.
pub uninterp spec fn sql_statement_count(dialect: Seq<char>, sql: Seq<char>) -> Option<nat>;

/// Relies on sqlparser::parser::Parser::parse_sql, with the sqlparser
/// dialect matching ours: the statement count on success, the parser's
/// message on failure.
#[verifier::external_body]
fn parse_sql_count(dialect: SqlDialect, sql: &str) -> (r: Result<usize, String>)
    ensures
        r matches Ok(n) ==> sql_statement_count(dialect_key(dialect), sql@) == Option::Some(
            n as nat,
        ),
        r is Err <==> sql_statement_count(dialect_key(dialect), sql@) is None,
{
    let d: Box<dyn sqlparser::dialect::Dialect> = match dialect {
        SqlDialect::Generic => Box::new(sqlparser::dialect::GenericDialect {}),
        SqlDialect::PostgreSQL => Box::new(sqlparser::dialect::PostgreSqlDialect {}),
        SqlDialect::MySQL => Box::new(sqlparser::dialect::MySqlDialect {}),
        SqlDialect::SQLite => Box::new(sqlparser::dialect::SQLiteDialect {}),
    };
    match sqlparser::parser::Parser::parse_sql(&*d, sql) {
        Ok(statements) => Ok(statements.len()),
        Err(e) => Err(e.to_string()),
    }
}

/// The text an output value is parsed as: text itself, an object's `sql`
/// field when that is text, anything else its JSON text.
pub open spec fn sql_text_of(m: ValueModel) -> Seq<char> {
    match m {
        ValueModel::Text(s) => s,
        ValueModel::Obj(fields) => match lookup_field(fields, seq!['s', 'q', 'l']) {
            Option::Some(ValueModel::Text(s)) => s,
            _ => json_text_of(m),
        },
        _ => json_text_of(m),
    }
}

/// Whether the output's SQL text parses under the dialect.
pub open spec fn sql_parses(d: SqlDialect, output: ValueModel) -> bool {
    sql_statement_count(dialect_key(d), sql_text_of(output)) is Some
}

/// Passes when the output parses as SQL under the configured dialect.
pub struct SqlScorer {
    /// The dialect to parse with.
    pub dialect: SqlDialect,
}

impl SqlScorer {
    /// A scorer parsing under the given dialect.
    pub fn new(dialect: SqlDialect) -> (s: SqlScorer)
        ensures
            s.dialect == dialect,
    {
        SqlScorer { dialect }
    }

    /// A scorer with the most permissive, generic dialect.
    pub fn generic() -> (s: SqlScorer)
        ensures
            s.dialect == SqlDialect::Generic,
    {
        SqlScorer::new(SqlDialect::Generic)
    }

    /// A scorer for PostgreSQL.
    pub fn postgres() -> (s: SqlScorer)
        ensures
            s.dialect == SqlDialect::PostgreSQL,
    {
        SqlScorer::new(SqlDialect::PostgreSQL)
    }

    /// A scorer for MySQL.
    pub fn mysql() -> (s: SqlScorer)
        ensures
            s.dialect == SqlDialect::MySQL,
    {
        SqlScorer::new(SqlDialect::MySQL)
    }

    /// A scorer for SQLite.
    pub fn sqlite() -> (s: SqlScorer)
        ensures
            s.dialect == SqlDialect::SQLite,
    {
        SqlScorer::new(SqlDialect::SQLite)
    }
}

impl Default for SqlScorer {
    /// The default scorer parses under the generic dialect.
    fn default() -> (s: SqlScorer)
        ensures
            s.dialect == SqlDialect::Generic,
    {
        SqlScorer::generic()
    }
}

impl Scorer for SqlScorer {
    open spec fn spec_name(&self) -> Seq<char> {
        "sql"@
    }

    fn name(&self) -> (r: String)
        ensures
            r@ == self.spec_name(),
    {
        "sql".to_string()
    }

    /// Full marks exactly when the output's SQL text parses under the
    /// configured dialect.
    fn score(&self, expected: &JsonValue, output: &JsonValue) -> (r: Result<Score, String>)
        ensures
            r is Ok,
            r matches Ok(s) ==> s@ == (ScoreModel {
                name: "sql"@,
                value_micros: if sql_parses(self.dialect, output@) {
                    SCORE_UNIT_MICROS
                } else {
                    0
                },
                passed: sql_parses(self.dialect, output@),
                details: Option::None,
            }),
    {
        let sql_string: String = match output {
            JsonValue::Text(s) => s.clone(),
            JsonValue::Obj(fields) => {
                proof {
                    reveal_strlit("sql");
                    assert("sql"@ =~= seq!['s', 'q', 'l']);
                }
                match crate::datasource::obj_get(fields, "sql") {
                    Some(JsonValue::Text(s)) => s.clone(),
                    _ => crate::render::to_json_string(output),
                }
            },
            _ => crate::render::to_json_string(output),
        };
        let parsed = parse_sql_count(self.dialect, sql_string.as_str());
        let valid = parsed.is_ok();
        let value_micros = if valid {
            SCORE_UNIT_MICROS
        } else {
            0
        };
        Ok(Score { name: "sql".to_string(), value_micros, passed: valid, details: None })
    }
}

} // verus!
