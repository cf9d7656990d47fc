//! Statements, and the SQL parser that classifies them.

use vstd::prelude::*;
use crate::predicate::Predicate;
use crate::guard::parseable;
use crate::value::Constant;

verus! {

/// An incoming statement, by the way it is routed.
#[derive(Debug)]
pub enum Statement {
    /// Rows to be inserted into a table.
    Insert { table: String, rows: Vec<Vec<Constant>> },
    /// The definition of a table.
    SchemaDefinition,
    /// A select, with its filter predicate if it has one.
    ParameterizedSelect { where_clause: Option<Predicate> },
    /// A statement of any other kind.
    Unsupported,
}

/// `nom_sql::ConditionExpression`, the parser's filter expression. Nothing is
/// claimed of what a value of it holds.
#[verifier::external_type_specification]
#[verifier::external_body]
pub struct ExConditionExpression(nom_sql::ConditionExpression);

/// `nom_sql::Literal`, the parser's literal. Nothing is claimed of what a
/// value of it holds.
#[verifier::external_type_specification]
#[verifier::external_body]
pub struct ExLiteral(nom_sql::Literal);

/// What `nom_sql::parse_query` makes of a text: the statement that it parses
/// to, or nothing where it rejects the text.
pub uninterp spec fn parsed(text: Seq<char>) -> Option<Statement>;

/// Calls `nom_sql::parse_query`, and tells the variants of the
/// `nom_sql::SqlQuery` that it returns apart. The parser is a function of the
/// text alone. It panics where a number does not fit the machine integer
/// that it converts it to, where the table of an insert or of a table
/// definition carries an alias, and where it prints a `CASE WHEN` whose
/// condition joins a list of tables; on a long or deeply nested text it may
/// run out of stack or time. `parseable` leaves such texts out.
#[verifier::external_body]
pub(crate) fn parse_statement(text: &str) -> (r: Option<Statement>)
    requires
        parseable(text@),
    ensures
        r == parsed(text@),
{
    match nom_sql::parse_query(text) {
        Ok(nom_sql::SqlQuery::Insert(insert)) => Some(Statement::Insert {
            table: insert.table.name,
            rows: insert.data.into_iter().map(|r| r.into_iter().map(constant_of).collect()).collect(),
        }),
        Ok(nom_sql::SqlQuery::CreateTable(_)) => Some(Statement::SchemaDefinition),
        Ok(nom_sql::SqlQuery::Select(select)) => Some(Statement::ParameterizedSelect {
            where_clause: select.where_clause.map(predicate_of),
        }),
        Ok(_) => Some(Statement::Unsupported),
        Err(_) => None,
    }
}

/// Tells the variants of `nom_sql::Literal` apart: null, a signed integer and
/// a string keep what they hold, every other kind becomes `Constant::Other`.
#[verifier::external_body]
fn constant_of(literal: nom_sql::Literal) -> Constant {
    match literal {
        nom_sql::Literal::Null => Constant::Null,
        nom_sql::Literal::Integer(i) => Constant::Integer(i),
        nom_sql::Literal::String(s) => Constant::Text(s),
        _ => Constant::Other,
    }
}

/// Tells the variants of `nom_sql::ConditionExpression` apart, and those of
/// the `nom_sql::ConditionBase` in it: a logical operation and a comparison
/// keep their two operands, a field keeps the name of its column, the
/// placeholder literal becomes `Predicate::Placeholder`, every other kind
/// becomes `Predicate::Other`.
#[verifier::external_body]
fn predicate_of(condition: nom_sql::ConditionExpression) -> Predicate {
    match condition {
        nom_sql::ConditionExpression::LogicalOp(tree) => Predicate::Logical(
            Box::new(predicate_of(*tree.left)),
            Box::new(predicate_of(*tree.right)),
        ),
        nom_sql::ConditionExpression::ComparisonOp(tree) => Predicate::Comparison(
            Box::new(predicate_of(*tree.left)),
            Box::new(predicate_of(*tree.right)),
        ),
        nom_sql::ConditionExpression::Base(nom_sql::ConditionBase::Field(column)) => Predicate::Field(column.name),
        nom_sql::ConditionExpression::Base(nom_sql::ConditionBase::Literal(nom_sql::Literal::Placeholder)) => Predicate::Placeholder,
        _ => Predicate::Other,
    }
}

} // verus!
