//! The errors that the layer reports.

use vstd::prelude::*;

verus! {

/// What kind of name failed to resolve or lost its handle.
#[derive(Clone, Copy, Debug, PartialEq, Eq, Structural)]
pub enum Namespace {
    /// A table, the target of an insert.
    Table,
    /// A view, the target of a lookup.
    View,
    /// A named query of the registry.
    Query,
}

/// Why a statement is not handled.
#[derive(Clone, Copy, Debug, PartialEq, Eq, Structural)]
pub enum Unsupported {
    /// The text is kept from the SQL parser, which could not take it: a
    /// number in it is too large, the table of an insert or of a table
    /// definition carries an alias, a function is given a `CASE WHEN`, or
    /// the text is too long, nested too deeply or joined by too many
    /// connectives.
    Guarded,
    /// The text is not a statement that the SQL parser accepts.
    Syntax,
    /// The statement is of a kind that the dispatcher does not route.
    StatementKind,
    /// A select was submitted without a name to register it under.
    UnnamedSelect,
    /// An insert that does not carry exactly one row.
    RowCount,
    /// A literal that has no counterpart among the engine's values.
    Literal,
    /// A filter predicate that is neither a logical combination nor a comparison.
    Predicate,
    /// An execution of a query that does not take exactly one parameter.
    ParameterCount,
}

/// An error of the layer. None is retried, and none is fatal.
#[derive(Debug)]
pub enum Error {
    /// The engine rejected the statement; the recipe is unchanged.
    RecipeExtensionFailure { description: String },
    /// The name is not known to the active recipe, or to the registry.
    NameResolutionFailure { namespace: Namespace, name: String },
    /// The name resolves, but the engine has no live handle for it.
    HandleUnavailable { namespace: Namespace, name: String },
    /// The row of an insert is not as wide as the table.
    ColumnArityMismatch { expected: usize, got: usize },
    /// A named query was executed with the wrong number of arguments.
    QueryArityMismatch { expected: usize, got: usize },
    /// A query was registered under a name that is in use.
    DuplicateQueryName { name: String },
    /// The dispatcher does not handle the statement.
    UnsupportedStatement { reason: Unsupported },
}

/// An error as a mathematical value: each string by its characters.
pub enum ErrorView {
    RecipeExtensionFailure { description: Seq<char> },
    NameResolutionFailure { namespace: Namespace, name: Seq<char> },
    HandleUnavailable { namespace: Namespace, name: Seq<char> },
    ColumnArityMismatch { expected: nat, got: nat },
    QueryArityMismatch { expected: nat, got: nat },
    DuplicateQueryName { name: Seq<char> },
    UnsupportedStatement { reason: Unsupported },
}

impl View for Error {
    type V = ErrorView;

    open spec fn view(&self) -> ErrorView {
        match *self {
            Error::RecipeExtensionFailure { description } => ErrorView::RecipeExtensionFailure {
                description: description@,
            },
            Error::NameResolutionFailure { namespace, name } => ErrorView::NameResolutionFailure {
                namespace,
                name: name@,
            },
            Error::HandleUnavailable { namespace, name } => ErrorView::HandleUnavailable {
                namespace,
                name: name@,
            },
            Error::ColumnArityMismatch { expected, got } => ErrorView::ColumnArityMismatch {
                expected: expected as nat,
                got: got as nat,
            },
            Error::QueryArityMismatch { expected, got } => ErrorView::QueryArityMismatch {
                expected: expected as nat,
                got: got as nat,
            },
            Error::DuplicateQueryName { name } => ErrorView::DuplicateQueryName { name: name@ },
            Error::UnsupportedStatement { reason } => ErrorView::UnsupportedStatement { reason },
        }
    }
}

/// The view of the error that refuses a statement for the given reason.
pub open spec fn unsupported(reason: Unsupported) -> ErrorView {
    ErrorView::UnsupportedStatement { reason }
}

} // verus!
