//! The steps of an operation: what the layer asks of the engine, and what it
//! carries from one answer to the next request.

use vstd::prelude::*;
use crate::error::Error;
use crate::error::ErrorView;
use crate::error::Namespace;
use crate::predicate::Predicate;
use crate::recipe::EngineId;
use crate::value::Value;
use crate::value::ValueView;
use crate::value::values;

verus! {

/// An insert on its way: the table, and the row to be stored in it.
#[derive(Debug)]
pub struct Insertion {
    pub table: String,
    pub row: Vec<Value>,
}

/// An execution of a named query on its way: the view that answers it, and
/// the key to look up.
#[derive(Debug)]
pub struct Execution {
    pub view: String,
    pub key: Value,
}

/// The query that a migration is to register once the engine has activated it.
#[derive(Debug)]
pub struct Registration {
    pub name: String,
    pub where_clause: Option<Predicate>,
}

/// An extension of the recipe on its way: the statement that the engine is
/// asked to activate, and the query to register afterwards, if there is one.
#[derive(Debug)]
pub struct Migration {
    pub statement: String,
    pub registration: Option<Registration>,
}

/// What is to happen next in an operation. Each request is answered through
/// the completion method that its variant names.
#[derive(Debug)]
pub enum Step {
    /// Ask the engine to extend its recipe by the migration's statement, and
    /// hand the answer to `Backend::activated`.
    Activate(Migration),
    /// Ask the engine which table the insertion's name stands for, and hand
    /// the answer to `Insertion::resolved`.
    ResolveInput(Insertion),
    /// Ask the engine for a write handle of the table, and hand the answer to
    /// `Backend::write_handle_obtained`.
    ObtainWriteHandle(Insertion, EngineId),
    /// Submit the row through the cached write handle of the table, and hand
    /// the answer to `Insertion::submitted`.
    Put(Insertion),
    /// Ask the engine which view the execution's name stands for, and hand the
    /// answer to `Execution::resolved`.
    ResolveOutput(Execution),
    /// Ask the engine for a read handle of the view, and hand the answer to
    /// `Backend::read_handle_obtained`.
    ObtainReadHandle(Execution, EngineId),
    /// Look the key up through the cached read handle of the view, and hand
    /// the answer to `Execution::finished`.
    Lookup(Execution),
    /// Ask nothing: the operation has failed.
    Failed(Error),
}

/// How the engine answered a row that was submitted.
#[derive(Clone, Copy, Debug, PartialEq, Eq, Structural)]
pub enum PutOutcome {
    /// The row was stored.
    Stored,
    /// The row is not as wide as the table.
    WrongColumnCount { expected: usize, got: usize },
}

pub struct InsertionView {
    pub table: Seq<char>,
    pub row: Seq<ValueView>,
}

pub struct ExecutionView {
    pub view: Seq<char>,
    pub key: ValueView,
}

pub struct RegistrationView {
    pub name: Seq<char>,
    pub where_clause: Option<Predicate>,
}

pub struct MigrationView {
    pub statement: Seq<char>,
    pub registration: Option<RegistrationView>,
}

pub enum StepView {
    Activate(MigrationView),
    ResolveInput(InsertionView),
    ObtainWriteHandle(InsertionView, EngineId),
    Put(InsertionView),
    ResolveOutput(ExecutionView),
    ObtainReadHandle(ExecutionView, EngineId),
    Lookup(ExecutionView),
    Failed(ErrorView),
}

impl View for Insertion {
    type V = InsertionView;

    open spec fn view(&self) -> InsertionView {
        InsertionView { table: self.table@, row: values(self.row@) }
    }
}

impl View for Execution {
    type V = ExecutionView;

    open spec fn view(&self) -> ExecutionView {
        ExecutionView { view: self.view@, key: self.key@ }
    }
}

impl View for Registration {
    type V = RegistrationView;

    open spec fn view(&self) -> RegistrationView {
        RegistrationView { name: self.name@, where_clause: self.where_clause }
    }
}

impl View for Migration {
    type V = MigrationView;

    open spec fn view(&self) -> MigrationView {
        MigrationView {
            statement: self.statement@,
            registration: match self.registration {
                Some(registration) => Some(registration@),
                None => None,
            },
        }
    }
}

impl View for Step {
    type V = StepView;

    open spec fn view(&self) -> StepView {
        match *self {
            Step::Activate(migration) => StepView::Activate(migration@),
            Step::ResolveInput(insertion) => StepView::ResolveInput(insertion@),
            Step::ObtainWriteHandle(insertion, id) => StepView::ObtainWriteHandle(insertion@, id),
            Step::Put(insertion) => StepView::Put(insertion@),
            Step::ResolveOutput(execution) => StepView::ResolveOutput(execution@),
            Step::ObtainReadHandle(execution, id) => StepView::ObtainReadHandle(execution@, id),
            Step::Lookup(execution) => StepView::Lookup(execution@),
            Step::Failed(error) => StepView::Failed(error@),
        }
    }
}

/// The error that says that no table, view or query goes by the name.
pub open spec fn unresolved(namespace: Namespace, name: Seq<char>) -> ErrorView {
    ErrorView::NameResolutionFailure { namespace, name }
}

/// The error that says that the engine has no live handle for the name.
pub open spec fn lost(namespace: Namespace, name: Seq<char>) -> ErrorView {
    ErrorView::HandleUnavailable { namespace, name }
}

impl Insertion {
    /// Takes the engine's answer to `Step::ResolveInput`: the table's
    /// identifier, or nothing where the active recipe has no table of that
    /// name. A table that resolved is next asked for its write handle.
    pub fn resolved(self, id: Option<EngineId>) -> (step: Step)
        ensures
            step@ == (match id {
                Some(id) => StepView::ObtainWriteHandle(self@, id),
                None => StepView::Failed(unresolved(Namespace::Table, self.table@)),
            }),
    {
        match id {
            Some(id) => Step::ObtainWriteHandle(self, id),
            None => Step::Failed(
                Error::NameResolutionFailure { namespace: Namespace::Table, name: self.table },
            ),
        }
    }

    /// Takes the engine's answer to `Step::Put`, and ends the insert: with
    /// success where the row was stored, with the two widths where the row is
    /// not as wide as the table.
    pub fn submitted(self, outcome: PutOutcome) -> (r: Result<(), Error>)
        ensures
            match outcome {
                PutOutcome::Stored => r is Ok,
                PutOutcome::WrongColumnCount { expected, got } => r is Err && r->Err_0@ == (
                ErrorView::ColumnArityMismatch { expected: expected as nat, got: got as nat }),
            },
    {
        match outcome {
            PutOutcome::Stored => Ok(()),
            PutOutcome::WrongColumnCount { expected, got } => Err(
                Error::ColumnArityMismatch { expected, got },
            ),
        }
    }
}

impl Execution {
    /// Takes the engine's answer to `Step::ResolveOutput`: the view's
    /// identifier, or nothing where the active recipe has no view of that
    /// name. A view that resolved is next asked for its read handle.
    pub fn resolved(self, id: Option<EngineId>) -> (step: Step)
        ensures
            step@ == (match id {
                Some(id) => StepView::ObtainReadHandle(self@, id),
                None => StepView::Failed(unresolved(Namespace::View, self.view@)),
            }),
    {
        match id {
            Some(id) => Step::ObtainReadHandle(self, id),
            None => Step::Failed(
                Error::NameResolutionFailure { namespace: Namespace::View, name: self.view },
            ),
        }
    }

    /// Takes the engine's answer to `Step::Lookup`, and ends the execution:
    /// with the rows that matched, or, where the lookup failed, with the
    /// report that the view's handle is lost.
    pub fn finished<Rows>(self, rows: Option<Rows>) -> (r: Result<Rows, Error>)
        ensures
            match rows {
                Some(rows) => r == Ok::<Rows, Error>(rows),
                None => r is Err && r->Err_0@ == lost(Namespace::View, self.view@),
            },
    {
        match rows {
            Some(rows) => Ok(rows),
            None => Err(Error::HandleUnavailable { namespace: Namespace::View, name: self.view }),
        }
    }
}

} // verus!
