//! The backend: the recipe, the handle caches and the query registry, and the
//! operations on them.

use vstd::prelude::*;
use crate::error::Error;
use crate::error::ErrorView;
use crate::error::Namespace;
use crate::error::Unsupported;
use crate::error::unsupported;
use crate::predicate::extract_query_parameters;
use crate::protocol::Execution;
use crate::protocol::ExecutionView;
use crate::protocol::Insertion;
use crate::protocol::InsertionView;
use crate::protocol::Migration;
use crate::protocol::MigrationView;
use crate::protocol::RegistrationView;
use crate::protocol::Step;
use crate::protocol::StepView;
use crate::protocol::lost;
use crate::protocol::unresolved;
use crate::recipe::ActivationResult;
use crate::recipe::Recipe;
use crate::recipe::extended;
use crate::registry::Registry;
use crate::table::NameTable;
use crate::value::Value;
use crate::value::ValueView;
use crate::value::values;

verus! {

/// The state that the layer keeps between statements. `W` is the engine's
/// write handle, `R` its read handle.
pub struct Backend<W, R> {
    recipe: Recipe,
    mutators: NameTable<W>,
    getters: NameTable<R>,
    queries: Registry,
}

/// The backend as a mathematical value.
pub struct BackendView<W, R> {
    /// The statements of the active recipe, in the order of their activation.
    pub recipe: Seq<Seq<char>>,
    /// The cached write handles, by table name.
    pub writers: Map<Seq<char>, W>,
    /// The cached read handles, by view name.
    pub readers: Map<Seq<char>, R>,
    /// The registered queries: for each name the target view and the number
    /// of parameters.
    pub queries: Map<Seq<char>, (Seq<char>, nat)>,
}

impl<W, R> View for Backend<W, R> {
    type V = BackendView<W, R>;

    closed spec fn view(&self) -> BackendView<W, R> {
        BackendView {
            recipe: self.recipe@,
            writers: self.mutators@,
            readers: self.getters@,
            queries: self.queries@,
        }
    }
}

/// A cache after the engine has handed out a handle for the name: the handle
/// is stored, unless the name has one already, which then stays.
pub open spec fn memoized<H>(cache: Map<Seq<char>, H>, name: Seq<char>, handle: H) -> Map<
    Seq<char>,
    H,
> {
    if cache.contains_key(name) {
        cache
    } else {
        cache.insert(name, handle)
    }
}

/// The request that a plain migration starts with.
pub open spec fn migration_step(line: Seq<char>) -> StepView {
    StepView::Activate(MigrationView { statement: line, registration: None })
}

/// The first step of an insert: to submit the row where the table's write
/// handle is cached, to resolve the table's name where it is not.
pub open spec fn insertion_step<W, R>(state: BackendView<W, R>, table: Seq<char>, row: Seq<ValueView>)
    -> StepView {
    let insertion = InsertionView { table, row };
    if state.writers.contains_key(table) {
        StepView::Put(insertion)
    } else {
        StepView::ResolveInput(insertion)
    }
}

/// The first step of a named execution. The name has to be registered, the
/// number of arguments has to be the number of the query's parameters, and
/// that number has to be one. The lookup goes to the query's target view:
/// at once where its read handle is cached, after resolving its name where
/// it is not.
pub open spec fn execution_step<W, R>(state: BackendView<W, R>, name: Seq<char>, params: Seq<ValueView>)
    -> StepView {
    if !state.queries.contains_key(name) {
        StepView::Failed(unresolved(Namespace::Query, name))
    } else {
        let (target, arity) = state.queries[name];
        if arity != params.len() {
            StepView::Failed(ErrorView::QueryArityMismatch { expected: arity, got: params.len() })
        } else if arity != 1 {
            StepView::Failed(unsupported(Unsupported::ParameterCount))
        } else {
            let execution = ExecutionView { view: target, key: params[0] };
            if state.readers.contains_key(target) {
                StepView::Lookup(execution)
            } else {
                StepView::ResolveOutput(execution)
            }
        }
    }
}

impl RegistrationView {
    /// Whether the query's parameters can be told: it has no filter, or one
    /// that parameter extraction supports.
    pub open spec fn extractable(self) -> bool {
        self.where_clause matches Some(predicate) ==> predicate.supported()
    }

    /// The number of the query's parameters.
    pub open spec fn arity(self) -> nat {
        match self.where_clause {
            Some(predicate) => predicate.parameters().len(),
            None => 0,
        }
    }

    /// The view that answers the query: the one that the activation created,
    /// or, where it created none, the view of the query's own name.
    pub open spec fn target(self, result: ActivationResult) -> Seq<char> {
        if result.new_nodes@.len() == 1 {
            result.new_nodes@[0].name@
        } else {
            self.name
        }
    }
}

/// The registry after the engine has answered a migration. A migration that
/// was activated and carries a query whose parameters can be told registers
/// the query, unless its name is bound already.
pub open spec fn registered(
    queries: Map<Seq<char>, (Seq<char>, nat)>,
    registration: Option<RegistrationView>,
    outcome: Result<ActivationResult, String>,
) -> Map<Seq<char>, (Seq<char>, nat)> {
    match (registration, outcome) {
        (Some(query), Ok(result)) => if query.extractable() && !queries.contains_key(query.name) {
            queries.insert(query.name, (query.target(result), query.arity()))
        } else {
            queries
        },
        _ => queries,
    }
}

impl<W, R> Backend<W, R> {
    /// A backend over the blank recipe, with empty caches and an empty registry.
    pub fn new() -> (backend: Self)
        ensures
            backend@ == (BackendView::<W, R> {
                recipe: Seq::empty(),
                writers: Map::empty(),
                readers: Map::empty(),
                queries: Map::empty(),
            }),
    {
        Backend {
            recipe: Recipe::new(),
            mutators: NameTable::new(),
            getters: NameTable::new(),
            queries: Registry::new(),
        }
    }

    /// The active recipe.
    pub fn recipe(&self) -> (recipe: &Recipe)
        ensures
            recipe@ == self@.recipe,
    {
        &self.recipe
    }

    /// Starts the extension of the recipe by a statement: the engine is to
    /// activate it. Nothing changes until `activated` takes the answer.
    pub fn migrate(&self, line: &str) -> (step: Step)
        ensures
            step@ == migration_step(line@),
    {
        Step::Activate(Migration { statement: String::from_str(line), registration: None })
    }

    /// Takes the engine's answer to `Step::Activate`, and ends the migration.
    ///
    /// Where the engine refused, nothing changes, and the refusal is reported
    /// with the engine's description. Where it activated the statement, the
    /// statement joins the recipe. A migration that carries a query then
    /// registers it under its name, with the view that the activation created
    /// and the number of parameters that its filter binds; a filter that
    /// parameter extraction does not support is reported, and leaves the
    /// query unregistered.
    pub fn activated(&mut self, migration: Migration, outcome: Result<ActivationResult, String>) -> (r:
        Result<ActivationResult, Error>)
        requires
            migration.registration is Some && outcome is Ok ==> outcome->Ok_0.new_nodes@.len() <= 1,
        ensures
            final(self)@ == (BackendView {
                recipe: extended(old(self)@.recipe, migration.statement@, outcome),
                queries: registered(old(self)@.queries, migration@.registration, outcome),
                ..old(self)@
            }),
            outcome is Err ==> r is Err && r->Err_0@ == (ErrorView::RecipeExtensionFailure {
                description: outcome->Err_0@,
            }),
            outcome is Ok && migration@.registration is Some
                && !migration@.registration->0.extractable() ==> r is Err && r->Err_0@
                == unsupported(Unsupported::Predicate),
            outcome is Ok && (migration@.registration matches Some(query)
                ==> query.extractable()) ==> r == Ok::<ActivationResult, Error>(outcome->Ok_0),
    {
        let Migration { statement, registration } = migration;
        let result = match self.recipe.extend(statement, outcome) {
            Ok(result) => result,
            Err(error) => {
                return Err(error);
            },
        };
        if let Some(query) = registration {
            let arity = match query.where_clause {
                Some(predicate) => match extract_query_parameters(predicate) {
                    Ok(params) => params.len(),
                    Err(error) => {
                        return Err(error);
                    },
                },
                None => 0,
            };
            if !self.queries.contains(query.name.as_str()) {
                if result.new_nodes.len() == 1 {
                    self.queries.register(
                        query.name.as_str(),
                        result.new_nodes[0].name.as_str(),
                        arity,
                    );
                } else {
                    self.queries.register(query.name.as_str(), query.name.as_str(), arity);
                }
            }
        }
        Ok(result)
    }

    /// Starts an insert of a row into a table.
    pub fn put(&self, kind: &str, data: Vec<Value>) -> (step: Step)
        ensures
            step@ == insertion_step(self@, kind@, values(data@)),
    {
        let insertion = Insertion { table: String::from_str(kind), row: data };
        if self.mutators.contains(kind) {
            Step::Put(insertion)
        } else {
            Step::ResolveInput(insertion)
        }
    }

    /// Takes the engine's answer to `Step::ObtainWriteHandle`: the handle, or
    /// nothing where the engine has none for the table. A handle is cached
    /// under the table's name, unless the name has one already; the row is
    /// next submitted through the cached handle.
    pub fn write_handle_obtained(&mut self, insertion: Insertion, handle: Option<W>) -> (step: Step)
        ensures
            final(self)@ == (BackendView {
                writers: match handle {
                    Some(handle) => memoized(old(self)@.writers, insertion.table@, handle),
                    None => old(self)@.writers,
                },
                ..old(self)@
            }),
            step@ == (match handle {
                Some(_) => StepView::Put(insertion@),
                None => StepView::Failed(lost(Namespace::Table, insertion.table@)),
            }),
    {
        match handle {
            Some(handle) => {
                if !self.mutators.contains(insertion.table.as_str()) {
                    self.mutators.insert(insertion.table.clone(), handle);
                }
                Step::Put(insertion)
            },
            None => Step::Failed(
                Error::HandleUnavailable { namespace: Namespace::Table, name: insertion.table },
            ),
        }
    }

    /// The cached write handle of a table, for the caller to submit a row through.
    pub fn write_handle(&mut self, table: &str) -> (found: Option<&mut W>)
        ensures
            match found {
                Some(handle) => old(self)@.writers.contains_key(table@) && *handle == old(
                    self,
                )@.writers[table@] && final(self)@ == (BackendView {
                    writers: old(self)@.writers.insert(table@, *final(handle)),
                    ..old(self)@
                }),
                None => !old(self)@.writers.contains_key(table@) && final(self)@ == old(self)@,
            },
    {
        self.mutators.get_mut(table)
    }

    /// Registers a query: binds the name to the view that answers it and to
    /// the number of its parameters. A binding that the name had is replaced.
    pub fn add_query(&mut self, name: &str, kind: &str, num_params: usize)
        ensures
            final(self)@ == (BackendView {
                queries: old(self)@.queries.insert(name@, (kind@, num_params as nat)),
                ..old(self)@
            }),
    {
        self.queries.register(name, kind, num_params);
    }

    /// Starts the execution of a named query with the given arguments.
    pub fn execute_query(&self, name: &str, params: Vec<Value>) -> (step: Step)
        ensures
            step@ == execution_step(self@, name@, values(params@)),
    {
        let (target, arity) = match self.queries.lookup(name) {
            Some(found) => found,
            None => {
                return Step::Failed(
                    Error::NameResolutionFailure {
                        namespace: Namespace::Query,
                        name: String::from_str(name),
                    },
                );
            },
        };
        if arity != params.len() {
            return Step::Failed(Error::QueryArityMismatch { expected: arity, got: params.len() });
        }
        if arity != 1 {
            return Step::Failed(
                Error::UnsupportedStatement { reason: Unsupported::ParameterCount },
            );
        }
        let mut params = params;
        let key = params.remove(0);
        let cached = self.getters.contains(target.as_str());
        let execution = Execution { view: target, key };
        if cached {
            Step::Lookup(execution)
        } else {
            Step::ResolveOutput(execution)
        }
    }

    /// Takes the engine's answer to `Step::ObtainReadHandle`: the handle, or
    /// nothing where the engine has none for the view. A handle is cached
    /// under the view's name, unless the name has one already; the key is next
    /// looked up through the cached handle.
    pub fn read_handle_obtained(&mut self, execution: Execution, handle: Option<R>) -> (step: Step)
        ensures
            final(self)@ == (BackendView {
                readers: match handle {
                    Some(handle) => memoized(old(self)@.readers, execution.view@, handle),
                    None => old(self)@.readers,
                },
                ..old(self)@
            }),
            step@ == (match handle {
                Some(_) => StepView::Lookup(execution@),
                None => StepView::Failed(lost(Namespace::View, execution.view@)),
            }),
    {
        match handle {
            Some(handle) => {
                if !self.getters.contains(execution.view.as_str()) {
                    self.getters.insert(execution.view.clone(), handle);
                }
                Step::Lookup(execution)
            },
            None => Step::Failed(
                Error::HandleUnavailable { namespace: Namespace::View, name: execution.view },
            ),
        }
    }

    /// The cached read handle of a view, for the caller to look a key up through.
    pub fn read_handle(&mut self, view: &str) -> (found: Option<&mut R>)
        ensures
            match found {
                Some(handle) => old(self)@.readers.contains_key(view@) && *handle == old(
                    self,
                )@.readers[view@] && final(self)@ == (BackendView {
                    readers: old(self)@.readers.insert(view@, *final(handle)),
                    ..old(self)@
                }),
                None => !old(self)@.readers.contains_key(view@) && final(self)@ == old(self)@,
            },
    {
        self.getters.get_mut(view)
    }

    /// Whether a query is registered under the name.
    pub fn query_exists(&self, name: &str) -> (found: bool)
        ensures
            found == self@.queries.contains_key(name@),
    {
        self.queries.contains(name)
    }
}

/// A handle is fetched once. After the engine has handed out a handle for a
/// name, the name has a cached handle, and a second handle for the same name
/// changes nothing: the cache keeps the handle that it had.
pub proof fn law_handle_is_memoized<H>(cache: Map<Seq<char>, H>, name: Seq<char>, first: H, second: H)
    ensures
        memoized(cache, name, first).contains_key(name),
        memoized(memoized(cache, name, first), name, second) == memoized(cache, name, first),
        !cache.contains_key(name) ==> memoized(cache, name, first)[name] == first,
        forall|other: Seq<char>| other != name ==> (#[trigger] memoized(
            cache,
            name,
            first,
        ).contains_key(other) <==> cache.contains_key(other)),
{
}

/// After a write handle has come for a table, every insert into that table
/// starts with submitting its row: the engine is not asked to resolve the
/// name again.
pub proof fn law_insert_reuses_handle<W, R>(
    state: BackendView<W, R>,
    table: Seq<char>,
    handle: W,
    row: Seq<ValueView>,
)
    ensures
        insertion_step(
            BackendView { writers: memoized(state.writers, table, handle), ..state },
            table,
            row,
        ) == StepView::Put(InsertionView { table, row }),
{
}

/// After a read handle has come for a view, every execution of a
/// one-parameter query on that view starts with the lookup: the engine is not
/// asked to resolve the name again.
pub proof fn law_execute_reuses_handle<W, R>(
    state: BackendView<W, R>,
    name: Seq<char>,
    handle: R,
    params: Seq<ValueView>,
)
    requires
        state.queries.contains_key(name),
        state.queries[name].1 == 1,
        params.len() == 1,
    ensures
        execution_step(
            BackendView {
                readers: memoized(state.readers, state.queries[name].0, handle),
                ..state
            },
            name,
            params,
        ) == StepView::Lookup(ExecutionView { view: state.queries[name].0, key: params[0] }),
{
}

/// The number of arguments has to be the number of parameters. An execution
/// of a registered query with another number of arguments fails with both
/// numbers, whatever else the backend holds; with the right number, one, it
/// goes to the query's target view with the argument as the key.
pub proof fn law_arity_is_enforced<W, R>(
    state: BackendView<W, R>,
    name: Seq<char>,
    params: Seq<ValueView>,
)
    requires
        state.queries.contains_key(name),
    ensures
        state.queries[name].1 != params.len() ==> execution_step(state, name, params)
            == StepView::Failed(
            ErrorView::QueryArityMismatch { expected: state.queries[name].1, got: params.len() },
        ),
        state.queries[name].1 == params.len() && params.len() == 1 ==> {
            let execution = ExecutionView { view: state.queries[name].0, key: params[0] };
            execution_step(state, name, params) == (if state.readers.contains_key(
                state.queries[name].0,
            ) {
                StepView::Lookup(execution)
            } else {
                StepView::ResolveOutput(execution)
            })
        },
{
}

/// A migration changes the recipe all or nothing: activated, the recipe is
/// the recipe of before with the statement appended; refused, it is the
/// recipe of before.
pub proof fn law_extension_is_atomic(
    recipe: Seq<Seq<char>>,
    statement: Seq<char>,
    outcome: Result<ActivationResult, String>,
)
    ensures
        outcome is Ok ==> extended(recipe, statement, outcome) == recipe + seq![statement],
        outcome is Err ==> extended(recipe, statement, outcome) == recipe,
{
}

} // verus!
