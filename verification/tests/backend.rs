use pan::backend::Backend;
use pan::dispatch::handle;
use pan::dispatch::handle_query;
use pan::error::Error;
use pan::error::Namespace;
use pan::error::Unsupported;
use pan::predicate::Predicate;
use pan::protocol::Execution;
use pan::protocol::Insertion;
use pan::protocol::Migration;
use pan::protocol::PutOutcome;
use pan::protocol::Registration;
use pan::protocol::Step;
use pan::recipe::ActivationResult;
use pan::recipe::Node;
use pan::value::Value;

fn created(name: &str, id: usize) -> ActivationResult {
    ActivationResult { new_nodes: vec![Node { name: name.to_string(), id }] }
}

fn nothing_new() -> ActivationResult {
    ActivationResult { new_nodes: Vec::new() }
}

fn bound(field: &str) -> Predicate {
    Predicate::Comparison(
        Box::new(Predicate::Field(field.to_string())),
        Box::new(Predicate::Placeholder),
    )
}

fn registration(name: &str, where_clause: Option<Predicate>) -> Migration {
    Migration {
        statement: format!("QUERY {}: SELECT 1;", name),
        registration: Some(Registration { name: name.to_string(), where_clause }),
    }
}

#[test]
fn new_backend_is_blank() {
    let mut backend: Backend<u8, u8> = Backend::new();
    assert_eq!(backend.recipe().len(), 0);
    assert!(!backend.query_exists("q1"));
    assert!(backend.write_handle("t").is_none());
    assert!(backend.read_handle("v").is_none());
}

#[test]
fn migrate_asks_for_activation_and_changes_nothing() {
    let backend: Backend<u8, u8> = Backend::new();
    match backend.migrate("CREATE TABLE t (id int);") {
        Step::Activate(migration) => {
            assert_eq!(migration.statement, "CREATE TABLE t (id int);");
            assert!(migration.registration.is_none());
        }
        other => panic!("{:?}", other),
    }
    assert_eq!(backend.recipe().len(), 0);
}

#[test]
fn activated_migration_joins_the_recipe() {
    let mut backend: Backend<u8, u8> = Backend::new();
    let Step::Activate(migration) = backend.migrate("CREATE TABLE t (id int);") else {
        panic!()
    };
    let result = backend.activated(migration, Ok(created("t", 3))).unwrap();
    assert_eq!(result.new_nodes[0].name, "t");
    assert_eq!(result.new_nodes[0].id, 3);
    assert_eq!(backend.recipe().len(), 1);
    assert_eq!(backend.recipe().statement(0), "CREATE TABLE t (id int);");
}

#[test]
fn refused_migration_leaves_the_recipe_alone() {
    let mut backend: Backend<u8, u8> = Backend::new();
    let Step::Activate(first) = backend.migrate("CREATE TABLE t (id int);") else { panic!() };
    backend.activated(first, Ok(created("t", 3))).unwrap();
    let Step::Activate(second) = backend.migrate("CREATE TABLE t (id int);") else { panic!() };
    let error = backend.activated(second, Err("table exists".to_string())).unwrap_err();
    assert!(matches!(
        error,
        Error::RecipeExtensionFailure { description } if description == "table exists"
    ));
    assert_eq!(backend.recipe().len(), 1);
    assert_eq!(backend.recipe().statement(0), "CREATE TABLE t (id int);");
}

#[test]
fn refused_registration_registers_nothing() {
    let mut backend: Backend<u8, u8> = Backend::new();
    let error = backend
        .activated(registration("q1", Some(bound("a"))), Err("no".to_string()))
        .unwrap_err();
    assert!(matches!(error, Error::RecipeExtensionFailure { .. }));
    assert!(!backend.query_exists("q1"));
    assert_eq!(backend.recipe().len(), 0);
}

#[test]
fn registration_takes_the_view_that_was_created() {
    let mut backend: Backend<u8, u8> = Backend::new();
    let both = Predicate::Logical(Box::new(bound("a")), Box::new(bound("b")));
    backend.activated(registration("q2", Some(both)), Ok(created("q2_view", 9))).unwrap();
    assert!(backend.query_exists("q2"));
    match backend.execute_query("q2", vec![Value::Integer(1), Value::Integer(2)]) {
        Step::Failed(Error::UnsupportedStatement { reason }) => {
            assert_eq!(reason, Unsupported::ParameterCount)
        }
        other => panic!("{:?}", other),
    }
    backend.activated(registration("q1", Some(bound("a"))), Ok(created("q1_view", 10))).unwrap();
    match backend.execute_query("q1", vec![Value::Integer(1)]) {
        Step::ResolveOutput(execution) => assert_eq!(execution.view, "q1_view"),
        other => panic!("{:?}", other),
    }
}

#[test]
fn registration_falls_back_to_the_query_name() {
    let mut backend: Backend<u8, u8> = Backend::new();
    backend.activated(registration("q1", Some(bound("a"))), Ok(nothing_new())).unwrap();
    match backend.execute_query("q1", vec![Value::Integer(1)]) {
        Step::ResolveOutput(execution) => assert_eq!(execution.view, "q1"),
        other => panic!("{:?}", other),
    }
}

#[test]
fn registration_without_filter_has_no_parameters() {
    let mut backend: Backend<u8, u8> = Backend::new();
    backend.activated(registration("all", None), Ok(created("all", 1))).unwrap();
    match backend.execute_query("all", vec![]) {
        Step::Failed(Error::UnsupportedStatement { reason }) => {
            assert_eq!(reason, Unsupported::ParameterCount)
        }
        other => panic!("{:?}", other),
    }
    match backend.execute_query("all", vec![Value::Integer(1)]) {
        Step::Failed(Error::QueryArityMismatch { expected, got }) => {
            assert_eq!((expected, got), (0, 1))
        }
        other => panic!("{:?}", other),
    }
}

#[test]
fn registration_does_not_replace_a_bound_name() {
    let mut backend: Backend<u8, u8> = Backend::new();
    backend.add_query("q1", "old", 1);
    backend.activated(registration("q1", None), Ok(created("new", 1))).unwrap();
    match backend.execute_query("q1", vec![Value::Integer(1)]) {
        Step::ResolveOutput(execution) => assert_eq!(execution.view, "old"),
        other => panic!("{:?}", other),
    }
    assert_eq!(backend.recipe().len(), 1);
}

#[test]
fn unsupported_filter_is_reported_after_activation() {
    let mut backend: Backend<u8, u8> = Backend::new();
    let error = backend
        .activated(registration("q1", Some(Predicate::Other)), Ok(created("q1", 1)))
        .unwrap_err();
    assert!(matches!(error, Error::UnsupportedStatement { reason: Unsupported::Predicate }));
    assert!(!backend.query_exists("q1"));
    assert_eq!(backend.recipe().len(), 1);
}

#[test]
fn add_query_overwrites() {
    let mut backend: Backend<u8, u8> = Backend::new();
    backend.add_query("q1", "v1", 1);
    backend.add_query("q1", "v2", 1);
    assert!(backend.query_exists("q1"));
    assert!(!backend.query_exists("v1"));
    match backend.execute_query("q1", vec![Value::Integer(1)]) {
        Step::ResolveOutput(execution) => assert_eq!(execution.view, "v2"),
        other => panic!("{:?}", other),
    }
}

#[test]
fn second_registration_of_a_name_is_a_duplicate() {
    let mut backend: Backend<u8, u8> = Backend::new();
    let Step::Activate(migration) = handle_query(&backend, "q1: SELECT * FROM t WHERE id = ?;")
    else {
        panic!()
    };
    backend.activated(migration, Ok(created("q1", 4))).unwrap();
    match handle_query(&backend, "q1: SELECT * FROM t WHERE id = ?;") {
        Step::Failed(Error::DuplicateQueryName { name }) => assert_eq!(name, "q1"),
        other => panic!("{:?}", other),
    }
    assert_eq!(backend.recipe().len(), 1);
}

#[test]
fn two_parameters_and_one_argument_mismatch() {
    let mut backend: Backend<u8, u8> = Backend::new();
    let Step::Activate(migration) =
        handle_query(&backend, "q2: SELECT * FROM t WHERE a = ? AND b = ?;")
    else {
        panic!()
    };
    backend.activated(migration, Ok(created("q2", 4))).unwrap();
    match handle(&backend, "EXECUTE q2(1);") {
        Step::Failed(Error::QueryArityMismatch { expected, got }) => {
            assert_eq!((expected, got), (2, 1))
        }
        other => panic!("{:?}", other),
    }
}

#[test]
fn one_parameter_and_one_argument_look_up() {
    let mut backend: Backend<u8, u8> = Backend::new();
    backend.add_query("q1", "v", 1);
    match backend.execute_query("q1", vec![Value::Text("k".to_string())]) {
        Step::ResolveOutput(Execution { view, key }) => {
            assert_eq!(view, "v");
            assert!(matches!(key, Value::Text(s) if s == "k"));
        }
        other => panic!("{:?}", other),
    }
}

#[test]
fn arity_is_checked_before_the_single_parameter_rule() {
    let mut backend: Backend<u8, u8> = Backend::new();
    backend.add_query("q1", "v", 1);
    match backend.execute_query("q1", vec![Value::Integer(1), Value::Integer(2)]) {
        Step::Failed(Error::QueryArityMismatch { expected, got }) => {
            assert_eq!((expected, got), (1, 2))
        }
        other => panic!("{:?}", other),
    }
    match backend.execute_query("q1", vec![]) {
        Step::Failed(Error::QueryArityMismatch { expected, got }) => {
            assert_eq!((expected, got), (1, 0))
        }
        other => panic!("{:?}", other),
    }
}

#[test]
fn unknown_query_is_reported_whatever_the_arguments() {
    let backend: Backend<u8, u8> = Backend::new();
    for params in [vec![], vec![Value::Integer(1)], vec![Value::Null, Value::Null]] {
        match backend.execute_query("nope", params) {
            Step::Failed(Error::NameResolutionFailure { namespace, name }) => {
                assert_eq!(namespace, Namespace::Query);
                assert_eq!(name, "nope");
            }
            other => panic!("{:?}", other),
        }
    }
}

#[test]
fn write_handle_is_fetched_once() {
    let mut backend: Backend<String, u8> = Backend::new();
    let Step::ResolveInput(insertion) = backend.put("t", vec![Value::Integer(1)]) else {
        panic!()
    };
    let Step::ObtainWriteHandle(insertion, id) = insertion.resolved(Some(5)) else { panic!() };
    assert_eq!(id, 5);
    let Step::Put(insertion) = backend.write_handle_obtained(insertion, Some("first".to_string()))
    else {
        panic!()
    };
    assert_eq!(insertion.table, "t");
    assert_eq!(backend.write_handle("t").unwrap(), "first");
    assert_eq!(backend.write_handle("t").unwrap(), "first");

    assert!(matches!(backend.put("t", vec![Value::Integer(2)]), Step::Put(_)));
    assert!(matches!(backend.put("t", vec![Value::Integer(3)]), Step::Put(_)));
    assert!(matches!(backend.put("u", vec![Value::Integer(3)]), Step::ResolveInput(_)));
}

#[test]
fn cached_write_handle_is_not_replaced() {
    let mut backend: Backend<String, u8> = Backend::new();
    let first = Insertion { table: "t".to_string(), row: vec![] };
    let second = Insertion { table: "t".to_string(), row: vec![] };
    backend.write_handle_obtained(first, Some("first".to_string()));
    let step = backend.write_handle_obtained(second, Some("second".to_string()));
    assert!(matches!(step, Step::Put(_)));
    assert_eq!(backend.write_handle("t").unwrap(), "first");
}

#[test]
fn write_handle_can_be_used_mutably() {
    let mut backend: Backend<Vec<u8>, u8> = Backend::new();
    backend.write_handle_obtained(Insertion { table: "t".to_string(), row: vec![] }, Some(vec![]));
    backend.write_handle("t").unwrap().push(7);
    backend.write_handle("t").unwrap().push(8);
    assert_eq!(backend.write_handle("t").unwrap(), &vec![7, 8]);
}

#[test]
fn read_handle_is_fetched_once() {
    let mut backend: Backend<u8, String> = Backend::new();
    backend.add_query("q1", "v", 1);
    backend.add_query("q2", "v", 1);
    let Step::ResolveOutput(execution) = backend.execute_query("q1", vec![Value::Integer(1)])
    else {
        panic!()
    };
    let Step::ObtainReadHandle(execution, id) = execution.resolved(Some(8)) else { panic!() };
    assert_eq!(id, 8);
    let step = backend.read_handle_obtained(execution, Some("getter".to_string()));
    assert!(matches!(step, Step::Lookup(_)));
    assert_eq!(backend.read_handle("v").unwrap(), "getter");
    assert!(matches!(backend.execute_query("q1", vec![Value::Integer(2)]), Step::Lookup(_)));
    assert!(matches!(backend.execute_query("q2", vec![Value::Integer(2)]), Step::Lookup(_)));
    let again = Execution { view: "v".to_string(), key: Value::Null };
    backend.read_handle_obtained(again, Some("other".to_string()));
    assert_eq!(backend.read_handle("v").unwrap(), "getter");
}

#[test]
fn unresolved_table_is_reported() {
    let insertion = Insertion { table: "t".to_string(), row: vec![] };
    match insertion.resolved(None) {
        Step::Failed(Error::NameResolutionFailure { namespace, name }) => {
            assert_eq!(namespace, Namespace::Table);
            assert_eq!(name, "t");
        }
        other => panic!("{:?}", other),
    }
}

#[test]
fn unresolved_view_is_reported() {
    let execution = Execution { view: "v".to_string(), key: Value::Null };
    match execution.resolved(None) {
        Step::Failed(Error::NameResolutionFailure { namespace, name }) => {
            assert_eq!(namespace, Namespace::View);
            assert_eq!(name, "v");
        }
        other => panic!("{:?}", other),
    }
}

#[test]
fn missing_handle_is_reported_and_not_cached() {
    let mut backend: Backend<u8, u8> = Backend::new();
    let insertion = Insertion { table: "t".to_string(), row: vec![] };
    match backend.write_handle_obtained(insertion, None) {
        Step::Failed(Error::HandleUnavailable { namespace, name }) => {
            assert_eq!(namespace, Namespace::Table);
            assert_eq!(name, "t");
        }
        other => panic!("{:?}", other),
    }
    assert!(backend.write_handle("t").is_none());
    assert!(matches!(backend.put("t", vec![]), Step::ResolveInput(_)));

    let execution = Execution { view: "v".to_string(), key: Value::Null };
    match backend.read_handle_obtained(execution, None) {
        Step::Failed(Error::HandleUnavailable { namespace, name }) => {
            assert_eq!(namespace, Namespace::View);
            assert_eq!(name, "v");
        }
        other => panic!("{:?}", other),
    }
    assert!(backend.read_handle("v").is_none());
}

#[test]
fn put_outcome_ends_the_insert() {
    let insertion = Insertion { table: "t".to_string(), row: vec![Value::Integer(1)] };
    assert!(insertion.submitted(PutOutcome::Stored).is_ok());
    let insertion = Insertion { table: "t".to_string(), row: vec![Value::Integer(1)] };
    match insertion.submitted(PutOutcome::WrongColumnCount { expected: 2, got: 1 }) {
        Err(Error::ColumnArityMismatch { expected, got }) => assert_eq!((expected, got), (2, 1)),
        other => panic!("{:?}", other),
    }
}

#[test]
fn lookup_outcome_ends_the_execution() {
    let execution = Execution { view: "v".to_string(), key: Value::Integer(1) };
    assert_eq!(execution.finished(Some(vec![1, 2, 3])).unwrap(), vec![1, 2, 3]);
    let execution = Execution { view: "v".to_string(), key: Value::Integer(1) };
    match execution.finished::<Vec<u8>>(None) {
        Err(Error::HandleUnavailable { namespace, name }) => {
            assert_eq!(namespace, Namespace::View);
            assert_eq!(name, "v");
        }
        other => panic!("{:?}", other),
    }
}
