use pan::recipe::ActivationResult;
use pan::recipe::Node;
use pan::recipe::Recipe;
use pan::registry::Registry;
use pan::table::NameTable;
use pan::error::Error;

#[test]
fn table_starts_empty() {
    let table: NameTable<u32> = NameTable::new();
    assert!(!table.contains("a"));
    assert!(table.get("a").is_none());
}

#[test]
fn table_returns_what_was_stored() {
    let mut table: NameTable<u32> = NameTable::new();
    table.insert("a".to_string(), 1);
    table.insert("b".to_string(), 2);
    assert_eq!(table.get("a"), Some(&1));
    assert_eq!(table.get("b"), Some(&2));
    assert_eq!(table.get("c"), None);
    assert!(table.contains("b"));
    assert!(!table.contains(""));
}

#[test]
fn table_insert_replaces() {
    let mut table: NameTable<u32> = NameTable::new();
    table.insert("a".to_string(), 1);
    table.insert("b".to_string(), 2);
    table.insert("a".to_string(), 3);
    assert_eq!(table.get("a"), Some(&3));
    assert_eq!(table.get("b"), Some(&2));
}

#[test]
fn table_hands_out_the_stored_value_for_change() {
    let mut table: NameTable<Vec<u32>> = NameTable::new();
    table.insert("a".to_string(), vec![1]);
    table.insert("b".to_string(), vec![2]);
    table.get_mut("b").unwrap().push(5);
    assert_eq!(table.get("b"), Some(&vec![2, 5]));
    assert_eq!(table.get("a"), Some(&vec![1]));
    assert!(table.get_mut("c").is_none());
}

#[test]
fn registry_binds_and_looks_up() {
    let mut registry = Registry::new();
    assert!(!registry.contains("q1"));
    assert_eq!(registry.lookup("q1"), None);
    registry.register("q1", "view1", 2);
    registry.register("q2", "view2", 0);
    assert!(registry.contains("q1"));
    assert_eq!(registry.lookup("q1"), Some(("view1".to_string(), 2)));
    assert_eq!(registry.lookup("q2"), Some(("view2".to_string(), 0)));
    assert_eq!(registry.lookup("view1"), None);
}

#[test]
fn registry_register_overwrites() {
    let mut registry = Registry::new();
    registry.register("q1", "view1", 2);
    registry.register("q1", "other", 1);
    assert_eq!(registry.lookup("q1"), Some(("other".to_string(), 1)));
}

fn created(name: &str) -> ActivationResult {
    ActivationResult { new_nodes: vec![Node { name: name.to_string(), id: 7 }] }
}

#[test]
fn recipe_grows_by_the_statement_on_success() {
    let mut recipe = Recipe::new();
    assert_eq!(recipe.len(), 0);
    let result = recipe.extend("CREATE TABLE a (x int);".to_string(), Ok(created("a"))).unwrap();
    assert_eq!(result.new_nodes.len(), 1);
    assert_eq!(result.new_nodes[0].name, "a");
    assert_eq!(result.new_nodes[0].id, 7);
    recipe.extend("CREATE TABLE b (y int);".to_string(), Ok(created("b"))).unwrap();
    assert_eq!(recipe.len(), 2);
    assert_eq!(recipe.statement(0), "CREATE TABLE a (x int);");
    assert_eq!(recipe.statement(1), "CREATE TABLE b (y int);");
}

#[test]
fn recipe_is_unchanged_on_failure() {
    let mut recipe = Recipe::new();
    recipe.extend("CREATE TABLE a (x int);".to_string(), Ok(created("a"))).unwrap();
    let error = recipe.extend("nonsense".to_string(), Err("no such thing".to_string())).unwrap_err();
    assert!(matches!(
        error,
        Error::RecipeExtensionFailure { description } if description == "no such thing"
    ));
    assert_eq!(recipe.len(), 1);
    assert_eq!(recipe.statement(0), "CREATE TABLE a (x int);");
}
