use module_imports::registry::ModuleImports;
use module_imports::specifier::ImportSpecifier;
use module_imports::statements::ImportStatement;

fn make_specifier(imported: &str, local: Option<&str>, symbol_id: u32) -> ImportSpecifier {
    ImportSpecifier::new(imported.to_string(), local.map(|l| l.to_string()), symbol_id)
}

#[test]
fn named_imports_for_one_source_merge() {
    let mut registry = ModuleImports::new();
    registry.add_import("lib".to_string(), make_specifier("foo", None, 1));
    registry.add_import("lib".to_string(), make_specifier("bar", None, 2));
    let stmts = registry.get_import_statements(None);
    assert_eq!(stmts.len(), 1);
    match &stmts[0] {
        ImportStatement::NamedImport { source, bindings } => {
            assert_eq!(source, "lib");
            assert_eq!(bindings.len(), 2);
            assert_eq!(bindings[0].imported, "foo");
            assert_eq!(bindings[0].symbol_id, 1);
            assert_eq!(bindings[1].imported, "bar");
            assert_eq!(bindings[1].symbol_id, 2);
        }
        _ => panic!("expected a named import"),
    }
}

#[test]
fn default_imports_never_merge() {
    let mut registry = ModuleImports::new();
    registry.add_default("lib".to_string(), make_specifier("foo", None, 1));
    registry.add_default("lib".to_string(), make_specifier("bar", None, 2));
    let stmts = registry.get_import_statements(None);
    assert_eq!(stmts.len(), 2);
    match &stmts[0] {
        ImportStatement::DefaultImport { source, bindings } => {
            assert_eq!(source, "lib");
            assert_eq!(bindings.len(), 1);
            assert_eq!(bindings[0].local, "foo");
            assert_eq!(bindings[0].symbol_id, 1);
        }
        _ => panic!("expected a default import"),
    }
    match &stmts[1] {
        ImportStatement::DefaultImport { source, bindings } => {
            assert_eq!(source, "lib");
            assert_eq!(bindings.len(), 1);
            assert_eq!(bindings[0].local, "bar");
            assert_eq!(bindings[0].symbol_id, 2);
        }
        _ => panic!("expected a default import"),
    }
}

#[test]
fn requires_for_one_source_collapse_to_the_first() {
    let mut registry = ModuleImports::new();
    registry.add_require("dep".to_string(), make_specifier("a", None, 10), false);
    registry.add_require("dep".to_string(), make_specifier("b", None, 11), false);
    let stmts = registry.get_import_statements(None);
    assert_eq!(stmts.len(), 1);
    match &stmts[0] {
        ImportStatement::RequireDeclaration { source, binding, require_symbol } => {
            assert_eq!(source, "dep");
            assert_eq!(binding.local, "a");
            assert_eq!(binding.symbol_id, 10);
            assert_eq!(*require_symbol, None);
        }
        _ => panic!("expected a require declaration"),
    }
}

fn statement_source(stmt: &ImportStatement) -> &str {
    match stmt {
        ImportStatement::NamedImport { source, .. } => source,
        ImportStatement::DefaultImport { source, .. } => source,
        ImportStatement::RequireDeclaration { source, .. } => source,
    }
}

#[test]
fn front_flag_moves_a_new_require_ahead_of_existing_entries() {
    let mut registry = ModuleImports::new();
    registry.add_import("x".to_string(), make_specifier("a", None, 1));
    registry.add_default("y".to_string(), make_specifier("b", None, 2));
    registry.add_require("z".to_string(), make_specifier("c", None, 3), true);
    let stmts = registry.get_import_statements(None);
    let sources: Vec<&str> = stmts.iter().map(statement_source).collect();
    assert_eq!(sources, vec!["z", "x", "y"]);
}

#[test]
fn without_front_flag_a_new_require_stays_at_the_back() {
    let mut registry = ModuleImports::new();
    registry.add_import("x".to_string(), make_specifier("a", None, 1));
    registry.add_default("y".to_string(), make_specifier("b", None, 2));
    registry.add_require("z".to_string(), make_specifier("c", None, 3), false);
    let stmts = registry.get_import_statements(None);
    let sources: Vec<&str> = stmts.iter().map(statement_source).collect();
    assert_eq!(sources, vec!["x", "y", "z"]);
}

#[test]
fn front_flag_relocates_an_existing_require_entry() {
    let mut registry = ModuleImports::new();
    registry.add_require("dep".to_string(), make_specifier("a", None, 1), false);
    registry.add_import("lib".to_string(), make_specifier("b", None, 2));
    registry.add_require("dep".to_string(), make_specifier("c", None, 3), true);
    let stmts = registry.get_import_statements(None);
    let sources: Vec<&str> = stmts.iter().map(statement_source).collect();
    assert_eq!(sources, vec!["dep", "lib"]);
    match &stmts[0] {
        ImportStatement::RequireDeclaration { binding, .. } => {
            assert_eq!(binding.local, "a");
            assert_eq!(binding.symbol_id, 1);
        }
        _ => panic!("expected a require declaration"),
    }
}

#[test]
fn drain_is_one_shot() {
    let mut registry = ModuleImports::new();
    registry.add_import("lib".to_string(), make_specifier("foo", None, 1));
    registry.add_default("lib".to_string(), make_specifier("bar", None, 2));
    let first = registry.get_import_statements(None);
    assert!(!first.is_empty());
    let second = registry.get_import_statements(None);
    assert!(second.is_empty());
}

#[test]
fn draining_an_empty_registry_yields_nothing() {
    let mut registry = ModuleImports::new();
    let stmts = registry.get_import_statements(None);
    assert!(stmts.is_empty());
}

#[test]
fn adds_after_a_drain_start_a_fresh_accumulation() {
    let mut registry = ModuleImports::new();
    registry.add_import("lib".to_string(), make_specifier("foo", None, 1));
    let _ = registry.get_import_statements(None);
    registry.add_import("other".to_string(), make_specifier("bar", None, 2));
    let stmts = registry.get_import_statements(None);
    assert_eq!(stmts.len(), 1);
    assert_eq!(statement_source(&stmts[0]), "other");
}

#[test]
fn statement_order_follows_first_introduction_across_mechanisms() {
    let mut registry = ModuleImports::new();
    registry.add_import("a".to_string(), make_specifier("one", None, 1));
    registry.add_require("b".to_string(), make_specifier("two", None, 2), false);
    registry.add_default("c".to_string(), make_specifier("three", None, 3));
    registry.add_import("a".to_string(), make_specifier("four", None, 4));
    registry.add_default("d".to_string(), make_specifier("five", None, 5));
    let stmts = registry.get_import_statements(None);
    let sources: Vec<&str> = stmts.iter().map(statement_source).collect();
    assert_eq!(sources, vec!["a", "b", "c", "d"]);
}

#[test]
fn end_to_end_scenario_produces_three_statements() {
    let mut registry = ModuleImports::new();
    registry.add_import("lib".to_string(), make_specifier("foo", None, 1));
    registry.add_default("lib".to_string(), make_specifier("bar", None, 2));
    registry.add_require("cjs-mod".to_string(), make_specifier("baz", None, 3), true);
    let stmts = registry.get_import_statements(Some(7));
    assert_eq!(stmts.len(), 3);
    match &stmts[0] {
        ImportStatement::RequireDeclaration { source, binding, require_symbol } => {
            assert_eq!(source, "cjs-mod");
            assert_eq!(binding.local, "baz");
            assert_eq!(binding.symbol_id, 3);
            assert_eq!(*require_symbol, Some(7));
        }
        _ => panic!("expected the require declaration first"),
    }
    match &stmts[1] {
        ImportStatement::NamedImport { source, bindings } => {
            assert_eq!(source, "lib");
            assert_eq!(bindings.len(), 1);
            assert_eq!(bindings[0].imported, "foo");
        }
        _ => panic!("expected the named import second"),
    }
    match &stmts[2] {
        ImportStatement::DefaultImport { source, bindings } => {
            assert_eq!(source, "lib");
            assert_eq!(bindings.len(), 1);
            assert_eq!(bindings[0].local, "bar");
        }
        _ => panic!("expected the default import third"),
    }
}

#[test]
fn named_and_default_for_one_source_stay_separate() {
    let mut registry = ModuleImports::new();
    registry.add_import("lib".to_string(), make_specifier("foo", None, 1));
    registry.add_default("lib".to_string(), make_specifier("bar", None, 2));
    let stmts = registry.get_import_statements(None);
    assert_eq!(stmts.len(), 2);
    assert!(matches!(&stmts[0], ImportStatement::NamedImport { .. }));
    assert!(matches!(&stmts[1], ImportStatement::DefaultImport { .. }));
}

#[test]
fn named_and_require_for_one_source_stay_separate() {
    let mut registry = ModuleImports::new();
    registry.add_import("lib".to_string(), make_specifier("foo", None, 1));
    registry.add_require("lib".to_string(), make_specifier("bar", None, 2), false);
    let stmts = registry.get_import_statements(None);
    assert_eq!(stmts.len(), 2);
    assert!(matches!(&stmts[0], ImportStatement::NamedImport { .. }));
    assert!(matches!(&stmts[1], ImportStatement::RequireDeclaration { .. }));
}
