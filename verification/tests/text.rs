use frontend::generator::model::{GenError, GenErrorKind};
use frontend::names::NameMap;
use frontend::text::{decimal_text, line_of};
use frontend::{Symbol, SymbolTable};

#[test]
fn decimal_texts() {
    assert_eq!(decimal_text(0), "0");
    assert_eq!(decimal_text(7), "7");
    assert_eq!(decimal_text(10), "10");
    assert_eq!(decimal_text(-305), "-305");
    assert_eq!(decimal_text(i32::MAX), "2147483647");
    assert_eq!(decimal_text(i32::MIN), "-2147483648");
}

#[test]
fn lines_of_a_text() {
    let text = "first\nsecond\r\n\nlast";
    assert_eq!(line_of(text, 0), "first");
    assert_eq!(line_of(text, 1), "second");
    assert_eq!(line_of(text, 2), "");
    assert_eq!(line_of(text, 3), "last");
    assert_eq!(line_of(text, 4), "");
    assert_eq!(line_of("", 0), "");
    assert_eq!(line_of("a\rb\n", 0), "a\rb");
}

#[test]
fn messages_of_lowering_failures() {
    let e = GenError { kind: GenErrorKind::Unresolved, subject: "x".to_string() };
    assert_eq!(e.message(), "Unresolved variable reference: x");
    let e = GenError { kind: GenErrorKind::TwoConditionals, subject: String::new() };
    assert_eq!(e.message(), "Cannot have two if statements in one function");
    assert_eq!(GenErrorKind::NoSuchFunction.describe(), "Function doesn't exist");
}

#[test]
fn name_map_keeps_order_and_replaces_in_place() {
    let mut m: NameMap<i32> = NameMap::new();
    m.insert("a".to_string(), 1);
    m.insert("b".to_string(), 2);
    m.insert("a".to_string(), 3);
    assert_eq!(m.len(), 2);
    assert_eq!(m.position("a"), Some(0));
    assert_eq!(*m.get(0), 3);
    assert_eq!(m.name_at(1), "b");
    assert!(m.check());
    m.remove("a");
    assert_eq!(m.position("a"), None);
    assert_eq!(m.position("b"), Some(0));
    m.remove("zz");
    assert_eq!(m.len(), 1);
    m.clear();
    assert_eq!(m.len(), 0);
}

#[test]
fn symbol_table_records_and_finds() {
    let mut t = SymbolTable::new();
    assert_eq!(t.insert("f".to_string(), Symbol::new("i32".to_string(), "global".to_string())), 0);
    assert_eq!(t.insert("f".to_string(), Symbol::new("bool".to_string(), "global.g".to_string())), 0);
    let s = t.lookup("f".to_string()).expect("f is recorded");
    assert_eq!(s.type_(), "bool");
    assert_eq!(s.scope(), "global.g");
    assert!(t.lookup("g".to_string()).is_none());
}
