use deet::symbols::SymbolTable;

fn table() -> SymbolTable {
    let mut t = SymbolTable::new(String::from("main"));
    t.add_function(String::from("main"), 0x401000, 0x80);
    t.add_function(String::from("helper"), 0x401080, 0x40);
    t.add_line(String::from("main.c"), 10, 0x401000);
    t.add_line(String::from("main.c"), 11, 0x401010);
    t.add_line(String::from("util.c"), 3, 0x401080);
    t
}

#[test]
fn test_get_function_from_addr_covers_range() {
    let t = table();
    assert_eq!(t.get_function_from_addr(0x401000), Some(String::from("main")));
    assert_eq!(t.get_function_from_addr(0x40107f), Some(String::from("main")));
    assert_eq!(t.get_function_from_addr(0x401080), Some(String::from("helper")));
    assert_eq!(t.get_function_from_addr(0x400fff), None);
    assert_eq!(t.get_function_from_addr(0x4010c0), None);
}

#[test]
fn test_get_function_from_addr_earliest_symbol_wins() {
    let mut t = SymbolTable::new(String::from("main"));
    t.add_function(String::from("first"), 0x1000, 0x100);
    t.add_function(String::from("second"), 0x1000, 0x100);
    assert_eq!(t.get_function_from_addr(0x1050), Some(String::from("first")));
}

#[test]
fn test_get_line_from_addr_takes_greatest_at_or_below() {
    let t = table();
    assert_eq!(t.get_line_from_addr(0x401000), Some((String::from("main.c"), 10)));
    assert_eq!(t.get_line_from_addr(0x40100f), Some((String::from("main.c"), 10)));
    assert_eq!(t.get_line_from_addr(0x401011), Some((String::from("main.c"), 11)));
    assert_eq!(t.get_line_from_addr(0x401090), Some((String::from("util.c"), 3)));
    assert_eq!(t.get_line_from_addr(0x400fff), None);
}

#[test]
fn test_get_addr_for_line_first_entry_wins() {
    let t = table();
    assert_eq!(t.get_addr_for_line(11), Some(0x401010));
    assert_eq!(t.get_addr_for_line(99), None);
    let mut dup = SymbolTable::new(String::from("main"));
    dup.add_line(String::from("a.c"), 5, 0x100);
    dup.add_line(String::from("b.c"), 5, 0x200);
    assert_eq!(dup.get_addr_for_line(5), Some(0x100));
}

#[test]
fn test_get_addr_for_function_and_entry_check() {
    let t = table();
    assert_eq!(t.get_addr_for_function(&String::from("helper")), Some(0x401080));
    assert_eq!(t.get_addr_for_function(&String::from("absent")), None);
    assert!(t.is_entry_function(&String::from("main")));
    assert!(!t.is_entry_function(&String::from("helper")));
}
