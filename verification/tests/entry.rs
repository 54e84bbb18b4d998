use render_pipeline_shaders::entry::{entry_name, ENTRY_TABLE_NAME, MODULE_ID_NAME};

#[test]
fn entry_name_joins_module_and_entry() {
    assert_eq!(entry_name("hello_triangle", "main"), "rpsl_M_hello_triangle_E_main");
    assert_eq!(entry_name("a", "b"), "rpsl_M_a_E_b");
}

#[test]
fn entry_name_of_empty_names() {
    assert_eq!(entry_name("", ""), "rpsl_M__E_");
    assert_eq!(entry_name("m", ""), "rpsl_M_m_E_");
    assert_eq!(entry_name("", "e"), "rpsl_M__E_e");
}

#[test]
fn entry_name_is_ten_characters_longer() {
    let symbol = entry_name("module", "entry");
    assert_eq!(symbol.chars().count(), 10 + 6 + 5);
    assert!(symbol.starts_with("rpsl_M_module"));
    assert!(symbol.ends_with("_E_entry"));
}

#[test]
fn well_known_symbols() {
    assert_eq!(ENTRY_TABLE_NAME, "rpsl_M_entry_tbl");
    assert_eq!(MODULE_ID_NAME, "rpsl_M_module_id");
}
