use note_board::layout::{layout_text, load_layout, LAYOUT_FILE_NAME};

#[test]
fn persisted_text_is_indented_json() {
    let value: serde_json::Value = serde_json::from_str("{\"notes\":[1,2]}").unwrap();
    assert_eq!(
        layout_text(&value).unwrap(),
        "{\n  \"notes\": [\n    1,\n    2\n  ]\n}"
    );
}

#[test]
fn load_returns_persisted_text_unchanged() {
    let value: serde_json::Value =
        serde_json::from_str("{\"board\":{\"x\":10,\"title\":\"caf\\u00e9\"}}").unwrap();
    let written = layout_text(&value).unwrap();
    let loaded = load_layout(Some(written.clone()));
    assert_eq!(loaded.as_bytes(), written.as_bytes());
    let again: serde_json::Value = serde_json::from_str(&loaded).unwrap();
    assert_eq!(again, value);
}

#[test]
fn load_without_file_is_empty() {
    assert_eq!(load_layout(None), "");
}

#[test]
fn load_of_empty_file_is_empty() {
    assert_eq!(load_layout(Some(String::new())), "");
}

#[test]
fn layout_file_name() {
    assert_eq!(LAYOUT_FILE_NAME, "layout.json");
}

#[test]
fn persisting_one_value_twice_writes_the_same_text() {
    let value: serde_json::Value = serde_json::from_str("{\"b\":[true,null],\"a\":\"x\"}").unwrap();
    let first = layout_text(&value).unwrap();
    let second = layout_text(&value.clone()).unwrap();
    assert_eq!(first, second);
    assert_eq!(first, "{\n  \"a\": \"x\",\n  \"b\": [\n    true,\n    null\n  ]\n}");
}
