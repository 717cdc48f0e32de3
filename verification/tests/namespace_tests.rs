use kovel::json::{load_namespaces, namespace_names, is_text_array, JsonDocument, JsonEntry, NamespaceFileError};
use kovel::model::ApplicationModel;

#[test]
fn loads_a_json_array_of_strings() {
    let names = load_namespaces("[\"default\", \"kube-system\", \"staging\"]").ok().unwrap();
    assert_eq!(names, vec!["default".to_string(), "kube-system".to_string(), "staging".to_string()]);
}

#[test]
fn loads_an_empty_array() {
    let names = load_namespaces("  [ ]  ").ok().unwrap();
    assert!(names.is_empty());
}

#[test]
fn unescapes_json_strings() {
    let names = load_namespaces("[\"a\\u0062c\", \"d\\\"e\"]").ok().unwrap();
    assert_eq!(names, vec!["abc".to_string(), "d\"e".to_string()]);
}

#[test]
fn rejects_text_that_is_not_json() {
    assert!(matches!(load_namespaces("[\"default\""), Err(NamespaceFileError::InvalidJson(_))));
    assert!(matches!(load_namespaces(""), Err(NamespaceFileError::InvalidJson(_))));
}

#[test]
fn rejects_json_that_is_not_an_array_of_strings() {
    assert!(matches!(load_namespaces("{\"ns\": \"default\"}"), Err(NamespaceFileError::NotAStringArray)));
    assert!(matches!(load_namespaces("\"default\""), Err(NamespaceFileError::NotAStringArray)));
    assert!(matches!(load_namespaces("[\"default\", 3]"), Err(NamespaceFileError::NotAStringArray)));
    assert!(matches!(load_namespaces("[null]"), Err(NamespaceFileError::NotAStringArray)));
}

#[test]
fn names_of_a_parsed_document() {
    let doc = JsonDocument::Array(vec![JsonEntry::Text("a".to_string()), JsonEntry::Text("b".to_string())]);
    assert!(is_text_array(&doc));
    assert_eq!(namespace_names(&doc), vec!["a".to_string(), "b".to_string()]);
    let mixed = JsonDocument::Array(vec![JsonEntry::Text("a".to_string()), JsonEntry::Other]);
    assert!(!is_text_array(&mixed));
    assert!(!is_text_array(&JsonDocument::Other));
}

#[test]
fn namespace_drop_down_starts_with_placeholder() {
    let mut m = ApplicationModel::default();
    m.set_namespaces(vec!["default".to_string(), "prod".to_string()]);
    assert_eq!(
        m.namespace_options(),
        vec!["-- select namespace --".to_string(), "default".to_string(), "prod".to_string()]
    );
}

#[test]
fn selecting_a_namespace() {
    let mut m = ApplicationModel::default();
    m.set_namespaces(vec!["default".to_string(), "prod".to_string()]);
    assert!(m.namespace_selected(0).is_none());
    let s = m.namespace_selected(2).unwrap();
    assert_eq!(s.log, "selected NS idx: #2");
    assert_eq!(s.namespace, "prod");
}

#[test]
fn port_query_waits_for_both_selections() {
    let mut m = ApplicationModel::default();
    m.set_namespaces(vec!["default".to_string(), "prod".to_string()]);
    assert!(m.port_query(0, 3).is_none());
    assert!(m.port_query(1, 0).is_none());
    assert_eq!(m.port_query(1, 3), Some(("default".to_string(), 3)));
    assert_eq!(m.port_query(2, 1), Some(("prod".to_string(), 1)));
}
