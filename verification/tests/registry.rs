use minimax_api::subagent::registry::{SubagentRegistry, SubagentSource};
use minimax_api::subagent::types::SubagentDef;

fn def(name: &str, description: &str, system: &str) -> SubagentDef {
    SubagentDef {
        name: name.to_string(),
        description: description.to_string(),
        system: system.to_string(),
        model: None,
        max_tokens: None,
        temperature_bits: None,
        max_iterations: None,
        allowed_tools: None,
        max_depth: None,
    }
}

fn minimal(name: &str) -> SubagentDef {
    def(name, "test subagent", "You are a test.")
}

fn source(path: &str, parsed: Result<SubagentDef, String>) -> SubagentSource {
    SubagentSource { path: path.to_string(), parsed }
}

#[test]
fn load_empty_dir_returns_empty_registry() {
    let r = SubagentRegistry::load(vec![]).unwrap();
    assert!(r.list().is_empty());
}

#[test]
fn load_missing_dir_returns_empty_registry_with_warning() {
    let r = SubagentRegistry::empty();
    assert!(r.list().is_empty());
}

#[test]
fn load_valid_defs() {
    let mut beta = def("beta", "second one", "Beta system.");
    beta.max_iterations = Some(7);
    beta.allowed_tools = Some(vec!["text_to_audio".to_string()]);
    let r = SubagentRegistry::load(vec![
        source("a.json", Ok(minimal("alpha"))),
        source("b.json", Ok(beta)),
    ])
    .unwrap();
    assert_eq!(r.list().len(), 2);

    let a = r.get("alpha").expect("alpha");
    assert_eq!(a.system, "You are a test.");
    assert!(a.allowed_tools.is_none());

    let b = r.get("beta").expect("beta");
    assert_eq!(b.max_iterations, Some(7));
    assert_eq!(b.allowed_tools.as_ref().unwrap(), &vec!["text_to_audio".to_string()]);

    assert!(r.get("nope").is_none());
}

#[test]
fn duplicate_name_is_rejected() {
    let err = SubagentRegistry::load(vec![
        source("1.json", Ok(minimal("dup"))),
        source("2.json", Ok(minimal("dup"))),
    ])
    .unwrap_err();
    let msg = err.message();
    assert!(msg.contains("duplicate"), "expected duplicate error, got: {msg}");
}

#[test]
fn missing_required_field_is_rejected() {
    let err = SubagentRegistry::load(vec![source("bad.json", Ok(def("x", "y", "")))]).unwrap_err();
    let msg = err.message();
    assert!(msg.contains("invalid subagent config"), "got: {msg}");
}

#[test]
fn completely_missing_field_fails_at_parse_time() {
    let err = SubagentRegistry::load(vec![source(
        "bad.json",
        Err("missing field `system` at line 1 column 35".to_string()),
    )])
    .unwrap_err();
    let msg = err.message();
    assert!(msg.contains("failed to parse"), "got: {msg}");
}

#[test]
fn invalid_json_is_rejected() {
    let err = SubagentRegistry::load(vec![source(
        "bad.json",
        Err("key must be a string at line 1 column 3".to_string()),
    )])
    .unwrap_err();
    assert!(err.message().contains("failed to parse"));
}

#[test]
fn load_lists_in_name_order() {
    let r = SubagentRegistry::load(vec![
        source("w.json", Ok(minimal("worker"))),
        source("e.json", Ok(minimal("echo"))),
        source("o.json", Ok(minimal("orchestrator"))),
    ])
    .unwrap();
    let names: Vec<String> = r.list().into_iter().map(|s| s.name).collect();
    assert_eq!(names, vec!["echo", "orchestrator", "worker"]);
    assert_eq!(r.names(), vec!["echo", "orchestrator", "worker"]);
}

#[test]
fn insert_refuses_existing_name() {
    let mut r = SubagentRegistry::empty();
    assert!(r.insert(minimal("a")));
    assert!(!r.insert(def("a", "other", "other")));
    assert_eq!(r.get("a").unwrap().description, "test subagent");
}

#[test]
fn validate_messages() {
    assert_eq!(def(" ", "d", "s").validate(), Err("name is required".to_string()));
    assert_eq!(def("n", "", "s").validate(), Err("description is required".to_string()));
    assert_eq!(def("n", "d", " \t").validate(), Err("system is required".to_string()));
    assert_eq!(def("n", "d", "s").validate(), Ok(()));
}

#[test]
fn duplicate_error_names_both_files() {
    let err = SubagentRegistry::load(vec![
        source("1.json", Ok(minimal("dup"))),
        source("2.json", Ok(minimal("dup"))),
    ])
    .unwrap_err();
    assert_eq!(err.message(), "duplicate subagent name 'dup' (in (earlier file) and 2.json)");
}
