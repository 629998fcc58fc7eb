use minimax_api::subagent::catalog::{
    all_tool_specs, schema_chat, schema_generate_image, schema_generate_music, schema_generate_video,
    schema_no_params, schema_run_subagent, schema_text_to_audio, schema_web_search, specs_for,
    tools_for_subagent, JsonType, ToolSpec, RUN_SUBAGENT_NAME,
};
use minimax_api::subagent::types::SubagentDef;

fn make_subagent(name: &str, allowed: Option<Vec<&str>>) -> SubagentDef {
    SubagentDef {
        name: name.to_string(),
        description: "test".to_string(),
        system: "test".to_string(),
        model: None,
        max_tokens: None,
        temperature_bits: None,
        max_iterations: None,
        allowed_tools: allowed.map(|v| v.into_iter().map(String::from).collect()),
        max_depth: None,
    }
}

fn fake_tool(name: &str) -> ToolSpec {
    ToolSpec {
        name: name.to_string(),
        description: format!("fake {name}"),
        input_schema: schema_no_params(),
    }
}

#[test]
fn all_tool_specs_count_and_run_subagent() {
    let all = all_tool_specs();
    assert_eq!(all.len(), 24, "expected 24 tools, got {}", all.len());
    assert!(all.iter().any(|s| s.name == RUN_SUBAGENT_NAME));
}

#[test]
fn tool_catalog_no_whitelist_returns_all() {
    let sub = make_subagent("any", None);
    let specs = specs_for(&sub);
    assert_eq!(specs.len(), 24);
}

#[test]
fn tool_catalog_whitelist_filters_correctly() {
    let sub = make_subagent("limited", Some(vec!["text_to_audio", "generate_image"]));
    let specs = specs_for(&sub);
    let names: Vec<String> = specs.iter().map(|s| s.name.clone()).collect();
    assert!(names.contains(&"text_to_audio".to_string()));
    assert!(names.contains(&"generate_image".to_string()));
    assert!(!names.contains(&"generate_video".to_string()));
    assert!(names.contains(&RUN_SUBAGENT_NAME.to_string()));
}

#[test]
fn tool_catalog_empty_whitelist_still_allows_run_subagent() {
    let sub = make_subagent("none", Some(vec![]));
    let specs = specs_for(&sub);
    assert_eq!(specs.len(), 1);
    assert_eq!(specs[0].name, RUN_SUBAGENT_NAME);
}

#[test]
fn tool_catalog_unknown_tool_name_in_whitelist_is_silently_ignored() {
    let sub = make_subagent("typo", Some(vec!["text_to_audio", "fake_tool_doesnt_exist"]));
    let specs = specs_for(&sub);
    let names: Vec<String> = specs.iter().map(|s| s.name.clone()).collect();
    assert!(names.contains(&"text_to_audio".to_string()));
    assert!(!names.contains(&"fake_tool_doesnt_exist".to_string()));
    assert!(names.contains(&RUN_SUBAGENT_NAME.to_string()));
    assert_eq!(specs.len(), 2);
}

#[test]
fn tool_catalog_tool_spec_schemas_are_objects() {
    let all = all_tool_specs();
    for spec in &all {
        assert!(
            spec.input_schema.is_object(),
            "tool '{}' input_schema is not a JSON object: {:?}",
            spec.name,
            spec.input_schema
        );
    }
}

#[test]
fn factory_no_whitelist_returns_all() {
    let tools = vec![fake_tool("a"), fake_tool("b"), fake_tool("c")];
    let sub = make_subagent("any", None);
    let filtered = tools_for_subagent(tools, &sub);
    assert_eq!(filtered.len(), 3);
}

#[test]
fn factory_whitelist_filters_correctly() {
    let tools = vec![
        fake_tool("text_to_audio"),
        fake_tool("generate_image"),
        fake_tool("generate_video"),
        fake_tool(RUN_SUBAGENT_NAME),
    ];
    let sub = make_subagent("limited", Some(vec!["text_to_audio", "generate_image"]));
    let filtered = tools_for_subagent(tools, &sub);
    let names: Vec<&str> = filtered.iter().map(|t| t.name.as_str()).collect();
    assert!(names.contains(&"text_to_audio"));
    assert!(names.contains(&"generate_image"));
    assert!(!names.contains(&"generate_video"));
    assert!(names.contains(&RUN_SUBAGENT_NAME));
    assert_eq!(filtered.len(), 3);
}

#[test]
fn factory_empty_whitelist_still_allows_run_subagent() {
    let tools = vec![fake_tool("text_to_audio"), fake_tool(RUN_SUBAGENT_NAME)];
    let sub = make_subagent("none", Some(vec![]));
    let filtered = tools_for_subagent(tools, &sub);
    assert_eq!(filtered.len(), 1);
    assert_eq!(filtered[0].name, RUN_SUBAGENT_NAME);
}

#[test]
fn factory_unknown_tool_name_in_whitelist_is_silently_ignored() {
    let tools = vec![fake_tool("text_to_audio"), fake_tool(RUN_SUBAGENT_NAME)];
    let sub = make_subagent("typo", Some(vec!["text_to_audio", "fake_tool_doesnt_exist"]));
    let filtered = tools_for_subagent(tools, &sub);
    let names: Vec<&str> = filtered.iter().map(|t| t.name.as_str()).collect();
    assert!(names.contains(&"text_to_audio"));
    assert!(!names.contains(&"fake_tool_doesnt_exist"));
    assert!(names.contains(&RUN_SUBAGENT_NAME));
    assert_eq!(filtered.len(), 2);
}

#[test]
fn factory_tool_spec_schemas_are_objects() {
    let schemas = vec![
        schema_text_to_audio(),
        schema_generate_video(),
        schema_generate_image(),
        schema_generate_music(),
        schema_chat(),
        schema_web_search(),
        schema_run_subagent(),
        schema_no_params(),
    ];
    for (i, s) in schemas.iter().enumerate() {
        assert!(s.is_object(), "schema[{}] is not a JSON object: {:?}", i, s);
    }
}

#[test]
fn run_subagent_params_schema_includes_allowed_tools() {
    let schema = schema_run_subagent();
    assert!(schema.is_object(), "schema is not an object");
    let props = &schema.properties;
    assert!(!props.is_empty(), "schema has no 'properties'");
    assert!(props.iter().any(|p| p.name == "name"), "missing 'name'");
    assert!(props.iter().any(|p| p.name == "task"), "missing 'task'");
    let at = props.iter().find(|p| p.name == "allowed_tools");
    assert!(at.is_some(), "missing 'allowed_tools'");
    let at = at.unwrap();
    assert!(
        at.json_type == JsonType::StringArray && !at.required,
        "allowed_tools type should be array (possibly nullable): got {:?}",
        at.json_type
    );
}

#[test]
fn catalog_names_are_in_order_and_unique() {
    let all = all_tool_specs();
    assert_eq!(all[0].name, "text_to_audio");
    assert_eq!(all[23].name, RUN_SUBAGENT_NAME);
    for i in 0..all.len() {
        for j in (i + 1)..all.len() {
            assert_ne!(all[i].name, all[j].name);
        }
    }
}

#[test]
fn catalog_descriptions_and_schemas_match_tools() {
    let all = all_tool_specs();
    assert_eq!(all[22].name, "query_usage");
    assert_eq!(all[22].description, "Query account token balance and usage summary.");
    assert_eq!(all[22].input_schema.title, "NoParams");
    assert_eq!(all[17].input_schema.title, "ChatParams");
    let chat = schema_chat();
    assert_eq!(chat.properties[0].description, "用户消息");
    assert_eq!(chat.properties[4].description, "温度 0-1");
}

#[test]
fn catalog_run_subagent_schema_offers_optional_allowed_tools() {
    let all = all_tool_specs();
    let run = &all[23];
    assert_eq!(run.name, RUN_SUBAGENT_NAME);
    let at = run.input_schema.properties.iter().find(|p| p.name == "allowed_tools").unwrap();
    assert_eq!(at.json_type, JsonType::StringArray);
    assert!(!at.required);
}

#[test]
fn whitelist_keeps_tools_unchanged() {
    let sub = make_subagent("s", Some(vec!["chat"]));
    let kept = specs_for(&sub);
    assert_eq!(kept.len(), 2);
    assert_eq!(kept[0].name, "chat");
    assert_eq!(kept[0].description, all_tool_specs()[17].description);
    assert_eq!(kept[0].input_schema.properties.len(), schema_chat().properties.len());
    assert_eq!(kept[0].input_schema.properties[0].description, "用户消息");
    assert_eq!(kept[1].name, RUN_SUBAGENT_NAME);
}
