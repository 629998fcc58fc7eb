use minimax_api::dispatch::{lookup_subagent, route_tool, text_result, with_allowed_tools, ToolRoute};
use minimax_api::subagent::agent_loop::{AgentLoop, LoopAction, ReplyBlock};
use minimax_api::subagent::registry::{SubagentRegistry, SubagentSource};
use minimax_api::subagent::types::SubagentDef;

fn def(name: &str) -> SubagentDef {
    SubagentDef {
        name: name.to_string(),
        description: "d".to_string(),
        system: "You help.".to_string(),
        model: None,
        max_tokens: None,
        temperature_bits: None,
        max_iterations: None,
        allowed_tools: None,
        max_depth: None,
    }
}

fn text_block(t: &str) -> ReplyBlock {
    ReplyBlock { block_type: "text".to_string(), text: Some(t.to_string()), id: None, name: None, input: None }
}

fn use_block(id: &str, name: &str, input: &str) -> ReplyBlock {
    ReplyBlock {
        block_type: "tool_use".to_string(),
        text: None,
        id: Some(id.to_string()),
        name: Some(name.to_string()),
        input: Some(input.to_string()),
    }
}

fn tools() -> Vec<String> {
    vec!["text_to_audio".to_string(), "run_subagent".to_string()]
}

#[test]
fn loop_ends_with_text_answer() {
    let (mut lp, first) = AgentLoop::start(&def("echo"), "say hi", 0, tools()).unwrap();
    assert!(matches!(first, LoopAction::CallModel));
    assert_eq!(lp.model(), "MiniMax-M3");
    assert_eq!(lp.max_tokens(), 16384);
    match lp.on_model_reply(vec![text_block("hello"), text_block("world")]) {
        LoopAction::Finish(r) => {
            assert_eq!(r.final_output, "hello\nworld");
            assert_eq!(r.iterations, 1);
            assert_eq!(r.subagent, "echo");
            assert!(r.warning.is_none());
            assert!(r.tool_calls.is_empty());
        }
        other => panic!("unexpected {:?}", other),
    }
}

#[test]
fn loop_runs_tool_then_answers() {
    let (mut lp, _) = AgentLoop::start(&def("worker"), "speak", 1, tools()).unwrap();
    match lp.on_model_reply(vec![text_block("calling"), use_block("u1", "text_to_audio", "{\"text\":\"hi\"}")]) {
        LoopAction::RunTool { tool_index } => assert_eq!(tool_index, 0),
        other => panic!("unexpected {:?}", other),
    }
    assert_eq!(lp.current_tool_input(), "{\"text\":\"hi\"}");
    assert!(matches!(lp.on_tool_output("saved".to_string(), false), LoopAction::CallModel));
    assert_eq!(lp.messages().len(), 3);
    match lp.on_model_reply(vec![text_block("done")]) {
        LoopAction::Finish(r) => {
            assert_eq!(r.final_output, "done");
            assert_eq!(r.iterations, 2);
            assert_eq!(r.depth, 1);
            assert_eq!(r.tool_calls.len(), 1);
            assert_eq!(r.tool_calls[0].tool, "text_to_audio");
            assert_eq!(r.tool_calls[0].iteration, 1);
            assert_eq!(r.tool_calls[0].output_preview, "saved");
            assert!(r.tool_calls[0].subagent.is_none());
        }
        other => panic!("unexpected {:?}", other),
    }
}

#[test]
fn loop_records_subagent_name_of_nested_call() {
    let (mut lp, _) = AgentLoop::start(&def("orchestrator"), "delegate", 0, tools()).unwrap();
    match lp.on_model_reply(vec![use_block("u1", "run_subagent", "{\"name\":\"worker\",\"task\":\"t\"}")]) {
        LoopAction::RunTool { tool_index } => assert_eq!(tool_index, 1),
        other => panic!("unexpected {:?}", other),
    }
    lp.on_tool_output("ok".to_string(), false);
    match lp.on_model_reply(vec![text_block("all done")]) {
        LoopAction::Finish(r) => assert_eq!(r.tool_calls[0].subagent.as_deref(), Some("worker")),
        other => panic!("unexpected {:?}", other),
    }
}

#[test]
fn loop_stops_at_unknown_tool() {
    let (mut lp, _) = AgentLoop::start(&def("echo"), "x", 0, tools()).unwrap();
    match lp.on_model_reply(vec![use_block("u1", "generate_video", "{}")]) {
        LoopAction::Fail(e) => {
            assert_eq!(e.message(), "unknown tool 'generate_video' — not in subagent tool catalog")
        }
        other => panic!("unexpected {:?}", other),
    }
}

#[test]
fn loop_hits_max_iterations() {
    let mut d = def("looper");
    d.max_iterations = Some(1);
    let (mut lp, _) = AgentLoop::start(&d, "x", 0, tools()).unwrap();
    lp.on_model_reply(vec![use_block("u1", "text_to_audio", "{}")]);
    match lp.on_tool_output("out".to_string(), false) {
        LoopAction::Finish(r) => {
            assert_eq!(r.final_output, "[max_iterations=1 reached; see tool_calls for partial progress]");
            assert_eq!(r.warning.as_deref(), Some("subagent 'looper' hit max_iterations=1 without end_turn"));
            assert_eq!(r.iterations, 1);
        }
        other => panic!("unexpected {:?}", other),
    }
}

#[test]
fn loop_with_zero_iterations_finishes_at_once() {
    let mut d = def("lazy");
    d.max_iterations = Some(0);
    let (_, first) = AgentLoop::start(&d, "x", 0, tools()).unwrap();
    match first {
        LoopAction::Finish(r) => {
            assert_eq!(r.iterations, 0);
            assert!(r.warning.is_some());
        }
        other => panic!("unexpected {:?}", other),
    }
}

#[test]
fn loop_refuses_too_deep_run() {
    let err = AgentLoop::start(&def("deep"), "x", 4, tools()).unwrap_err();
    assert_eq!(err.message(), "subagent 'deep' exceeded max_depth=3 (current depth=4)");
    assert!(AgentLoop::start(&def("deep"), "x", 3, tools()).is_ok());
}

#[test]
fn long_tool_output_is_truncated_in_record() {
    let (mut lp, _) = AgentLoop::start(&def("echo"), "x", 0, tools()).unwrap();
    lp.on_model_reply(vec![use_block("u1", "text_to_audio", "{}")]);
    let long: String = "a".repeat(400);
    lp.on_tool_output(long, false);
    match lp.on_model_reply(vec![text_block("ok")]) {
        LoopAction::Finish(r) => {
            let p = &r.tool_calls[0].output_preview;
            assert!(p.starts_with(&"a".repeat(300)));
            assert!(p.ends_with("…[truncated]"));
            assert_eq!(p.chars().count(), 300 + "…[truncated]".chars().count());
        }
        other => panic!("unexpected {:?}", other),
    }
}

#[test]
fn every_catalog_tool_is_routed() {
    for spec in minimax_api::subagent::catalog::all_tool_specs() {
        assert!(route_tool(&spec.name).is_ok(), "{}", spec.name);
    }
    assert_eq!(route_tool("chat").unwrap(), ToolRoute::Chat);
    assert_eq!(route_tool("run_subagent").unwrap(), ToolRoute::RunSubagent);
    let e = route_tool("nope").unwrap_err();
    assert_eq!(e.message(), "unknown tool 'nope' (not in subagent catalog)");
}

#[test]
fn text_result_joins_text_parts() {
    let r = text_result(&vec![Some("a".to_string()), None, Some("b".to_string())]);
    assert_eq!(r.output, "a\nb");
    assert!(!r.is_error);
}

#[test]
fn lookup_subagent_messages() {
    let reg = SubagentRegistry::load(vec![SubagentSource { path: "w.json".to_string(), parsed: Ok(def("worker")) }]).unwrap();
    assert_eq!(lookup_subagent(&reg, "worker", true).unwrap().name, "worker");
    assert_eq!(
        lookup_subagent(&reg, "x", true).unwrap_err().message(),
        "subagent 'x' not found. Use list_subagents to see available subagents."
    );
    assert_eq!(lookup_subagent(&reg, "x", false).unwrap_err().message(), "subagent 'x' not found");
}

#[test]
fn allowed_tools_override() {
    let mut d = def("w");
    d.allowed_tools = Some(vec!["chat".to_string()]);
    let same = with_allowed_tools(&d, &None);
    assert_eq!(same.allowed_tools, Some(vec!["chat".to_string()]));
    let over = with_allowed_tools(&d, &Some(vec!["web_search".to_string()]));
    assert_eq!(over.allowed_tools, Some(vec!["web_search".to_string()]));
    assert_eq!(over.name, "w");
}

#[test]
fn loop_empty_answer_before_bound_has_no_warning() {
    let (mut lp, _) = AgentLoop::start(&def("quiet"), "x", 0, tools()).unwrap();
    match lp.on_model_reply(Vec::new()) {
        LoopAction::Finish(r) => {
            assert_eq!(r.final_output, "");
            assert!(r.warning.is_none());
            assert_eq!(r.iterations, 1);
        }
        other => panic!("unexpected {:?}", other),
    }
}
