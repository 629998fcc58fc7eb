use minimax_api::cli::{
    collect_args, command_options, compact_words, last_value, parse_i32_opt, parse_output_flags, scan_options,
    split_commas_trimmed, trim,
};
use minimax_api::client::{
    async_tts_query_endpoint, check_base_resp, file_poll_step, video_poll_limit, video_poll_step, BaseRespFields,
    FilePollStep, MiniMaxClient, VideoPollStep,
};
use minimax_api::error::{MiniMaxError, ProviderError};
use minimax_api::text::{i64_to_string, is_blank, truncate};
use minimax_api::utils::{build_filename, decode_hex_audio, expand_home, filename_at, mime_guess};
use minimax_api::dispatch::{child_depth, param_parse_error, run_subagent_params_error, tool_error};
use minimax_api::ws::{
    check_connected, check_event_status, ws_step_error, ws_url, ws_wait_error, AudioCollector, StreamStep, WsWaitFailure,
};

fn strings(v: &[&str]) -> Vec<String> {
    v.iter().map(|s| s.to_string()).collect()
}

#[test]
fn collect_args_joins_rest() {
    let args = strings(&["minimax", "web_search", "rust", "verus"]);
    assert_eq!(collect_args(&args, 2), "rust verus");
    assert_eq!(collect_args(&args, 4), "");
    assert_eq!(collect_args(&args, 9), "");
}

#[test]
fn parse_output_flags_reads_leading_flags() {
    let args = strings(&["m", "cmd", "--file", "a.mp3", "--output-directory", "out", "hello", "--file", "x"]);
    let (f, d, i) = parse_output_flags(&args, 2);
    assert_eq!(f.as_deref(), Some("a.mp3"));
    assert_eq!(d.as_deref(), Some("out"));
    assert_eq!(i, 6);
    let args = strings(&["m", "cmd", "--file"]);
    assert_eq!(parse_output_flags(&args, 2), (None, None, 2));
}

#[test]
fn tts_options_after_text_are_honoured() {
    let (values, flags) = command_options("text_to_audio").unwrap();
    let args = strings(&["m", "text_to_audio", "hello", "--voice", "male-qn", "there", "--voice", "v2"]);
    let s = scan_options(&args, 2, &values, &flags).unwrap();
    assert_eq!(last_value(&s, "--voice").as_deref(), Some("v2"));
    assert_eq!(s.words, vec!["hello", "there"]);
    assert_eq!(compact_words(&s.words), "hello there");
}

#[test]
fn unknown_option_is_refused() {
    let (values, flags) = command_options("chat").unwrap();
    let args = strings(&["m", "chat", "--bogus", "x"]);
    assert_eq!(scan_options(&args, 2, &values, &flags).unwrap_err(), "Unknown option: --bogus");
    let args = strings(&["m", "chat", "hi", "--model"]);
    assert_eq!(scan_options(&args, 2, &values, &flags).unwrap_err(), "Unknown option: --model");
}

#[test]
fn image_flag_is_recognised() {
    let (values, flags) = command_options("generate_image").unwrap();
    let args = strings(&["m", "generate_image", "--no-optimizer", "a", "cat", "--n", "3"]);
    let s = scan_options(&args, 2, &values, &flags).unwrap();
    assert_eq!(s.flags, vec!["--no-optimizer"]);
    assert_eq!(parse_i32_opt(&last_value(&s, "--n").unwrap()), Some(3));
    assert!(command_options("list_voices").is_none());
}

#[test]
fn compact_words_skips_space_after_empty_text() {
    assert_eq!(compact_words(&strings(&["", "a", "b"])), "a b");
    assert_eq!(compact_words(&strings(&[])), "");
}

#[test]
fn integer_options() {
    assert_eq!(parse_i32_opt("-12"), Some(-12));
    assert_eq!(parse_i32_opt("+7"), Some(7));
    assert_eq!(parse_i32_opt("3000000000"), None);
    assert_eq!(parse_i32_opt("1.5"), None);
    assert_eq!(parse_i32_opt(""), None);
}

#[test]
fn comma_lists_are_split_and_trimmed() {
    assert_eq!(split_commas_trimmed(" a, b ,c"), vec!["a", "b", "c"]);
    assert_eq!(split_commas_trimmed(""), vec![""]);
    assert_eq!(split_commas_trimmed("x,,"), vec!["x", "", ""]);
    assert_eq!(trim("\t hi \n"), "hi");
}

#[test]
fn client_urls_and_credentials() {
    let c = MiniMaxClient::new("k".to_string(), "https://api.example.com".to_string());
    assert_eq!(c.url("/v1/x"), "https://api.example.com/v1/x");
    assert_eq!(c.bearer(), "Bearer k");
    let c = MiniMaxClient::from_env_values(Some("k".to_string()), None).unwrap();
    assert_eq!(c.base_url, "https://api.minimaxi.com");
    match MiniMaxClient::from_env_values(None, None) {
        Err(MiniMaxError::MissingEnv(v)) => assert_eq!(v, "MINIMAX_API_KEY"),
        other => panic!("unexpected {:?}", other),
    }
    assert_eq!(async_tts_query_endpoint(-5), "/v1/query/t2a_async_query_v2?task_id=-5");
}

#[test]
fn base_resp_check() {
    assert!(check_base_resp(None, None).is_ok());
    assert!(check_base_resp(Some(BaseRespFields { status_code: Some(0), status_msg: None }), None).is_ok());
    let e = check_base_resp(Some(BaseRespFields { status_code: Some(1008), status_msg: None }), Some("t".to_string()))
        .unwrap_err();
    assert_eq!(e.message(), "API error 1008: unknown error");
}

#[test]
fn poll_decisions() {
    assert_eq!(video_poll_limit("MiniMax-Hailuo-02"), 60);
    assert_eq!(video_poll_limit("MiniMax-Hailuo-2.3"), 30);
    assert!(matches!(video_poll_step("Processing", None, "t"), VideoPollStep::Wait));
    match video_poll_step("Success", Some("f1".to_string()), "t") {
        VideoPollStep::Download(f) => assert_eq!(f, "f1"),
        other => panic!("unexpected {:?}", other),
    }
    match video_poll_step("Fail", None, "t9") {
        VideoPollStep::Failed(e) => assert_eq!(e.message(), "task failed (task_id: t9)"),
        other => panic!("unexpected {:?}", other),
    }
    assert!(matches!(file_poll_step(Some(2013), None, None), FilePollStep::WaitAndRetry));
    assert!(matches!(file_poll_step(Some(0), None, None), FilePollStep::RetryNow));
    match file_poll_step(None, Some("bad".to_string()), None) {
        FilePollStep::Fail(e) => assert_eq!(e.message(), "API error -1: bad"),
        other => panic!("unexpected {:?}", other),
    }
}

#[test]
fn ws_url_and_events() {
    assert_eq!(ws_url("https://api.minimaxi.com"), "wss://api.minimaxi.com/ws/v1/t2a_v2");
    assert_eq!(ws_url("http://h"), "ws://h/ws/v1/t2a_v2");
    assert!(check_connected(true, Some("connected_success".to_string()), None, None).is_ok());
    assert_eq!(
        check_connected(true, Some("other".to_string()), None, None).unwrap_err().message(),
        "API error -1: unexpected event on connect: other"
    );
    assert_eq!(
        check_event_status(Some("task_failed".to_string()), Some(1004), None, "task_started").unwrap_err().message(),
        "API error 1004: unknown"
    );
    assert_eq!(
        check_event_status(Some("x".to_string()), None, None, "task_started").unwrap_err().message(),
        "API error -1: expected task_started, got x"
    );
}

#[test]
fn audio_collector_gathers_chunks() {
    let mut c = AudioCollector::new();
    let s = c.on_event(Some("task_continued".to_string()), None, None, Some("0102".to_string()), Some(false)).unwrap();
    assert_eq!(s, StreamStep::Continue);
    let s = c.on_event(Some("task_continued".to_string()), None, None, Some("ff".to_string()), Some(true)).unwrap();
    assert_eq!(s, StreamStep::Stop);
    assert_eq!(c.audio, vec![1, 2, 255]);
    assert!(c.is_final);
    assert!(c.on_event(Some("task_continued".to_string()), None, None, Some("zz".to_string()), None).is_err());
}

#[test]
fn hex_decoding() {
    assert_eq!(decode_hex_audio("00ff10").unwrap(), vec![0, 255, 16]);
    assert_eq!(decode_hex_audio("abc").unwrap_err().message(), "hex decode error: Odd number of digits");
    assert_eq!(
        decode_hex_audio("0g").unwrap_err().message(),
        "hex decode error: Invalid character 'g' at position 1"
    );
}

#[test]
fn filenames_and_paths() {
    assert_eq!(filename_at("tts", "hello world and more", "mp3", 42), "tts_hello_worl_42.mp3");
    assert!(build_filename("image", "a b", "jpg").starts_with("image_a_b_"));
    assert_eq!(mime_guess("song.mp3"), "audio/mpeg");
    assert_eq!(expand_home("~/x", Some("/home/u")), "/home/u/x");
    assert_eq!(expand_home("/abs", Some("/home/u")), "/abs");
}

#[test]
fn text_helpers() {
    assert_eq!(truncate("abcdef", 3), "abc…[truncated]");
    assert_eq!(truncate("abc", 3), "abc");
    assert_eq!(i64_to_string(-42), "-42");
    assert!(is_blank(" \t\n"));
    assert!(!is_blank(" a "));
}

#[test]
fn provider_error_from_client_error() {
    let e = ProviderError::from_minimax(MiniMaxError::Api { code: 1004, message: "bad key".to_string(), trace_id: None });
    assert_eq!(e.message(), "API error: code=1004: bad key");
    let e = ProviderError::from_minimax(MiniMaxError::TaskTimeout { task_id: "t".to_string(), max_retries: 30 });
    assert_eq!(e.message(), "timeout: task t after 30 retries");
}

#[test]
fn data_urls_are_base64() {
    assert_eq!(minimax_api::utils::data_url("image/png", b"hi"), "data:image/png;base64,aGk=");
    assert_eq!(minimax_api::utils::image_extension_for_url("https://x/a.png?x=1"), "png");
    assert_eq!(minimax_api::utils::image_extension_for_url("https://x/a"), "jpg");
}

#[test]
fn ws_errors() {
    assert_eq!(
        ws_wait_error(WsWaitFailure::Timeout, "task_started").message(),
        "API error -1: timeout waiting for task_started"
    );
    assert_eq!(ws_wait_error(WsWaitFailure::CloseFrame, "x").message(), "API error -1: WebSocket closed by server");
    assert_eq!(ws_step_error("send error: ", "broken").message(), "API error -1: send error: broken");
}

#[test]
fn dispatch_helpers() {
    assert_eq!(child_depth(0), 1);
    assert_eq!(child_depth(u32::MAX), u32::MAX);
    assert_eq!(param_parse_error("missing field").message(), "param parse error: missing field");
    assert_eq!(run_subagent_params_error("x").message(), "run_subagent: invalid params: x");
    assert_eq!(tool_error("boom").message(), "tool error: boom");
}

#[test]
fn poll_budget_counts_polls() {
    let mut b = minimax_api::client::PollBudget::new(2);
    assert!(b.next());
    assert!(b.next());
    assert!(!b.next());
    assert_eq!(b.attempt, 2);
    let mut none = minimax_api::client::PollBudget::new(0);
    assert!(!none.next());
}

#[test]
fn mime_guess_sees_through_trailing_separators() {
    assert_eq!(mime_guess("x/y.mp3/"), "audio/mpeg");
    assert_eq!(mime_guess("x/y.png/./"), "image/png");
    assert_eq!(mime_guess("x/.hidden"), "application/octet-stream");
    assert_eq!(mime_guess("/"), "application/octet-stream");
}

#[test]
fn blank_text_knows_unicode_spaces() {
    assert!(is_blank("\u{3000}\u{a0}\u{2009}"));
    assert!(!is_blank("\u{200b}"));
}

#[test]
fn base64_pads_last_group() {
    assert_eq!(minimax_api::utils::data_url("a/b", b"ManM"), "data:a/b;base64,TWFuTQ==");
    assert_eq!(minimax_api::utils::data_url("a/b", b"Ma"), "data:a/b;base64,TWE=");
}
