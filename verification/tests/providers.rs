use minimax_api::handlers::{
    chat_text, delete_file_text, done_text, format_voice_list, image_list_text, list_files_text, lyrics_text,
    music_text, retrieve_file_text, sort_fields, tts_text, usage_text, video_agent_done_text, voice_clone_text,
    web_search_text, MediaReport,
};
use minimax_api::mcp_params::{GenerateVideoAgentParams, GenerateVideoParams, VoiceCloneParams};
use minimax_api::providers::{
    async_tts_step, audio_output, build_video_agent_req, build_video_req, build_voice_clone_req, check_capabilities,
    create_minimax_client, parse_task_id, resolve_provider, resolve_settings, speech_choice,
    video_agent_result, video_query_step, AsyncTaskResult, AsyncTtsStep, ChatOutput, FileInfoResult, LyricsResult,
    MediaOutput, ProviderConfig, ProviderSettings, SearchOutput, SearchResultItem, VideoQueryStep,
    VoiceDesignedOutput, VoiceInfoOutput, VoiceListResult,
};

fn video_params(prompt: &str) -> GenerateVideoParams {
    GenerateVideoParams {
        prompt: prompt.to_string(),
        model: None,
        first_frame_image: None,
        duration: Some(6),
        resolution: None,
        async_mode: None,
        output_directory: None,
        last_frame_image: None,
        prompt_optimizer: None,
        fast_pretreatment: None,
        aigc_watermark: None,
        callback_url: None,
        subject_reference: None,
    }
}

#[test]
fn provider_defaults_without_config() {
    assert_eq!(resolve_provider(&None, "tts"), "minimax");
    let s = resolve_settings(&None, "minimax");
    assert_eq!(s.api_key_env, "MINIMAX_API_KEY");
    assert!(s.api_host.is_none());
    assert!(check_capabilities(&None, true).is_ok());
}

#[test]
fn provider_config_selects_and_refuses() {
    let cfg = Some(ProviderConfig {
        providers: vec![("tts".to_string(), "minimax".to_string()), ("chat".to_string(), "openai".to_string())],
        provider_config: vec![(
            "minimax".to_string(),
            ProviderSettings { api_key_env: "MY_KEY".to_string(), api_host: Some("https://h".to_string()) },
        )],
    });
    assert_eq!(resolve_provider(&cfg, "chat"), "openai");
    assert_eq!(resolve_provider(&cfg, "video"), "minimax");
    assert_eq!(resolve_settings(&cfg, "minimax").api_key_env, "MY_KEY");
    let e = check_capabilities(&cfg, true).unwrap_err();
    assert_eq!(e.message(), "not supported: unknown provider 'openai' for chat");
    let e = check_capabilities(&None, false).unwrap_err();
    assert_eq!(e.message(), "config: minimax provider not initialised for tts");
}

#[test]
fn minimax_client_from_settings() {
    let s = ProviderSettings { api_key_env: "K".to_string(), api_host: None };
    let c = create_minimax_client(&s, Some("key".to_string()), Some("https://env".to_string())).unwrap();
    assert_eq!(c.base_url, "https://env");
    let c = create_minimax_client(&s, Some("key".to_string()), None).unwrap();
    assert_eq!(c.base_url, "https://api.minimaxi.com");
    let e = create_minimax_client(&s, None, None).unwrap_err();
    assert_eq!(e.message(), "auth: environment variable K not set");
}

#[test]
fn video_request_defaults() {
    let r = build_video_req(&video_params("a cat"));
    assert_eq!(r.model, "MiniMax-Hailuo-2.3");
    assert_eq!(r.prompt, "a cat");
    assert_eq!(r.duration, Some(6));
    assert!(r.subject_reference.is_none());
    let mut p = video_params("x");
    p.model = Some("MiniMax-Hailuo-02".to_string());
    p.subject_reference = Some(vec![
        "{\"type\":\"character\",\"image\":[\"u1\",3,\"u2\"]}".to_string(),
        "{\"image\":[\"u3\"]}".to_string(),
        "not json".to_string(),
    ]);
    let r = build_video_req(&p);
    assert_eq!(r.model, "MiniMax-Hailuo-02");
    let refs = r.subject_reference.unwrap();
    assert_eq!(refs.len(), 1);
    assert_eq!(refs[0].reference_type, "character");
    assert_eq!(refs[0].image, vec!["u1", "u2"]);
}

#[test]
fn video_agent_request_values() {
    let p = GenerateVideoAgentParams {
        template_id: "t1".to_string(),
        text_inputs: Some(vec!["{\"value\":\"lion\"}".to_string(), "{}".to_string()]),
        media_inputs: None,
        callback_url: None,
    };
    let r = build_video_agent_req(&p);
    let values: Vec<String> = r.text_inputs.unwrap().into_iter().map(|t| t.value).collect();
    assert_eq!(values, vec!["lion", ""]);
    assert!(r.media_inputs.is_none());
}

#[test]
fn voice_clone_model_only_with_text() {
    let mut p = VoiceCloneParams {
        voice_id: "v".to_string(),
        file: "f.mp3".to_string(),
        text: None,
        is_url: None,
        output_directory: None,
        language_boost: None,
        need_noise_reduction: None,
        need_volume_normalization: None,
    };
    assert!(build_voice_clone_req(&p, 9).model.is_none());
    p.text = Some("hi".to_string());
    let r = build_voice_clone_req(&p, 9);
    assert_eq!(r.model.as_deref(), Some("speech-2.8-hd"));
    assert_eq!(r.file_id, 9);
}

#[test]
fn audio_decoding_results() {
    match audio_output(Some("0a0b".to_string()), "mp3".to_string(), "no audio in response").unwrap() {
        MediaOutput::Bytes { data, extension } => {
            assert_eq!(data, vec![10, 11]);
            assert_eq!(extension, "mp3");
        }
        other => panic!("unexpected {:?}", other),
    }
    let e = audio_output(None, "mp3".to_string(), "no audio in response").unwrap_err();
    assert_eq!(e.message(), "API error: no audio in response");
    let e = audio_output(Some("x".to_string()), "mp3".to_string(), "m").unwrap_err();
    assert_eq!(e.message(), "hex decode: Odd number of digits");
}

#[test]
fn task_status_decisions() {
    match video_query_step("Success".to_string(), None) {
        VideoQueryStep::FetchUrl(f) => assert_eq!(f, "N/A"),
        other => panic!("unexpected {:?}", other),
    }
    match video_query_step("Queueing".to_string(), None) {
        VideoQueryStep::Done(AsyncTaskResult::Pending { status }) => assert_eq!(status, "Queueing"),
        other => panic!("unexpected {:?}", other),
    }
    match video_agent_result("Success".to_string(), Some(String::new())) {
        AsyncTaskResult::Completed(MediaOutput::Url(u)) => assert_eq!(u, "N/A"),
        other => panic!("unexpected {:?}", other),
    }
    match async_tts_step("Expired".to_string(), None, 77) {
        AsyncTtsStep::Failed(m) => assert_eq!(m, "Task status: Expired (task_id: 77)"),
        other => panic!("unexpected {:?}", other),
    }
    match async_tts_step("Success".to_string(), None, 77) {
        AsyncTtsStep::Fetch(f) => assert_eq!(f, 77),
        other => panic!("unexpected {:?}", other),
    }
    assert_eq!(parse_task_id("123").unwrap(), 123);
    assert!(parse_task_id("12a").unwrap_err().message().starts_with("invalid task_id: "));
}

#[test]
fn speech_defaults() {
    let c = speech_choice(&None, &None, None, Some(64000), &None);
    assert_eq!(c.model, "speech-2.8-hd");
    assert_eq!(c.voice_id, "female-shaonv");
    assert_eq!(c.sample_rate, 32000);
    assert_eq!(c.bitrate, 64000);
    assert_eq!(c.format, "mp3");
}

#[test]
fn voice_list_text() {
    let r = VoiceListResult {
        system: vec![VoiceInfoOutput {
            voice_id: "female-shaonv".to_string(),
            voice_name: "少女".to_string(),
            description: String::new(),
        }],
        cloned: vec![],
        designed: vec![VoiceDesignedOutput { voice_id: "d1".to_string(), description: "warm".to_string() }],
    };
    assert_eq!(
        format_voice_list(&r),
        "=== System Voices ===\n  female-shaonv — 少女\n=== Cloned Voices ===\n=== Designed Voices ===\n  d1 — warm\n1 system voices + 0 cloned voices + 1 designed voices"
    );
}

#[test]
fn file_texts() {
    assert_eq!(list_files_text("voice_clone", &vec![]), "No files under purpose 'voice_clone'.");
    let f = FileInfoResult {
        file_id: Some(5),
        filename: Some("a.mp3".to_string()),
        bytes: None,
        purpose: Some("voice_clone".to_string()),
        download_url: None,
    };
    assert_eq!(
        list_files_text("voice_clone", &vec![f.clone()]),
        "Files under purpose 'voice_clone' (1 total):\n  file_id: 5, Name: a.mp3, Size: N/A"
    );
    assert_eq!(retrieve_file_text(5, &f), "File info (file_id: 5):\n  Name: a.mp3\n  Purpose: voice_clone");
    assert_eq!(delete_file_text(5, "t2a_async"), "File deleted: file_id=5, purpose=t2a_async");
}

#[test]
fn search_text() {
    let o = SearchOutput {
        results: vec![SearchResultItem {
            title: "Rust".to_string(),
            url: "https://rust-lang.org".to_string(),
            snippet: "A language".to_string(),
            date: None,
        }],
        related: vec!["cargo".to_string()],
    };
    assert_eq!(
        web_search_text(&o),
        "Search results (1):\n\n1. Rust\n   URL: https://rust-lang.org\n   A language\n\nRelated searches:\n  - cargo"
    );
}

#[test]
fn lyrics_and_chat_texts() {
    let empty = LyricsResult { title: None, style_tags: None, lyrics: None };
    assert_eq!(lyrics_text(&empty), "歌词生成成功。");
    let l = LyricsResult { title: Some("T".to_string()), style_tags: None, lyrics: Some("la".to_string()) };
    assert_eq!(lyrics_text(&l), "Title: T\nLyrics:\nla");
    let c = ChatOutput { text: "hi".to_string(), model: "M".to_string(), input_tokens: Some(3), output_tokens: None };
    assert_eq!(chat_text(&c), "hi\n\n[model: M, input: 3 tokens, output: 0 tokens]");
    let c = ChatOutput { text: "hi".to_string(), model: "M".to_string(), input_tokens: None, output_tokens: Some(0) };
    assert_eq!(chat_text(&c), "hi");
}

#[test]
fn usage_lines_are_sorted_by_name() {
    let fields = vec![
        ("b".to_string(), "2".to_string()),
        ("a".to_string(), "\"x\"".to_string()),
        ("c".to_string(), "null".to_string()),
    ];
    assert_eq!(usage_text(&fields), "Account usage:\na: \"x\"\nb: 2\nc: null");
    assert_eq!(usage_text(&vec![]), "Query succeeded.");
    let sorted = sort_fields(&fields);
    let names: Vec<&str> = sorted.iter().map(|kv| kv.0.as_str()).collect();
    assert_eq!(names, vec!["a", "b", "c"]);
}

#[test]
fn media_texts() {
    assert_eq!(tts_text(&MediaReport::Size(10)), "Audio generated! 10 bytes");
    assert_eq!(
        done_text("Stream TTS done!", &MediaReport::Size(2048)),
        "Stream TTS done! Audio size: 2048 bytes (2 KB)"
    );
    assert_eq!(
        done_text("Async TTS done!", &MediaReport::Saved { path: "/t/a.mp3".to_string(), bytes: 5 }),
        "Async TTS done! Saved to: /t/a.mp3 (5 bytes)"
    );
    assert_eq!(music_text(&MediaReport::Url("u".to_string())), "Music generated! URL: u");
    assert_eq!(voice_clone_text("v1", &None), "Voice cloned!\nvoice_id: v1\ndemo_audio: N/A");
    assert_eq!(video_agent_done_text("t", ""), "Video Agent task succeeded!\ntask_id: t\nvideo_url: N/A");
    let outs = vec![MediaOutput::Url("u1".to_string()), MediaOutput::Bytes { data: vec![0; 4], extension: "png".to_string() }];
    assert_eq!(image_list_text(&outs), "Image generated! 2 image(s):\n1. u1\n2. [4 bytes]");
}

fn tar_with(entries: &[(&str, &[u8])]) -> Vec<u8> {
    let mut builder = tar::Builder::new(Vec::new());
    for (name, data) in entries {
        let mut header = tar::Header::new_gnu();
        header.set_size(data.len() as u64);
        header.set_mode(0o644);
        header.set_cksum();
        builder.append_data(&mut header, name, *data).unwrap();
    }
    builder.into_inner().unwrap()
}

#[test]
fn mp3_is_read_from_a_real_archive() {
    let data = tar_with(&[("notes.txt", b"hello"), ("out/voice.mp3", b"ID3x"), ("b.mp3", b"zz")]);
    match minimax_api::providers::mp3_from_tar(&data).unwrap() {
        MediaOutput::Bytes { data, extension } => {
            assert_eq!(data, b"ID3x".to_vec());
            assert_eq!(extension, "mp3");
        }
        other => panic!("unexpected {:?}", other),
    }
    assert_eq!(minimax_api::providers::extract_mp3(&data).unwrap(), b"ID3x".to_vec());
    let no_mp3 = tar_with(&[("a.wav", b"RIFF")]);
    assert_eq!(minimax_api::providers::extract_mp3(&no_mp3).unwrap_err().message(), "API error -1: no mp3 found in tar");
}

#[test]
fn command_line_texts() {
    let r = VoiceListResult {
        system: vec![VoiceInfoOutput { voice_id: "a".to_string(), voice_name: "A".to_string(), description: String::new() }],
        cloned: vec![],
        designed: vec![],
    };
    assert_eq!(
        minimax_api::handlers::cli_voice_list_text(&r),
        "=== 系统音色 ===\n  a — A\n\n=== 克隆音色 ===\n\n共 1 个系统音色 + 0 个克隆音色"
    );
    let o = SearchOutput {
        results: vec![SearchResultItem { title: "T".to_string(), url: "u".to_string(), snippet: "s".to_string(), date: None }],
        related: vec![],
    };
    assert_eq!(minimax_api::handlers::cli_search_text(&o), "搜索结果 (共 1 条):\n\n1. T\n   URL: u\n   s\n");
}

#[test]
fn first_mp3_is_taken_and_later_entries_are_not_read() {
    let mut data = tar_with(&[("a.txt", b"x"), ("b.mp3", b"ID3x"), ("c.mp3", b"zz")]);
    // Break the header of the third entry: its checksum no longer matches.
    data[2048] = b'Z';
    assert_eq!(minimax_api::providers::extract_mp3(&data).unwrap(), b"ID3x".to_vec());
    match minimax_api::providers::mp3_from_tar(&data).unwrap() {
        MediaOutput::Bytes { data, extension } => {
            assert_eq!(data, b"ID3x".to_vec());
            assert_eq!(extension, "mp3");
        }
        other => panic!("unexpected {:?}", other),
    }
    let e = minimax_api::providers::mp3_from_tar(&tar_with(&[("x.wav", b"")])).unwrap_err();
    assert_eq!(e.message(), "tar 包中未找到 mp3 文件");
}

#[test]
fn broken_entry_before_mp3_stops_the_search() {
    let mut data = tar_with(&[("a.txt", b"x"), ("b.mp3", b"ID3x")]);
    data[1024] = b'Z';
    let e = minimax_api::providers::extract_mp3(&data).unwrap_err();
    assert!(e.message().starts_with("API error -1: tar entry error: "), "{}", e.message());
}
