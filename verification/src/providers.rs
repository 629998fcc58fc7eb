//! The capability providers: their result records, which provider serves each
//! capability (from `provider.toml`), request defaults, and how API answers become
//! provider results.

use vstd::prelude::*;
use vstd::string::*;

use crate::client::{MiniMaxClient, DEFAULT_API_HOST, ENV_API_KEY};
use crate::error::{prefixed, MiniMaxError, ProviderError};
use crate::jsontext::{
    array_member_strings, json_array_member_strings, json_string_member, opt_view, string_member,
};
use crate::lexorder::{compare_str, StrOrder};
use crate::mcp_params::{
    GenerateLyricsParams, GenerateMusicCoverParams, GenerateMusicParams, GenerateVideoAgentParams,
    GenerateVideoParams, VoiceCloneParams,
};
use crate::text::{ends_with, i64_to_string, integer_text_value, parse_i64, str_ends_with, views};
use crate::types::{
    ChatResponse, ImageData, LyricsGenerationRequest, LyricsGenerationResponse, MediaInput,
    MusicAudioSetting, MusicGenerationRequest, SearchResponse, SubjectReference, TextInput,
    VideoGenerationRequest, VideoTemplateGenerationRequest, VoiceCloneRequest, VoiceListResponse,
};
use crate::utils::{hex_bytes, hex_decode, hex_error_text, hex_rejects, is_hex_digit, HexError};

verus! {

// ------------------------------------------------------------------
// Result records
// ------------------------------------------------------------------

/// Binary or URL media from a generation operation.
#[derive(Debug, Clone)]
pub enum MediaOutput {
    Bytes { data: Vec<u8>, extension: String },
    Url(String),
}

/// What the asynchronous speech service reports beside a submitted task.
#[derive(Debug, Clone)]
pub struct AsyncExtra {
    pub file_id: i64,
    pub usage_characters: i32,
}

/// Handle returned by an asynchronous task submission (video, asynchronous speech).
#[derive(Debug, Clone)]
pub struct AsyncTaskHandle {
    pub task_id: String,
    pub extra: Option<AsyncExtra>,
}

/// Result of polling an asynchronous task.
#[derive(Debug, Clone)]
pub enum AsyncTaskResult {
    Pending { status: String },
    Completed(MediaOutput),
    Failed { message: String },
}

/// A system or cloned voice.
#[derive(Debug, Clone)]
pub struct VoiceInfoOutput {
    pub voice_id: String,
    pub voice_name: String,
    pub description: String,
}

/// A designed voice.
#[derive(Debug, Clone)]
pub struct VoiceDesignedOutput {
    pub voice_id: String,
    pub description: String,
}

/// The voices of an account, by kind.
#[derive(Debug, Clone)]
pub struct VoiceListResult {
    pub system: Vec<VoiceInfoOutput>,
    pub cloned: Vec<VoiceInfoOutput>,
    pub designed: Vec<VoiceDesignedOutput>,
}

/// A cloned voice and its demo audio, if the service made one.
#[derive(Debug, Clone)]
pub struct VoiceCloneResult {
    pub voice_id: String,
    pub demo_audio: Option<MediaOutput>,
}

/// The text of a chat answer, the model that gave it and the tokens it took.
#[derive(Debug, Clone)]
pub struct ChatOutput {
    pub text: String,
    pub model: String,
    pub input_tokens: Option<i32>,
    pub output_tokens: Option<i32>,
}

/// Generated lyrics.
#[derive(Debug, Clone)]
pub struct LyricsResult {
    pub title: Option<String>,
    pub style_tags: Option<String>,
    pub lyrics: Option<String>,
}

/// One result of a web search.
#[derive(Debug, Clone)]
pub struct SearchResultItem {
    pub title: String,
    pub url: String,
    pub snippet: String,
    pub date: Option<String>,
}

/// The results of a web search and the related searches it suggests.
#[derive(Debug, Clone)]
pub struct SearchOutput {
    pub results: Vec<SearchResultItem>,
    pub related: Vec<String>,
}

/// What the file service knows of a file.
#[derive(Debug, Clone)]
pub struct FileInfoResult {
    pub file_id: Option<i64>,
    pub filename: Option<String>,
    pub bytes: Option<i64>,
    pub purpose: Option<String>,
    pub download_url: Option<String>,
}

/// The files under one purpose.
#[derive(Debug, Clone)]
pub struct FileListResult {
    pub files: Vec<FileInfoResult>,
}

/// The id of an uploaded file.
#[derive(Debug, Clone)]
pub struct FileUploadResult {
    pub file_id: i64,
}

/// The fields of an account's usage report: each field's name and its value as JSON
/// text. Names do not repeat.
#[derive(Debug, Clone)]
pub struct UsageResult {
    pub fields: Vec<(String, String)>,
}

// ------------------------------------------------------------------
// Configuration (provider.toml)
// ------------------------------------------------------------------

/// How to reach one provider: the environment variable that holds its key, and its
/// API host when it is not the default.
#[derive(Debug, Clone)]
pub struct ProviderSettings {
    pub api_key_env: String,
    pub api_host: Option<String>,
}

/// The contents of `provider.toml`: the provider named for each capability, and the
/// settings of each provider. Keys do not repeat within a table.
#[derive(Debug, Clone)]
pub struct ProviderConfig {
    pub providers: Vec<(String, String)>,
    pub provider_config: Vec<(String, ProviderSettings)>,
}

/// `i` is the first index of `entries` whose key is `key`.
pub open spec fn first_key_index<V>(entries: Seq<(String, V)>, key: Seq<char>, i: int) -> bool {
    &&& 0 <= i < entries.len()
    &&& entries[i].0@ == key
    &&& forall|j: int| 0 <= j < i ==> (#[trigger] entries[j]).0@ != key
}

/// The value of the first entry whose key is `key`, if any.
pub open spec fn entry_value<V>(entries: Seq<(String, V)>, key: Seq<char>) -> Option<V> {
    if exists|i: int| first_key_index(entries, key, i) {
        Some(entries[choose|i: int| first_key_index(entries, key, i)].1)
    } else {
        None
    }
}

/// Only one index is the first with a given key.
pub proof fn lemma_first_key_index_unique<V>(entries: Seq<(String, V)>, key: Seq<char>, i: int, j: int)
    requires
        first_key_index(entries, key, i),
        first_key_index(entries, key, j),
    ensures
        i == j,
{
    if i < j {
        assert(entries[i].0@ != key);
    } else if j < i {
        assert(entries[j].0@ != key);
    }
}

/// Looks up the value stored under `key` (the first such entry).
pub fn find_entry<'a, V>(entries: &'a Vec<(String, V)>, key: &str) -> (r: Option<&'a V>)
    ensures
        r is None <==> entry_value(entries@, key@) is None,
        r matches Some(v) ==> entry_value(entries@, key@) == Some(*v),
        r is None <==> forall|j: int| 0 <= j < entries@.len() ==> (#[trigger] entries@[j]).0@ != key@,
{
    let n = entries.len();
    let mut i: usize = 0;
    while i < n
        invariant
            n == entries@.len(),
            i <= n,
            forall|j: int| 0 <= j < i ==> (#[trigger] entries@[j]).0@ != key@,
        decreases n - i,
    {
        if compare_str(entries[i].0.as_str(), key) == StrOrder::Equal {
            proof {
                assert(first_key_index(entries@, key@, i as int));
                let c = choose|k: int| first_key_index(entries@, key@, k);
                lemma_first_key_index_unique(entries@, key@, i as int, c);
            }
            return Some(&entries[i].1);
        }
        i = i + 1;
    }
    proof {
        assert(!exists|k: int| first_key_index(entries@, key@, k));
    }
    None
}

/// The provider that serves each capability unless `provider.toml` says otherwise.
pub const DEFAULT_PROVIDER: &'static str = "minimax";

/// The provider named for capability `key`: the one `provider.toml` names, else
/// `minimax`.
pub open spec fn provider_name(config: Option<ProviderConfig>, key: Seq<char>) -> Seq<char> {
    match config {
        Some(c) => match entry_value(c.providers@, key) {
            Some(v) => v@,
            None => "minimax"@,
        },
        None => "minimax"@,
    }
}

/// The provider named for a capability.
pub fn resolve_provider(config: &Option<ProviderConfig>, key: &str) -> (r: String)
    ensures
        r@ == provider_name(*config, key@),
{
    match config {
        Some(c) => match find_entry(&c.providers, key) {
            Some(v) => v.clone(),
            None => String::from_str(DEFAULT_PROVIDER),
        },
        None => String::from_str(DEFAULT_PROVIDER),
    }
}

/// The settings of provider `name`: the block `provider.toml` gives it, else the
/// default (key in `MINIMAX_API_KEY`, default host).
pub open spec fn provider_settings(config: Option<ProviderConfig>, name: Seq<char>) -> (Seq<char>, Option<Seq<char>>) {
    let found = match config {
        Some(c) => entry_value(c.provider_config@, name),
        None => None,
    };
    match found {
        Some(s) => (
            s.api_key_env@,
            match s.api_host {
                Some(h) => Some(h@),
                None => None,
            },
        ),
        None => ("MINIMAX_API_KEY"@, None),
    }
}

/// The settings of a named provider.
pub fn resolve_settings(config: &Option<ProviderConfig>, name: &str) -> (r: ProviderSettings)
    ensures
        (r.api_key_env@, match r.api_host {
            Some(h) => Some(h@),
            None => None,
        }) == provider_settings(*config, name@),
{
    let found = match config {
        Some(c) => find_entry(&c.provider_config, name),
        None => None,
    };
    match found {
        Some(s) => {
            let host = match &s.api_host {
                Some(h) => Some(h.clone()),
                None => None,
            };
            ProviderSettings { api_key_env: s.api_key_env.clone(), api_host: host }
        },
        None => ProviderSettings { api_key_env: String::from_str(ENV_API_KEY), api_host: None },
    }
}

/// The capabilities, in the order in which a provider set is assembled.
pub open spec fn capability_keys() -> Seq<Seq<char>> {
    seq![
        "tts"@,
        "voice"@,
        "video"@,
        "image"@,
        "music"@,
        "chat"@,
        "search"@,
        "files"@,
        "usage"@,
    ]
}

/// The MiniMax provider is set up only when the speech capability is served by it.
pub open spec fn minimax_needed(config: Option<ProviderConfig>) -> bool {
    provider_name(config, "tts"@) == "minimax"@
}

/// Whether the MiniMax provider must be set up for this configuration.
pub fn needs_minimax(config: &Option<ProviderConfig>) -> (b: bool)
    ensures
        b == minimax_needed(*config),
{
    let name = resolve_provider(config, "tts");
    compare_str(name.as_str(), DEFAULT_PROVIDER) == StrOrder::Equal
}

/// What stops capability `key` from being served: another provider is named for it,
/// or MiniMax is named but was not set up.
pub open spec fn capability_failure(config: Option<ProviderConfig>, key: Seq<char>, initialised: bool) -> Option<ProviderError> {
    let name = provider_name(config, key);
    if name != "minimax"@ {
        Some(ProviderError::NotSupported(arbitrary()))
    } else if !initialised {
        Some(ProviderError::Config(arbitrary()))
    } else {
        None
    }
}

/// The error for capability `key` is exactly the one the provider factory reports.
pub open spec fn capability_error(config: Option<ProviderConfig>, key: Seq<char>, initialised: bool, e: ProviderError) -> bool {
    let name = provider_name(config, key);
    if name != "minimax"@ {
        e matches ProviderError::NotSupported(m) && m@ == "unknown provider '"@ + name + "' for "@ + key
    } else {
        !initialised && (e matches ProviderError::Config(m) && m@ == "minimax provider not initialised for "@
            + key)
    }
}

/// Checks that capability `key` can be served by the MiniMax provider, which was set
/// up (`initialised`) or not.
pub fn check_capability(config: &Option<ProviderConfig>, key: &str, initialised: bool) -> (r: Result<(), ProviderError>)
    ensures
        r is Ok <==> capability_failure(*config, key@, initialised) is None,
        r matches Err(e) ==> capability_error(*config, key@, initialised, e),
{
    let name = resolve_provider(config, key);
    if compare_str(name.as_str(), DEFAULT_PROVIDER) != StrOrder::Equal {
        let mut m = prefixed("unknown provider '", name.as_str());
        m.append("' for ");
        m.append(key);
        return Err(ProviderError::NotSupported(m));
    }
    if !initialised {
        return Err(ProviderError::Config(prefixed("minimax provider not initialised for ", key)));
    }
    Ok(())
}

/// Without `provider.toml`, MiniMax serves every capability, and once it is set up
/// nothing stops any capability.
pub proof fn law_default_provider_everywhere(key: Seq<char>)
    ensures
        provider_name(None, key) == "minimax"@,
        minimax_needed(None),
        capability_failure(None, key, true) is None,
{
}

/// Checks every capability in order; the first that cannot be served gives the error.
pub fn check_capabilities(config: &Option<ProviderConfig>, initialised: bool) -> (r: Result<(), ProviderError>)
    ensures
        r is Ok <==> forall|k: int| 0 <= k < capability_keys().len() ==> capability_failure(
            *config,
            #[trigger] capability_keys()[k],
            initialised,
        ) is None,
        r matches Err(e) ==> exists|k: int|
            0 <= k < capability_keys().len() && capability_error(*config, #[trigger] capability_keys()[k], initialised, e)
                && forall|j: int| 0 <= j < k ==> capability_failure(*config, #[trigger] capability_keys()[j], initialised) is None,
{
    let keys = ["tts", "voice", "video", "image", "music", "chat", "search", "files", "usage"];
    proof {
        assert(keys@.len() == 9);
    }
    let ghost ks = capability_keys();
    let mut i: usize = 0;
    while i < 9
        invariant
            i <= 9,
            keys@.len() == 9,
            ks == capability_keys(),
            forall|k: int| 0 <= k < 9 ==> (#[trigger] keys@[k])@ == ks[k],
            forall|j: int| 0 <= j < i ==> capability_failure(*config, #[trigger] ks[j], initialised) is None,
        decreases 9 - i,
    {
        let key = keys[i];
        match check_capability(config, key, initialised) {
            Ok(()) => {},
            Err(e) => {
                assert(capability_error(*config, ks[i as int], initialised, e));
                return Err(e);
            },
        }
        i = i + 1;
    }
    Ok(())
}

/// The client of the MiniMax provider: its key from the environment variable named in
/// the settings (an error when that is unset), its host from the settings, else from
/// `MINIMAX_API_HOST`, else the default host.
pub fn create_minimax_client(settings: &ProviderSettings, api_key: Option<String>, env_host: Option<String>) -> (r:
    Result<MiniMaxClient, ProviderError>)
    ensures
        api_key is None <==> r is Err,
        r matches Err(e) ==> e matches ProviderError::Auth(m) && m@ == "environment variable "@
            + settings.api_key_env@ + " not set"@,
        r matches Ok(c) ==> api_key matches Some(k) && c.api_key@ == k@ && c.base_url@ == match settings.api_host {
            Some(h) => h@,
            None => match env_host {
                Some(h) => h@,
                None => DEFAULT_API_HOST@,
            },
        },
{
    let key = match api_key {
        Some(k) => k,
        None => {
            let mut m = prefixed("environment variable ", settings.api_key_env.as_str());
            m.append(" not set");
            return Err(ProviderError::Auth(m));
        },
    };
    let base_url = match &settings.api_host {
        Some(h) => h.clone(),
        None => match env_host {
            Some(h) => h,
            None => String::from_str(DEFAULT_API_HOST),
        },
    };
    Ok(MiniMaxClient::new(key, base_url))
}

/// The MiniMax implementation of every capability.
#[derive(Debug, Clone)]
pub struct MiniMaxProvider {
    pub client: MiniMaxClient,
}

impl MiniMaxProvider {
    /// A provider over this client.
    pub fn new(client: MiniMaxClient) -> (p: MiniMaxProvider)
        ensures
            p.client == client,
    {
        MiniMaxProvider { client }
    }
}

// ------------------------------------------------------------------
// Requests
// ------------------------------------------------------------------

/// The video model used when a request names none.
pub const DEFAULT_VIDEO_MODEL: &'static str = "MiniMax-Hailuo-2.3";

/// `value` when present, else `default`.
pub open spec fn or_default(value: Option<String>, default: Seq<char>) -> Seq<char> {
    match value {
        Some(v) => v@,
        None => default,
    }
}

/// The empty string literal has no characters.
pub proof fn lemma_empty_literal()
    ensures
        ""@ == Seq::<char>::empty(),
{
    reveal_strlit("");
    assert(""@ =~= Seq::<char>::empty());
}

/// The string given, or the default text.
pub fn string_or(value: &Option<String>, default: &str) -> (r: String)
    ensures
        r@ == or_default(*value, default@),
{
    match value {
        Some(v) => v.clone(),
        None => String::from_str(default),
    }
}

/// The values that are present, in order.
pub open spec fn somes<A>(s: Seq<Option<A>>) -> Seq<A>
    decreases s.len(),
{
    if s.len() == 0 {
        Seq::empty()
    } else {
        let r = somes(s.drop_last());
        match s.last() {
            Some(a) => r.push(a),
            None => r,
        }
    }
}

/// The strings that are present, in order.
pub fn present_strings(items: Vec<Option<String>>) -> (r: Vec<String>)
    ensures
        views(r@) == somes(items@.map_values(|o: Option<String>| opt_view(o))),
{
    let ghost all = items@.map_values(|o: Option<String>| opt_view(o));
    let mut r: Vec<String> = Vec::new();
    let n = items.len();
    let mut i: usize = 0;
    while i < n
        invariant
            n == items@.len(),
            i <= n,
            all == items@.map_values(|o: Option<String>| opt_view(o)),
            views(r@) == somes(all.take(i as int)),
        decreases n - i,
    {
        assert(all.take(i + 1).drop_last() =~= all.take(i as int));
        match &items[i] {
            Some(t) => {
                r.push(t.clone());
                assert(views(r@) =~= somes(all.take(i as int)).push(t@));
            },
            None => {},
        }
        i = i + 1;
    }
    assert(all.take(n as int) =~= all);
    r
}

/// A subject reference as plain values: its type and its image URLs.
pub open spec fn reference_view(r: SubjectReference) -> (Seq<char>, Seq<Seq<char>>) {
    (r.reference_type@, views(r.image@))
}

/// The subject reference written in the JSON text `v`: its string member `type` and the
/// string elements of its array member `image`; none when either is missing.
pub open spec fn subject_reference_of(v: Seq<char>) -> Option<(Seq<char>, Seq<Seq<char>>)> {
    match (json_string_member(v, "type"@), json_array_member_strings(v, "image"@)) {
        (Some(t), Some(items)) => Some((t, somes(items))),
        _ => None,
    }
}

/// Reads one subject reference from its JSON text.
pub fn parse_subject_reference(v: &str) -> (r: Option<SubjectReference>)
    ensures
        match r {
            Some(x) => subject_reference_of(v@) == Some(reference_view(x)),
            None => subject_reference_of(v@) is None,
        },
{
    let reference_type = match string_member(v, "type") {
        Some(t) => t,
        None => {
            return None;
        },
    };
    let items = match array_member_strings(v, "image") {
        Some(items) => items,
        None => {
            return None;
        },
    };
    let image = present_strings(items);
    Some(SubjectReference { reference_type, image })
}

/// The subject references read from their JSON texts; texts that are not a subject
/// reference are left out.
pub fn parse_subject_references(texts: &Vec<String>) -> (r: Vec<SubjectReference>)
    ensures
        r@.map_values(|x: SubjectReference| reference_view(x)) == somes(
            views(texts@).map_values(|v: Seq<char>| subject_reference_of(v)),
        ),
{
    let ghost all = views(texts@).map_values(|v: Seq<char>| subject_reference_of(v));
    let mut r: Vec<SubjectReference> = Vec::new();
    let n = texts.len();
    let mut i: usize = 0;
    while i < n
        invariant
            n == texts@.len(),
            i <= n,
            all == views(texts@).map_values(|v: Seq<char>| subject_reference_of(v)),
            r@.map_values(|x: SubjectReference| reference_view(x)) == somes(all.take(i as int)),
        decreases n - i,
    {
        assert(all.take(i + 1).drop_last() =~= all.take(i as int));
        match parse_subject_reference(texts[i].as_str()) {
            Some(x) => {
                let ghost before = r@;
                r.push(x);
                assert(r@.map_values(|x: SubjectReference| reference_view(x)) =~= before.map_values(
                    |x: SubjectReference| reference_view(x),
                ).push(reference_view(x)));
            },
            None => {},
        }
        i = i + 1;
    }
    assert(all.take(n as int) =~= all);
    r
}

/// The video generation request for these parameters: the model defaults to
/// `MiniMax-Hailuo-2.3`, subject references are read from their JSON texts, and every
/// other field is carried over.
pub fn build_video_req(params: &GenerateVideoParams) -> (r: VideoGenerationRequest)
    ensures
        r.model@ == or_default(params.model, DEFAULT_VIDEO_MODEL@),
        r.prompt == params.prompt,
        r.first_frame_image == params.first_frame_image,
        r.last_frame_image == params.last_frame_image,
        r.duration == params.duration,
        r.resolution == params.resolution,
        r.prompt_optimizer == params.prompt_optimizer,
        r.fast_pretreatment == params.fast_pretreatment,
        r.callback_url == params.callback_url,
        r.aigc_watermark == params.aigc_watermark,
        match params.subject_reference {
            None => r.subject_reference is None,
            Some(vs) => r.subject_reference matches Some(rs) && rs@.map_values(
                |x: SubjectReference| reference_view(x),
            ) == somes(views(vs@).map_values(|v: Seq<char>| subject_reference_of(v))),
        },
{
    let subject_reference = match &params.subject_reference {
        Some(vs) => Some(parse_subject_references(vs)),
        None => None,
    };
    VideoGenerationRequest {
        model: string_or(&params.model, DEFAULT_VIDEO_MODEL),
        prompt: params.prompt.clone(),
        first_frame_image: params.first_frame_image.clone(),
        last_frame_image: params.last_frame_image.clone(),
        subject_reference,
        duration: params.duration,
        resolution: params.resolution.clone(),
        prompt_optimizer: params.prompt_optimizer,
        fast_pretreatment: params.fast_pretreatment,
        callback_url: params.callback_url.clone(),
        aigc_watermark: params.aigc_watermark,
    }
}

/// The `value` member of one template input's JSON text, or the empty string.
pub open spec fn input_value(v: Seq<char>) -> Seq<char> {
    match json_string_member(v, "value"@) {
        Some(t) => t,
        None => Seq::empty(),
    }
}

/// The values of template inputs read from their JSON texts.
pub fn input_values(texts: &Vec<String>) -> (r: Vec<String>)
    ensures
        views(r@) == views(texts@).map_values(|v: Seq<char>| input_value(v)),
{
    let mut r: Vec<String> = Vec::new();
    let n = texts.len();
    let mut i: usize = 0;
    while i < n
        invariant
            n == texts@.len(),
            i <= n,
            views(r@) == views(texts@).take(i as int).map_values(|v: Seq<char>| input_value(v)),
        decreases n - i,
    {
        let value = match string_member(texts[i].as_str(), "value") {
            Some(t) => t,
            None => String::new(),
        };
        let ghost before = r@;
        proof {
            assert(value@ == input_value(views(texts@)[i as int]));
        }
        r.push(value);
        assert(views(r@) =~= views(before).push(value@));
        assert(views(r@) =~= views(texts@).take(i + 1).map_values(|v: Seq<char>| input_value(v)));
        i = i + 1;
    }
    assert(views(texts@).take(n as int) =~= views(texts@));
    r
}

/// The template request for these parameters: each text and media input becomes its
/// `value` member (the empty string when it has none).
pub fn build_video_agent_req(params: &GenerateVideoAgentParams) -> (r: VideoTemplateGenerationRequest)
    ensures
        r.template_id == params.template_id,
        r.callback_url == params.callback_url,
        match params.text_inputs {
            None => r.text_inputs is None,
            Some(vs) => r.text_inputs matches Some(ts) && ts@.map_values(|t: TextInput| t.value@)
                == views(vs@).map_values(|v: Seq<char>| input_value(v)),
        },
        match params.media_inputs {
            None => r.media_inputs is None,
            Some(vs) => r.media_inputs matches Some(ms) && ms@.map_values(|m: MediaInput| m.value@)
                == views(vs@).map_values(|v: Seq<char>| input_value(v)),
        },
{
    let text_inputs = match &params.text_inputs {
        Some(vs) => {
            let values = input_values(vs);
            let mut out: Vec<TextInput> = Vec::new();
            let n = values.len();
            let mut i: usize = 0;
            while i < n
                invariant
                    n == values@.len(),
                    i <= n,
                    out@.map_values(|t: TextInput| t.value@) == views(values@).take(i as int),
                decreases n - i,
            {
                let ghost before = out@;
                out.push(TextInput { value: values[i].clone() });
                assert(out@.map_values(|t: TextInput| t.value@) =~= before.map_values(
                    |t: TextInput| t.value@,
                ).push(views(values@)[i as int]));
                assert(out@.map_values(|t: TextInput| t.value@) =~= views(values@).take(i + 1));
                i = i + 1;
            }
            assert(views(values@).take(n as int) =~= views(values@));
            Some(out)
        },
        None => None,
    };
    let media_inputs = match &params.media_inputs {
        Some(vs) => {
            let values = input_values(vs);
            let mut out: Vec<MediaInput> = Vec::new();
            let n = values.len();
            let mut i: usize = 0;
            while i < n
                invariant
                    n == values@.len(),
                    i <= n,
                    out@.map_values(|m: MediaInput| m.value@) == views(values@).take(i as int),
                decreases n - i,
            {
                let ghost before = out@;
                out.push(MediaInput { value: values[i].clone() });
                assert(out@.map_values(|m: MediaInput| m.value@) =~= before.map_values(
                    |m: MediaInput| m.value@,
                ).push(views(values@)[i as int]));
                assert(out@.map_values(|m: MediaInput| m.value@) =~= views(values@).take(i + 1));
                i = i + 1;
            }
            assert(views(values@).take(n as int) =~= views(values@));
            Some(out)
        },
        None => None,
    };
    VideoTemplateGenerationRequest {
        template_id: params.template_id.clone(),
        text_inputs,
        media_inputs,
        callback_url: params.callback_url.clone(),
    }
}


/// The music model used when a request names none.
pub const DEFAULT_MUSIC_MODEL: &'static str = "music-2.6";
/// The model of cover songs.
pub const MUSIC_COVER_MODEL: &'static str = "music-cover";
/// Sample rate of generated audio.
pub const DEFAULT_SAMPLE_RATE: i32 = 32000;
/// Bit rate of generated audio.
pub const DEFAULT_BITRATE: i32 = 128000;
/// Format of generated audio.
pub const DEFAULT_FORMAT: &'static str = "mp3";
/// The speech model used when a request names none.
pub const DEFAULT_TTS_MODEL: &'static str = "speech-2.8-hd";
/// The lyrics mode used when a request names none.
pub const DEFAULT_LYRICS_MODE: &'static str = "write_full_song";

/// The music request for these parameters: the model defaults to `music-2.6` and the
/// format to `mp3`, at 32000 Hz and 128000 bit/s; no cover, no reference audio.
pub fn build_music_req(params: &GenerateMusicParams) -> (r: MusicGenerationRequest)
    ensures
        r.model@ == or_default(params.model, DEFAULT_MUSIC_MODEL@),
        r.prompt == params.prompt,
        r.lyrics == params.lyrics,
        r.audio_setting.sample_rate == DEFAULT_SAMPLE_RATE,
        r.audio_setting.bitrate == DEFAULT_BITRATE,
        r.audio_setting.format@ == or_default(params.format, DEFAULT_FORMAT@),
        r.output_format is None,
        r.audio_url is None,
        r.cover_feature_id is None,
        r.timbre is None,
        r.stream == params.stream,
        r.aigc_watermark == params.aigc_watermark,
        r.lyrics_optimizer == params.lyrics_optimizer,
        r.is_instrumental == params.is_instrumental,
{
    MusicGenerationRequest {
        model: string_or(&params.model, DEFAULT_MUSIC_MODEL),
        prompt: params.prompt.clone(),
        lyrics: params.lyrics.clone(),
        audio_setting: MusicAudioSetting {
            sample_rate: DEFAULT_SAMPLE_RATE,
            bitrate: DEFAULT_BITRATE,
            format: string_or(&params.format, DEFAULT_FORMAT),
        },
        output_format: None,
        audio_url: None,
        cover_feature_id: None,
        timbre: None,
        stream: params.stream,
        aigc_watermark: params.aigc_watermark,
        lyrics_optimizer: params.lyrics_optimizer,
        is_instrumental: params.is_instrumental,
    }
}

/// The cover request for a preprocessed song: model `music-cover`, prompt and lyrics
/// default to empty, `mp3` at 32000 Hz and 128000 bit/s.
pub fn build_music_cover_req(params: &GenerateMusicCoverParams, cover_feature_id: String) -> (r:
    MusicGenerationRequest)
    ensures
        r.model@ == MUSIC_COVER_MODEL@,
        r.prompt@ == or_default(params.prompt, Seq::empty()),
        r.lyrics@ == or_default(params.lyrics, Seq::empty()),
        r.audio_setting.sample_rate == DEFAULT_SAMPLE_RATE,
        r.audio_setting.bitrate == DEFAULT_BITRATE,
        r.audio_setting.format@ == DEFAULT_FORMAT@,
        r.cover_feature_id == Some(cover_feature_id),
        r.output_format is None,
        r.audio_url is None,
        r.timbre is None,
        r.stream is None,
        r.aigc_watermark is None,
        r.lyrics_optimizer is None,
        r.is_instrumental is None,
{
    proof {
        lemma_empty_literal();
    }
    MusicGenerationRequest {
        model: String::from_str(MUSIC_COVER_MODEL),
        prompt: string_or(&params.prompt, ""),
        lyrics: string_or(&params.lyrics, ""),
        audio_setting: MusicAudioSetting {
            sample_rate: DEFAULT_SAMPLE_RATE,
            bitrate: DEFAULT_BITRATE,
            format: String::from_str(DEFAULT_FORMAT),
        },
        output_format: None,
        audio_url: None,
        cover_feature_id: Some(cover_feature_id),
        timbre: None,
        stream: None,
        aigc_watermark: None,
        lyrics_optimizer: None,
        is_instrumental: None,
    }
}

/// The feature id that preprocessing a song gave, which a cover needs.
pub fn cover_feature(cover_feature_id: Option<String>) -> (r: Result<String, ProviderError>)
    ensures
        match cover_feature_id {
            Some(id) => r == Ok::<String, ProviderError>(id),
            None => r matches Err(ProviderError::Api(m)) && m@ == "cover_feature_id not found"@,
        },
{
    match cover_feature_id {
        Some(id) => Ok(id),
        None => Err(ProviderError::Api(String::from_str("cover_feature_id not found"))),
    }
}

/// The lyrics request for these parameters; the mode defaults to `write_full_song`.
pub fn build_lyrics_req(params: &GenerateLyricsParams) -> (r: LyricsGenerationRequest)
    ensures
        r.mode@ == or_default(params.mode, DEFAULT_LYRICS_MODE@),
        r.prompt == params.prompt,
        r.lyrics == params.lyrics,
        r.title == params.title,
{
    LyricsGenerationRequest {
        mode: string_or(&params.mode, DEFAULT_LYRICS_MODE),
        prompt: params.prompt.clone(),
        lyrics: params.lyrics.clone(),
        title: params.title.clone(),
    }
}

/// The lyrics of an answer.
pub fn lyrics_result(resp: LyricsGenerationResponse) -> (r: LyricsResult)
    ensures
        r.title == resp.song_title,
        r.style_tags == resp.style_tags,
        r.lyrics == resp.lyrics,
{
    LyricsResult { title: resp.song_title, style_tags: resp.style_tags, lyrics: resp.lyrics }
}

/// Audio decoded from hex text, or the error that reports why it could not be.
pub open spec fn decoded_audio(hex: Seq<char>, extension: Seq<char>, r: Result<MediaOutput, ProviderError>) -> bool {
    let b = vstd::utf8::encode_utf8(hex);
    if b.len() % 2 == 0 && forall|i: int| 0 <= i < b.len() ==> is_hex_digit(#[trigger] b[i]) {
        r matches Ok(MediaOutput::Bytes { data, extension: x }) && data@ == hex_bytes(b) && x@ == extension
    } else {
        r matches Err(ProviderError::Other(m)) && exists|e: HexError|
            hex_rejects(b, e) && m@ == "hex decode: "@ + hex_error_text(e)
    }
}

/// The audio of an answer: its hex text decoded, with this file extension. An answer
/// without audio is an API error with the message `missing`.
pub fn audio_output(hex: Option<String>, extension: String, missing: &str) -> (r: Result<MediaOutput, ProviderError>)
    ensures
        match hex {
            Some(h) => decoded_audio(h@, extension@, r),
            None => r matches Err(ProviderError::Api(m)) && m@ == missing@,
        },
{
    match hex {
        Some(h) => match hex_decode(h.as_str().as_bytes()) {
            Ok(data) => Ok(MediaOutput::Bytes { data, extension }),
            Err(e) => Err(ProviderError::Other(prefixed("hex decode: ", e.message().as_str()))),
        },
        None => Err(ProviderError::Api(String::from_str(missing))),
    }
}

/// The voices of a voice list answer. System and cloned voices carry an empty
/// description; a designed voice carries its description when the service gave one as
/// text, else an empty one.
pub fn voice_list_result(resp: VoiceListResponse) -> (r: VoiceListResult)
    ensures
        r.system@.len() == resp.system_voice@.len(),
        r.cloned@.len() == resp.voice_cloning@.len(),
        r.designed@.len() == resp.voice_generation@.len(),
        forall|i: int| 0 <= i < r.system@.len() ==> {
            &&& (#[trigger] r.system@[i]).voice_id == resp.system_voice@[i].voice_id
            &&& r.system@[i].voice_name == resp.system_voice@[i].voice_name
            &&& r.system@[i].description@ == Seq::<char>::empty()
        },
        forall|i: int| 0 <= i < r.cloned@.len() ==> {
            &&& (#[trigger] r.cloned@[i]).voice_id == resp.voice_cloning@[i].voice_id
            &&& r.cloned@[i].voice_name == resp.voice_cloning@[i].voice_name
            &&& r.cloned@[i].description@ == Seq::<char>::empty()
        },
        forall|i: int| 0 <= i < r.designed@.len() ==> {
            &&& (#[trigger] r.designed@[i]).voice_id == resp.voice_generation@[i].voice_id
            &&& r.designed@[i].description@ == or_default(resp.voice_generation@[i].description, Seq::empty())
        },
{
    let mut system: Vec<VoiceInfoOutput> = Vec::new();
    let mut i: usize = 0;
    while i < resp.system_voice.len()
        invariant
            i <= resp.system_voice@.len(),
            system@.len() == i,
            forall|j: int| 0 <= j < i ==> {
                &&& (#[trigger] system@[j]).voice_id == resp.system_voice@[j].voice_id
                &&& system@[j].voice_name == resp.system_voice@[j].voice_name
                &&& system@[j].description@ == Seq::<char>::empty()
            },
        decreases resp.system_voice@.len() - i,
    {
        let v = &resp.system_voice[i];
        system.push(VoiceInfoOutput { voice_id: v.voice_id.clone(), voice_name: v.voice_name.clone(), description: String::new() });
        i = i + 1;
    }
    let mut cloned: Vec<VoiceInfoOutput> = Vec::new();
    let mut i: usize = 0;
    while i < resp.voice_cloning.len()
        invariant
            i <= resp.voice_cloning@.len(),
            cloned@.len() == i,
            forall|j: int| 0 <= j < i ==> {
                &&& (#[trigger] cloned@[j]).voice_id == resp.voice_cloning@[j].voice_id
                &&& cloned@[j].voice_name == resp.voice_cloning@[j].voice_name
                &&& cloned@[j].description@ == Seq::<char>::empty()
            },
        decreases resp.voice_cloning@.len() - i,
    {
        let v = &resp.voice_cloning[i];
        cloned.push(VoiceInfoOutput { voice_id: v.voice_id.clone(), voice_name: v.voice_name.clone(), description: String::new() });
        i = i + 1;
    }
    proof {
        lemma_empty_literal();
    }
    let mut designed: Vec<VoiceDesignedOutput> = Vec::new();
    let mut i: usize = 0;
    while i < resp.voice_generation.len()
        invariant
            i <= resp.voice_generation@.len(),
            designed@.len() == i,
            forall|j: int| 0 <= j < i ==> {
                &&& (#[trigger] designed@[j]).voice_id == resp.voice_generation@[j].voice_id
                &&& designed@[j].description@ == or_default(resp.voice_generation@[j].description, Seq::empty())
            },
        decreases resp.voice_generation@.len() - i,
    {
        proof {
            lemma_empty_literal();
        }
        let v = &resp.voice_generation[i];
        designed.push(VoiceDesignedOutput { voice_id: v.voice_id.clone(), description: string_or(&v.description, "") });
        i = i + 1;
    }
    VoiceListResult { system, cloned, designed }
}

/// The clone request for an uploaded sample: the speech model is named exactly when a
/// preview text is given.
pub fn build_voice_clone_req(params: &VoiceCloneParams, file_id: i64) -> (r: VoiceCloneRequest)
    ensures
        r.file_id == file_id,
        r.voice_id == params.voice_id,
        r.text == params.text,
        r.model is Some <==> params.text is Some,
        r.model matches Some(m) ==> m@ == DEFAULT_TTS_MODEL@,
        r.language_boost == params.language_boost,
        r.need_noise_reduction == params.need_noise_reduction,
        r.need_volume_normalization == params.need_volume_normalization,
        r.aigc_watermark is None,
{
    let model = match &params.text {
        Some(_) => Some(String::from_str(DEFAULT_TTS_MODEL)),
        None => None,
    };
    VoiceCloneRequest {
        file_id,
        voice_id: params.voice_id.clone(),
        text: params.text.clone(),
        model,
        language_boost: params.language_boost.clone(),
        need_noise_reduction: params.need_noise_reduction,
        need_volume_normalization: params.need_volume_normalization,
        aigc_watermark: None,
    }
}

/// The id of an uploaded file, or `upload failed` when the answer names none.
pub fn uploaded_file_id(file_id: Option<i64>) -> (r: Result<i64, ProviderError>)
    ensures
        match file_id {
            Some(id) => r == Ok::<i64, ProviderError>(id),
            None => r matches Err(ProviderError::Api(m)) && m@ == "upload failed"@,
        },
{
    match file_id {
        Some(id) => Ok(id),
        None => Err(ProviderError::Api(String::from_str("upload failed"))),
    }
}

/// The cloned voice: the requested id, and the demo audio URL when there is one.
pub fn voice_clone_result(voice_id: String, demo_audio: Option<String>) -> (r: VoiceCloneResult)
    ensures
        r.voice_id == voice_id,
        match demo_audio {
            Some(u) => r.demo_audio == Some(MediaOutput::Url(u)),
            None => r.demo_audio is None,
        },
{
    let demo = match demo_audio {
        Some(u) => Some(MediaOutput::Url(u)),
        None => None,
    };
    VoiceCloneResult { voice_id, demo_audio: demo }
}

/// The chat model used when a request names none.
pub const DEFAULT_CHAT_MODEL: &'static str = "MiniMax-M3";
/// The token limit of a chat request that sets none.
pub const DEFAULT_CHAT_MAX_TOKENS: i32 = 4096;
/// The text of a chat answer that has no text block.
pub const EMPTY_CHAT_TEXT: &'static str = "聊天完成，但无文本输出。";

/// The texts of the answer's `text` blocks that carry text, in order.
pub open spec fn chat_texts(blocks: Seq<crate::types::ChatContentBlock>) -> Seq<Seq<char>>
    decreases blocks.len(),
{
    if blocks.len() == 0 {
        Seq::empty()
    } else {
        let r = chat_texts(blocks.drop_last());
        let b = blocks.last();
        if b.block_type@ == "text"@ && b.text is Some {
            r.push(b.text->Some_0@)
        } else {
            r
        }
    }
}

/// A chat answer as a provider result: its text blocks joined by newlines (a fixed
/// note when there is none), its model, and the token counts it reports.
pub fn chat_output(resp: ChatResponse) -> (r: ChatOutput)
    ensures
        chat_texts(resp.content@).len() == 0 ==> r.text@ == EMPTY_CHAT_TEXT@,
        chat_texts(resp.content@).len() > 0 ==> r.text@ == crate::text::joined(chat_texts(resp.content@), "\n"@),
        r.model == resp.model,
        r.input_tokens == match resp.usage {
            Some(u) => u.input_tokens,
            None => None,
        },
        r.output_tokens == match resp.usage {
            Some(u) => u.output_tokens,
            None => None,
        },
{
    let mut texts: Vec<String> = Vec::new();
    let n = resp.content.len();
    let mut i: usize = 0;
    while i < n
        invariant
            n == resp.content@.len(),
            i <= n,
            views(texts@) == chat_texts(resp.content@.take(i as int)),
        decreases n - i,
    {
        assert(resp.content@.take(i + 1).drop_last() =~= resp.content@.take(i as int));
        let b = &resp.content[i];
        if compare_str(b.block_type.as_str(), "text") == StrOrder::Equal {
            match &b.text {
                Some(t) => {
                    let ghost before = texts@;
                    texts.push(t.clone());
                    assert(views(texts@) =~= views(before).push(t@));
                },
                None => {},
            }
        }
        i = i + 1;
    }
    assert(resp.content@.take(n as int) =~= resp.content@);
    let text = if texts.len() == 0 {
        String::from_str(EMPTY_CHAT_TEXT)
    } else {
        crate::text::join(&texts, "\n")
    };
    let (input_tokens, output_tokens) = match &resp.usage {
        Some(u) => (u.input_tokens, u.output_tokens),
        None => (None, None),
    };
    ChatOutput { text, model: resp.model, input_tokens, output_tokens }
}

/// The results of a search answer: each organic result's title, link, snippet and
/// date, and the related queries.
pub fn search_output(resp: SearchResponse) -> (r: SearchOutput)
    ensures
        r.results@.len() == resp.organic@.len(),
        forall|i: int| 0 <= i < r.results@.len() ==> {
            &&& (#[trigger] r.results@[i]).title == resp.organic@[i].title
            &&& r.results@[i].url == resp.organic@[i].link
            &&& r.results@[i].snippet == resp.organic@[i].snippet
            &&& r.results@[i].date == resp.organic@[i].date
        },
        r.related@.len() == resp.related_searches@.len(),
        forall|i: int| 0 <= i < r.related@.len() ==> #[trigger] r.related@[i] == resp.related_searches@[i].query,
{
    let mut results: Vec<SearchResultItem> = Vec::new();
    let mut i: usize = 0;
    while i < resp.organic.len()
        invariant
            i <= resp.organic@.len(),
            results@.len() == i,
            forall|j: int| 0 <= j < i ==> {
                &&& (#[trigger] results@[j]).title == resp.organic@[j].title
                &&& results@[j].url == resp.organic@[j].link
                &&& results@[j].snippet == resp.organic@[j].snippet
                &&& results@[j].date == resp.organic@[j].date
            },
        decreases resp.organic@.len() - i,
    {
        let o = &resp.organic[i];
        results.push(SearchResultItem { title: o.title.clone(), url: o.link.clone(), snippet: o.snippet.clone(), date: o.date.clone() });
        i = i + 1;
    }
    let mut related: Vec<String> = Vec::new();
    let mut i: usize = 0;
    while i < resp.related_searches.len()
        invariant
            i <= resp.related_searches@.len(),
            related@.len() == i,
            forall|j: int| 0 <= j < i ==> #[trigger] related@[j] == resp.related_searches@[j].query,
        decreases resp.related_searches@.len() - i,
    {
        related.push(resp.related_searches[i].query.clone());
        i = i + 1;
    }
    SearchOutput { results, related }
}

/// The answer of image understanding, or a fixed note when there is none.
pub fn vlm_text(content: Option<String>) -> (r: String)
    ensures
        r@ == or_default(content, "No content returned"@),
{
    match content {
        Some(c) => c,
        None => String::from_str("No content returned"),
    }
}

/// The generated images as URLs, in order; none when the answer has no data.
pub fn image_outputs(data: Option<ImageData>) -> (r: Vec<MediaOutput>)
    ensures
        match data {
            Some(d) => r@.len() == d.image_urls@.len() && forall|i: int| 0 <= i < r@.len() ==> #[trigger] r@[i]
                == MediaOutput::Url(d.image_urls@[i]),
            None => r@.len() == 0,
        },
{
    let mut r: Vec<MediaOutput> = Vec::new();
    match data {
        Some(d) => {
            let mut i: usize = 0;
            while i < d.image_urls.len()
                invariant
                    i <= d.image_urls@.len(),
                    r@.len() == i,
                    forall|j: int| 0 <= j < i ==> #[trigger] r@[j] == MediaOutput::Url(d.image_urls@[j]),
                decreases d.image_urls@.len() - i,
            {
                r.push(MediaOutput::Url(d.image_urls[i].clone()));
                i = i + 1;
            }
        },
        None => {},
    }
    r
}

/// The file found by a lookup, or `not found: file_id=<id>`.
pub fn retrieved_file(file_id: i64, file: Option<FileInfoResult>) -> (r: Result<FileInfoResult, ProviderError>)
    ensures
        match file {
            Some(f) => r == Ok::<FileInfoResult, ProviderError>(f),
            None => r matches Err(ProviderError::NotFound(m)) && m@ == "file_id="@
                + crate::text::signed_decimal(file_id as int),
        },
{
    match file {
        Some(f) => Ok(f),
        None => Err(ProviderError::NotFound(prefixed("file_id=", i64_to_string(file_id).as_str()))),
    }
}

/// What a poll of a video task decides once the status is read.
#[derive(Debug, Clone)]
pub enum VideoQueryStep {
    /// The task succeeded: fetch the download URL of this file.
    FetchUrl(String),
    /// The task's result is known without another call.
    Done(AsyncTaskResult),
}

/// A video task's status decides: `Success` fetches the URL of its file (`N/A` when it
/// names none), `Fail` is a failed task, anything else is still pending.
pub fn video_query_step(status: String, file_id: Option<String>) -> (r: VideoQueryStep)
    ensures
        status@ == "Success"@ ==> (r matches VideoQueryStep::FetchUrl(f) && f@ == or_default(file_id, "N/A"@)),
        status@ == "Fail"@ ==> (r matches VideoQueryStep::Done(AsyncTaskResult::Failed { message }) && message@
            == "Video generation failed"@),
        status@ != "Success"@ && status@ != "Fail"@ ==> (r matches VideoQueryStep::Done(
            AsyncTaskResult::Pending { status: s },
        ) && s == status),
{
    proof {
        reveal_strlit("Success");
        reveal_strlit("Fail");
        assert("Success"@.len() != "Fail"@.len());
    }
    if compare_str(status.as_str(), "Success") == StrOrder::Equal {
        VideoQueryStep::FetchUrl(string_or(&file_id, "N/A"))
    } else if compare_str(status.as_str(), "Fail") == StrOrder::Equal {
        VideoQueryStep::Done(AsyncTaskResult::Failed { message: String::from_str("Video generation failed") })
    } else {
        VideoQueryStep::Done(AsyncTaskResult::Pending { status })
    }
}

/// A video template task's status decides: `Success` completes with its video URL
/// (`N/A` when it gives none or an empty one), `Fail` is a failed task, anything else
/// is still pending.
pub fn video_agent_result(status: String, video_url: Option<String>) -> (r: AsyncTaskResult)
    ensures
        status@ == "Success"@ ==> (r matches AsyncTaskResult::Completed(MediaOutput::Url(u)) && u@ == (
        if or_default(video_url, Seq::empty()).len() == 0 {
            "N/A"@
        } else {
            or_default(video_url, Seq::empty())
        })),
        status@ == "Fail"@ ==> (r matches AsyncTaskResult::Failed { message } && message@ == "Video Agent task failed"@),
        status@ != "Success"@ && status@ != "Fail"@ ==> (r matches AsyncTaskResult::Pending { status: s } && s == status),
{
    proof {
        reveal_strlit("Success");
        reveal_strlit("Fail");
        assert("Success"@.len() != "Fail"@.len());
        lemma_empty_literal();
    }
    if compare_str(status.as_str(), "Success") == StrOrder::Equal {
        let url = string_or(&video_url, "");
        if url.unicode_len() == 0 {
            AsyncTaskResult::Completed(MediaOutput::Url(String::from_str("N/A")))
        } else {
            AsyncTaskResult::Completed(MediaOutput::Url(url))
        }
    } else if compare_str(status.as_str(), "Fail") == StrOrder::Equal {
        AsyncTaskResult::Failed { message: String::from_str("Video Agent task failed") }
    } else {
        AsyncTaskResult::Pending { status }
    }
}

/// The task id of a template submission, or `N/A`.
pub fn template_task_id(task_id: Option<String>) -> (r: String)
    ensures
        r@ == or_default(task_id, "N/A"@),
{
    string_or(&task_id, "N/A")
}

/// The handle of a submitted asynchronous speech task: its id in decimal, and the file
/// id and character count the service reported.
pub fn async_tts_handle(task_id: i64, file_id: i64, usage_characters: i32) -> (r: AsyncTaskHandle)
    ensures
        r.task_id@ == crate::text::signed_decimal(task_id as int),
        r.extra == Some(AsyncExtra { file_id, usage_characters }),
{
    AsyncTaskHandle { task_id: i64_to_string(task_id), extra: Some(AsyncExtra { file_id, usage_characters }) }
}

/// What a poll of an asynchronous speech task decides once the status is read.
#[derive(Debug, Clone)]
pub enum AsyncTtsStep {
    /// The task failed or expired, with this message.
    Failed(String),
    /// Fetch the archive of this file.
    Fetch(i64),
}

/// `Failed` and `Expired` end the task with a message naming the status and task id;
/// any other status fetches the task's file (the task id when the answer names none).
pub fn async_tts_step(status: String, file_id: Option<i64>, task_id: i64) -> (r: AsyncTtsStep)
    ensures
        status@ == "Failed"@ || status@ == "Expired"@ ==> (r matches AsyncTtsStep::Failed(m) && m@ == "Task status: "@
            + status@ + " (task_id: "@ + crate::text::signed_decimal(task_id as int) + ")"@),
        !(status@ == "Failed"@ || status@ == "Expired"@) ==> r == AsyncTtsStep::Fetch(
            match file_id {
                Some(f) => f,
                None => task_id,
            },
        ),
{
    if compare_str(status.as_str(), "Failed") == StrOrder::Equal || compare_str(status.as_str(), "Expired")
        == StrOrder::Equal {
        let mut m = prefixed("Task status: ", status.as_str());
        m.append(" (task_id: ");
        m.append(i64_to_string(task_id).as_str());
        m.append(")");
        AsyncTtsStep::Failed(m)
    } else {
        let f = match file_id {
            Some(f) => f,
            None => task_id,
        };
        AsyncTtsStep::Fetch(f)
    }
}


/// A task id given as text, read as an integer: `invalid task_id: ...` when it is not
/// one.
pub fn parse_task_id(task_id: &str) -> (r: Result<i64, ProviderError>)
    ensures
        r is Ok <==> (integer_text_value(task_id@) matches Some(v) && i64::MIN <= v <= i64::MAX),
        r matches Ok(v) ==> integer_text_value(task_id@) == Some(v as int),
        r matches Err(e) ==> (e matches ProviderError::Other(m) && exists|d: Seq<char>| m@ == "invalid task_id: "@ + d),
{
    match parse_i64(task_id) {
        Ok(v) => Ok(v),
        Err(m) => Err(ProviderError::Other(prefixed("invalid task_id: ", m.as_str()))),
    }
}

/// The step of reading a tar archive that failed.
#[derive(Debug, Clone, Copy, PartialEq, Eq, Structural)]
pub enum TarStage {
    /// Opening the list of entries.
    Read,
    /// Reading an entry's header.
    Entry,
    /// Reading an entry's path.
    Path,
    /// Reading an entry's contents.
    Extract,
}

/// The path of entry `k` of `data` read as a tar archive, as `Archive::entries` and
/// `nth(k)` give it: `None` when the archive has no such entry, or the step that failed
/// and the text of its error.
pub uninterp spec fn tar_entry_path_at(data: Seq<u8>, k: nat) -> Result<Option<Seq<char>>, (TarStage, Seq<char>)>;

/// The contents of entry `k` of `data` read as a tar archive: `None` when the archive
/// has no such entry, or the step that failed and the text of its error.
pub uninterp spec fn tar_entry_contents_at(data: Seq<u8>, k: nat) -> Option<Result<Seq<u8>, (TarStage, Seq<char>)>>;

/// Trusted: opens `data` as a tar archive (`tar::Archive::new`, `entries`), takes entry
/// `k` (`nth(k)`) and its `path`, made text with `to_string_lossy`; an error is tagged
/// with the call that gave it. The result is named `tar_entry_path_at(data, k)`. Every
/// entry starts with a header block of 512 bytes read from `data` past the previous
/// one, so entry `k` exists only when `k` is below the length of `data`.
#[verifier::external_body]
fn tar_entry_path(data: &[u8], k: usize) -> (r: Result<Option<String>, (TarStage, String)>)
    ensures
        tar_entry_path_at(data@, k as nat) == match r {
            Ok(o) => Ok(opt_view(o)),
            Err(m) => Err((m.0, m.1@)),
        },
        r matches Ok(Some(_)) ==> (k as int) < data@.len(),
{
    let mut archive = tar::Archive::new(data);
    let mut entries = archive.entries().map_err(|e| (TarStage::Read, e.to_string()))?;
    match entries.nth(k) {
        None => Ok(None),
        Some(Err(e)) => Err((TarStage::Entry, e.to_string())),
        Some(Ok(entry)) => match entry.path() {
            Ok(p) => Ok(Some(p.to_string_lossy().into_owned())),
            Err(e) => Err((TarStage::Path, e.to_string())),
        },
    }
}

/// Trusted: opens `data` as a tar archive (`tar::Archive::new`, `entries`), takes entry
/// `k` (`nth(k)`) and reads its contents (`read_to_end`); an error is tagged with the
/// call that gave it. The result is named `tar_entry_contents_at(data, k)`. Both items
/// read the same archive the same way, so there is no entry `k` here exactly when
/// `tar_entry_path` finds none.
#[verifier::external_body]
fn tar_entry_contents(data: &[u8], k: usize) -> (r: Option<Result<Vec<u8>, (TarStage, String)>>)
    ensures
        tar_entry_contents_at(data@, k as nat) == match r {
            None => None,
            Some(Ok(b)) => Some(Ok(b@)),
            Some(Err(m)) => Some(Err((m.0, m.1@))),
        },
        r is None ==> (tar_entry_path_at(data@, k as nat) matches Ok(None)),
{
    let mut archive = tar::Archive::new(data);
    let mut entries = match archive.entries() {
        Ok(e) => e,
        Err(e) => return Some(Err((TarStage::Read, e.to_string()))),
    };
    match entries.nth(k) {
        None => None,
        Some(Err(e)) => Some(Err((TarStage::Entry, e.to_string()))),
        Some(Ok(mut entry)) => {
            let mut out = Vec::new();
            Some(std::io::Read::read_to_end(&mut entry, &mut out).map(|_| out).map_err(|e| (TarStage::Extract, e.to_string())))
        },
    }
}

/// What looking for the first MP3 of an archive from entry `k` on gives: the contents of
/// the first entry whose path ends with `.mp3`; `Err(None)` when the entries run out
/// first; or the step that failed and its error text, entries being read in order and
/// only the MP3's contents being read.
pub open spec fn mp3_search(data: Seq<u8>, k: nat) -> Result<Seq<u8>, Option<(TarStage, Seq<char>)>>
    decreases data.len() - k,
{
    match tar_entry_path_at(data, k) {
        Err(e) => Err(Some(e)),
        Ok(None) => Err(None),
        Ok(Some(p)) => if ends_with(p, ".mp3"@) {
            match tar_entry_contents_at(data, k) {
                Some(Ok(b)) => Ok(b),
                Some(Err(e)) => Err(Some(e)),
                None => Err(None),
            }
        } else if k < data.len() {
            mp3_search(data, k + 1)
        } else {
            Err(None)
        },
    }
}

/// Reads the entries of a tar archive in order until the first whose path ends with
/// `.mp3`, and reads that one's contents.
pub fn find_mp3_in_tar(data: &[u8]) -> (r: Result<Vec<u8>, Option<(TarStage, String)>>)
    ensures
        mp3_search(data@, 0) == match r {
            Ok(b) => Ok(b@),
            Err(None) => Err(None),
            Err(Some(m)) => Err(Some((m.0, m.1@))),
        },
{
    let n = data.len();
    let mut k: usize = 0;
    loop
        invariant
            n == data@.len(),
            k <= data@.len(),
            mp3_search(data@, 0) == mp3_search(data@, k as nat),
        decreases data@.len() - k,
    {
        let found = tar_entry_path(data, k);
        match found {
            Err(m) => {
                return Err(Some(m));
            },
            Ok(None) => {
                return Err(None);
            },
            Ok(Some(p)) => {
                if str_ends_with(p.as_str(), ".mp3") {
                    return match tar_entry_contents(data, k) {
                        Some(Ok(b)) => Ok(b),
                        Some(Err(m)) => Err(Some(m)),
                        None => Err(None),
                    };
                }
                assert(k < n);
                k = k + 1;
            },
        }
    }
}

/// The message when an archive holds no MP3 file.
pub const NO_MP3_MESSAGE: &'static str = "tar 包中未找到 mp3 文件";

/// The audio of an asynchronous speech task's archive, or why it could not be had: an
/// unreadable archive (the error's text), or one without an MP3 file.
pub fn mp3_from_tar(data: &[u8]) -> (r: Result<MediaOutput, ProviderError>)
    ensures
        match mp3_search(data@, 0) {
            Ok(b) => r matches Ok(MediaOutput::Bytes { data, extension }) && data@ == b && extension@ == "mp3"@,
            Err(None) => r matches Err(ProviderError::Other(m)) && m@ == NO_MP3_MESSAGE@,
            Err(Some(e)) => r matches Err(ProviderError::Other(t)) && t@ == e.1,
        },
{
    match find_mp3_in_tar(data) {
        Ok(b) => Ok(MediaOutput::Bytes { data: b, extension: String::from_str("mp3") }),
        Err(None) => Err(ProviderError::Other(String::from_str(NO_MP3_MESSAGE))),
        Err(Some(m)) => Err(ProviderError::Other(m.1)),
    }
}


/// The voice used when a speech request names none.
pub const DEFAULT_VOICE_ID: &'static str = "female-shaonv";
/// Channels of synchronous and streamed speech when a request sets none.
pub const DEFAULT_CHANNEL: i32 = 1;
/// Channels of asynchronous speech when a request sets none.
pub const DEFAULT_CHANNEL_ASYNC: i32 = 2;
/// The language boost of speech requests that set none.
pub const DEFAULT_LANGUAGE_BOOST: &'static str = "auto";

/// The settings of a speech request that have defaults.
#[derive(Debug, Clone)]
pub struct SpeechChoice {
    pub model: String,
    pub voice_id: String,
    pub sample_rate: i32,
    pub bitrate: i32,
    pub format: String,
}

/// The settings of a speech request with their defaults filled in: model
/// `speech-2.8-hd`, voice `female-shaonv`, 32000 Hz, 128000 bit/s, `mp3`.
pub fn speech_choice(
    model: &Option<String>,
    voice_id: &Option<String>,
    sample_rate: Option<i32>,
    bitrate: Option<i32>,
    format: &Option<String>,
) -> (r: SpeechChoice)
    ensures
        r.model@ == or_default(*model, DEFAULT_TTS_MODEL@),
        r.voice_id@ == or_default(*voice_id, DEFAULT_VOICE_ID@),
        r.sample_rate == match sample_rate {
            Some(v) => v,
            None => DEFAULT_SAMPLE_RATE,
        },
        r.bitrate == match bitrate {
            Some(v) => v,
            None => DEFAULT_BITRATE,
        },
        r.format@ == or_default(*format, DEFAULT_FORMAT@),
{
    SpeechChoice {
        model: string_or(model, DEFAULT_TTS_MODEL),
        voice_id: string_or(voice_id, DEFAULT_VOICE_ID),
        sample_rate: match sample_rate {
            Some(v) => v,
            None => DEFAULT_SAMPLE_RATE,
        },
        bitrate: match bitrate {
            Some(v) => v,
            None => DEFAULT_BITRATE,
        },
        format: string_or(format, DEFAULT_FORMAT),
    }
}

/// The model and token limit of a chat request: `MiniMax-M3` and 4096 unless given.
pub fn chat_choice(model: &Option<String>, max_tokens: Option<i32>) -> (r: (String, Option<i32>))
    ensures
        r.0@ == or_default(*model, DEFAULT_CHAT_MODEL@),
        r.1 == Some(
            match max_tokens {
                Some(t) => t,
                None => DEFAULT_CHAT_MAX_TOKENS,
            },
        ),
{
    let t = match max_tokens {
        Some(t) => t,
        None => DEFAULT_CHAT_MAX_TOKENS,
    };
    (string_or(model, DEFAULT_CHAT_MODEL), Some(t))
}

/// The image model used when a request names none.
pub const DEFAULT_IMAGE_MODEL: &'static str = "image-01";


/// The word that names a failed step of reading an archive.
pub open spec fn stage_word(st: TarStage) -> Seq<char> {
    match st {
        TarStage::Read => "read"@,
        TarStage::Entry => "entry"@,
        TarStage::Path => "path"@,
        TarStage::Extract => "extract"@,
    }
}

/// The MP3 of an asynchronous speech archive as the client extracts it: the contents of
/// the first entry whose path ends with `.mp3`; an API error (code -1) naming the step
/// that failed, or `no mp3 found in tar`.
pub fn extract_mp3(data: &[u8]) -> (r: Result<Vec<u8>, MiniMaxError>)
    ensures
        match mp3_search(data@, 0) {
            Ok(b) => r matches Ok(v) && v@ == b,
            Err(Some(m)) => r matches Err(MiniMaxError::Api { code, message, trace_id }) && code == -1
                && message@ == "tar "@ + stage_word(m.0) + " error: "@ + m.1 && trace_id is None,
            Err(None) => r matches Err(MiniMaxError::Api { code, message, trace_id }) && code == -1
                && message@ == "no mp3 found in tar"@ && trace_id is None,
        },
{
    match find_mp3_in_tar(data) {
        Ok(b) => Ok(b),
        Err(None) => Err(MiniMaxError::Api { code: -1, message: String::from_str("no mp3 found in tar"), trace_id: None }),
        Err(Some(m)) => {
            let word = match m.0 {
                TarStage::Read => "read",
                TarStage::Entry => "entry",
                TarStage::Path => "path",
                TarStage::Extract => "extract",
            };
            let mut message = prefixed("tar ", word);
            message.append(" error: ");
            message.append(m.1.as_str());
            Err(MiniMaxError::Api { code: -1, message, trace_id: None })
        },
    }
}

} // verus!
