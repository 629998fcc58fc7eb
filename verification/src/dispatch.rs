//! How a subagent's tool call is routed: to one of the catalog's tools, to a nested
//! subagent, or refused; and how a tool's answer is handed back to the model.

use vstd::prelude::*;
use vstd::string::*;

use crate::error::{prefixed, MiniMaxError};
use crate::jsontext::opt_view;
use crate::lexorder::{compare_str, StrOrder};
use crate::providers::somes;
use crate::subagent::catalog::tool_names;
use crate::subagent::registry::SubagentRegistry;
use crate::subagent::types::{DispatchResult, SubagentDef};
use crate::text::{join, joined, views};

verus! {

/// The tool a call is routed to.
#[derive(Debug, Clone, Copy, PartialEq, Eq, Structural)]
pub enum ToolRoute {
    TextToAudio,
    TextToAudioStream,
    GenerateAudioAsync,
    QueryAudioTask,
    ListVoices,
    VoiceClone,
    VoiceDesign,
    DeleteVoice,
    GenerateImage,
    UnderstandImage,
    GenerateVideo,
    QueryVideo,
    GenerateVideoAgent,
    QueryVideoAgent,
    GenerateMusic,
    GenerateLyrics,
    GenerateMusicCover,
    Chat,
    WebSearch,
    ListFiles,
    RetrieveFile,
    DeleteFile,
    QueryUsage,
    RunSubagent,
}

/// The catalog position of each route.
pub open spec fn route_index(r: ToolRoute) -> int {
    match r {
        ToolRoute::TextToAudio => 0,
        ToolRoute::TextToAudioStream => 1,
        ToolRoute::GenerateAudioAsync => 2,
        ToolRoute::QueryAudioTask => 3,
        ToolRoute::ListVoices => 4,
        ToolRoute::VoiceClone => 5,
        ToolRoute::VoiceDesign => 6,
        ToolRoute::DeleteVoice => 7,
        ToolRoute::GenerateImage => 8,
        ToolRoute::UnderstandImage => 9,
        ToolRoute::GenerateVideo => 10,
        ToolRoute::QueryVideo => 11,
        ToolRoute::GenerateVideoAgent => 12,
        ToolRoute::QueryVideoAgent => 13,
        ToolRoute::GenerateMusic => 14,
        ToolRoute::GenerateLyrics => 15,
        ToolRoute::GenerateMusicCover => 16,
        ToolRoute::Chat => 17,
        ToolRoute::WebSearch => 18,
        ToolRoute::ListFiles => 19,
        ToolRoute::RetrieveFile => 20,
        ToolRoute::DeleteFile => 21,
        ToolRoute::QueryUsage => 22,
        ToolRoute::RunSubagent => 23,
    }
}

/// The tool name a route serves: the catalog's name at the route's position.
pub open spec fn route_name(r: ToolRoute) -> Seq<char> {
    tool_names()[route_index(r)]
}

/// The tool each route runs, by the name of that tool.
pub open spec fn served_tool(r: ToolRoute) -> Seq<char> {
    match r {
        ToolRoute::TextToAudio => "text_to_audio"@,
        ToolRoute::TextToAudioStream => "text_to_audio_stream"@,
        ToolRoute::GenerateAudioAsync => "generate_audio_async"@,
        ToolRoute::QueryAudioTask => "query_audio_task"@,
        ToolRoute::ListVoices => "list_voices"@,
        ToolRoute::VoiceClone => "voice_clone"@,
        ToolRoute::VoiceDesign => "voice_design"@,
        ToolRoute::DeleteVoice => "delete_voice"@,
        ToolRoute::GenerateImage => "generate_image"@,
        ToolRoute::UnderstandImage => "understand_image"@,
        ToolRoute::GenerateVideo => "generate_video"@,
        ToolRoute::QueryVideo => "query_video"@,
        ToolRoute::GenerateVideoAgent => "generate_video_agent"@,
        ToolRoute::QueryVideoAgent => "query_video_agent"@,
        ToolRoute::GenerateMusic => "generate_music"@,
        ToolRoute::GenerateLyrics => "generate_lyrics"@,
        ToolRoute::GenerateMusicCover => "generate_music_cover"@,
        ToolRoute::Chat => "chat"@,
        ToolRoute::WebSearch => "web_search"@,
        ToolRoute::ListFiles => "list_files"@,
        ToolRoute::RetrieveFile => "retrieve_file"@,
        ToolRoute::DeleteFile => "delete_file"@,
        ToolRoute::QueryUsage => "query_usage"@,
        ToolRoute::RunSubagent => "run_subagent"@,
    }
}

/// Every route stands at the catalog position of the tool it runs, so routing a name of
/// the catalog reaches the tool of that very name: `generate_music` the music tool,
/// `generate_lyrics` the lyrics tool, and so on for each tool.
pub proof fn law_each_route_serves_its_own_tool(r: ToolRoute)
    ensures
        0 <= route_index(r) < tool_names().len(),
        tool_names()[route_index(r)] == served_tool(r),
        route_name(r) == served_tool(r),
{
}

/// The route at a catalog position.
fn route_at(k: usize) -> (r: ToolRoute)
    requires
        k < 24,
    ensures
        route_index(r) == k,
{
    if k == 0 { ToolRoute::TextToAudio }
    else if k == 1 { ToolRoute::TextToAudioStream }
    else if k == 2 { ToolRoute::GenerateAudioAsync }
    else if k == 3 { ToolRoute::QueryAudioTask }
    else if k == 4 { ToolRoute::ListVoices }
    else if k == 5 { ToolRoute::VoiceClone }
    else if k == 6 { ToolRoute::VoiceDesign }
    else if k == 7 { ToolRoute::DeleteVoice }
    else if k == 8 { ToolRoute::GenerateImage }
    else if k == 9 { ToolRoute::UnderstandImage }
    else if k == 10 { ToolRoute::GenerateVideo }
    else if k == 11 { ToolRoute::QueryVideo }
    else if k == 12 { ToolRoute::GenerateVideoAgent }
    else if k == 13 { ToolRoute::QueryVideoAgent }
    else if k == 14 { ToolRoute::GenerateMusic }
    else if k == 15 { ToolRoute::GenerateLyrics }
    else if k == 16 { ToolRoute::GenerateMusicCover }
    else if k == 17 { ToolRoute::Chat }
    else if k == 18 { ToolRoute::WebSearch }
    else if k == 19 { ToolRoute::ListFiles }
    else if k == 20 { ToolRoute::RetrieveFile }
    else if k == 21 { ToolRoute::DeleteFile }
    else if k == 22 { ToolRoute::QueryUsage }
    else { ToolRoute::RunSubagent }
}

/// Routes a tool call by name. Every name of the tool catalog is routed to the tool of
/// that name; any other name is refused with `unknown tool '<name>' (not in subagent
/// catalog)`.
pub fn route_tool(name: &str) -> (r: Result<ToolRoute, MiniMaxError>)
    ensures
        r is Ok <==> tool_names().contains(name@),
        r matches Ok(t) ==> route_name(t) == name@ && served_tool(t) == name@,
        r matches Err(e) ==> (e matches MiniMaxError::Config(m) && m@ == "unknown tool '"@ + name@
            + "' (not in subagent catalog)"@),
{
    let names = [
        "text_to_audio",
        "text_to_audio_stream",
        "generate_audio_async",
        "query_audio_task",
        "list_voices",
        "voice_clone",
        "voice_design",
        "delete_voice",
        "generate_image",
        "understand_image",
        "generate_video",
        "query_video",
        "generate_video_agent",
        "query_video_agent",
        "generate_music",
        "generate_lyrics",
        "generate_music_cover",
        "chat",
        "web_search",
        "list_files",
        "retrieve_file",
        "delete_file",
        "query_usage",
        "run_subagent",
    ];
    let ghost ts = tool_names();
    let mut k: usize = 0;
    while k < 24
        invariant
            k <= 24,
            names@.len() == 24,
            ts == tool_names(),
            ts.len() == 24,
            forall|j: int| 0 <= j < 24 ==> (#[trigger] names@[j])@ == ts[j],
            forall|j: int| 0 <= j < k ==> ts[j] != name@,
        decreases 24 - k,
    {
        if compare_str(names[k], name) == StrOrder::Equal {
            let r = route_at(k);
            assert(ts[k as int] == name@);
            proof {
                law_each_route_serves_its_own_tool(r);
            }
            return Ok(r);
        }
        k = k + 1;
    }
    let mut m = prefixed("unknown tool '", name);
    m.append("' (not in subagent catalog)");
    Err(MiniMaxError::Config(m))
}

/// The output handed back to the model for a tool's answer: its text parts joined by
/// newlines (other parts left out); never an error.
pub fn text_result(contents: &Vec<Option<String>>) -> (r: DispatchResult)
    ensures
        r.output@ == joined(somes(contents@.map_values(|o: Option<String>| opt_view(o))), "\n"@),
        !r.is_error,
{
    let texts = crate::providers::present_strings(contents.clone());
    DispatchResult { output: join(&texts, "\n"), is_error: false }
}

/// The subagent a call names, or the error that it is unknown. With `hint`, the error
/// points to `list_subagents`.
pub fn lookup_subagent<'a>(registry: &'a SubagentRegistry, name: &str, hint: bool) -> (r: Result<
    &'a SubagentDef,
    MiniMaxError,
>)
    requires
        registry.wf(),
    ensures
        r is Ok <==> registry@.contains_key(name@),
        r matches Ok(d) ==> *d == registry@[name@],
        r matches Err(e) ==> (e matches MiniMaxError::Config(m) && m@ == "subagent '"@ + name@ + (if hint {
            "' not found. Use list_subagents to see available subagents."@
        } else {
            "' not found"@
        })),
{
    match registry.get(name) {
        Some(d) => Ok(d),
        None => {
            let mut m = prefixed("subagent '", name);
            if hint {
                m.append("' not found. Use list_subagents to see available subagents.");
            } else {
                m.append("' not found");
            }
            Err(MiniMaxError::Config(m))
        },
    }
}

/// A copy of a list of strings.
fn copy_strings(v: &Vec<String>) -> (r: Vec<String>)
    ensures
        r@ == v@,
{
    let mut r: Vec<String> = Vec::new();
    let n = v.len();
    let mut i: usize = 0;
    while i < n
        invariant
            n == v@.len(),
            i <= n,
            r@ == v@.take(i as int),
        decreases n - i,
    {
        r.push(v[i].clone());
        assert(r@ =~= v@.take(i + 1));
        i = i + 1;
    }
    assert(v@.take(n as int) =~= v@);
    r
}

/// The subagent as a run sees it: a whitelist given with the call replaces its own.
pub fn with_allowed_tools(def: &SubagentDef, allowed: &Option<Vec<String>>) -> (r: SubagentDef)
    ensures
        r.name == def.name,
        r.description == def.description,
        r.system == def.system,
        r.model == def.model,
        r.max_tokens == def.max_tokens,
        r.temperature_bits == def.temperature_bits,
        r.max_iterations == def.max_iterations,
        r.max_depth == def.max_depth,
        match allowed {
            Some(a) => r.allowed_tools matches Some(t) && t@ == a@,
            None => match def.allowed_tools {
                Some(a) => r.allowed_tools matches Some(t) && t@ == a@,
                None => r.allowed_tools is None,
            },
        },
{
    let tools = match allowed {
        Some(a) => Some(copy_strings(a)),
        None => match &def.allowed_tools {
            Some(a) => Some(copy_strings(a)),
            None => None,
        },
    };
    SubagentDef {
        name: def.name.clone(),
        description: def.description.clone(),
        system: def.system.clone(),
        model: def.model.clone(),
        max_tokens: def.max_tokens,
        temperature_bits: def.temperature_bits,
        max_iterations: def.max_iterations,
        allowed_tools: tools,
        max_depth: def.max_depth,
    }
}

/// The error for tool arguments that do not fit the tool's parameters.
pub fn param_parse_error(detail: &str) -> (e: MiniMaxError)
    ensures
        e matches MiniMaxError::Config(m) && m@ == "param parse error: "@ + detail@,
{
    MiniMaxError::Config(prefixed("param parse error: ", detail))
}

/// The error for arguments of `run_subagent` that do not fit its parameters.
pub fn run_subagent_params_error(detail: &str) -> (e: MiniMaxError)
    ensures
        e matches MiniMaxError::Config(m) && m@ == "run_subagent: invalid params: "@ + detail@,
{
    MiniMaxError::Config(prefixed("run_subagent: invalid params: ", detail))
}

/// The error for a tool handler that failed.
pub fn tool_error(detail: &str) -> (e: MiniMaxError)
    ensures
        e matches MiniMaxError::Config(m) && m@ == "tool error: "@ + detail@,
{
    MiniMaxError::Config(prefixed("tool error: ", detail))
}

/// The depth of a run that a run at `depth` starts, one level down.
pub fn child_depth(depth: u32) -> (r: u32)
    ensures
        depth < u32::MAX ==> r == depth + 1,
        depth == u32::MAX ==> r == u32::MAX,
{
    if depth < u32::MAX {
        depth + 1
    } else {
        depth
    }
}

} // verus!
