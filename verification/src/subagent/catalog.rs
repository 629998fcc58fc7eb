//! The tools a subagent may call: their names, descriptions and parameter schemas,
//! and the whitelist filter that decides which of them a subagent sees.

use vstd::prelude::*;
use vstd::string::*;

use crate::lexorder::{compare_str, StrOrder};
use crate::text::views;
use super::types::SubagentDef;

verus! {

/// Name of the recursive subagent tool, available to every subagent whatever its
/// whitelist says.
pub const RUN_SUBAGENT_NAME: &'static str = "run_subagent";

/// The JSON type of one tool parameter.
#[derive(Debug, Clone, Copy, PartialEq, Eq, Structural)]
pub enum JsonType {
    String,
    Integer,
    Number,
    Boolean,
    StringArray,
    AnyArray,
}

/// One parameter of a tool: its name, what it is for, its JSON type, and whether the
/// model must pass it (optional parameters also accept `null`).
#[derive(Debug)]
pub struct PropertySchema {
    pub name: String,
    pub description: String,
    pub json_type: JsonType,
    pub required: bool,
}

/// The JSON schema of a tool's input: an object whose properties are listed in order.
#[derive(Debug)]
pub struct ParamSchema {
    pub title: String,
    pub properties: Vec<PropertySchema>,
}

impl ParamSchema {
    /// A parameter schema always describes a JSON object.
    pub fn is_object(&self) -> (b: bool)
        ensures
            b,
    {
        true
    }
}

/// A tool as the model sees it: name, description and input schema.
#[derive(Debug)]
pub struct ToolSpec {
    pub name: String,
    pub description: String,
    pub input_schema: ParamSchema,
}

fn prop(name: &str, description: &str, json_type: JsonType, required: bool) -> (p: PropertySchema)
    ensures
        p.name@ == name@,
        p.description@ == description@,
        p.json_type == json_type,
        p.required == required,
{
    PropertySchema {
        name: String::from_str(name),
        description: String::from_str(description),
        json_type,
        required,
    }
}

/// The property names of a schema, in order.
pub open spec fn property_names(s: ParamSchema) -> Seq<Seq<char>> {
    s.properties@.map_values(|p: PropertySchema| p.name@)
}

/// A property as plain values: name, description, JSON type, and whether it is required.
pub type PropertyView = (Seq<char>, Seq<char>, JsonType, bool);

/// A schema as plain values: its title and its properties in order.
pub type SchemaView = (Seq<char>, Seq<PropertyView>);

/// A tool as plain values: name, description and input schema.
pub type ToolView = (Seq<char>, Seq<char>, SchemaView);

/// The plain values of a property.
pub open spec fn property_view(p: PropertySchema) -> PropertyView {
    (p.name@, p.description@, p.json_type, p.required)
}

/// The plain values of a schema.
pub open spec fn schema_view(s: ParamSchema) -> SchemaView {
    (s.title@, s.properties@.map_values(|p: PropertySchema| property_view(p)))
}

/// The plain values of a tool.
pub open spec fn tool_view(t: ToolSpec) -> ToolView {
    (t.name@, t.description@, schema_view(t.input_schema))
}

/// The plain values of a list of tools, in order.
pub open spec fn tool_views(v: Seq<ToolSpec>) -> Seq<ToolView> {
    v.map_values(|t: ToolSpec| tool_view(t))
}

/// The input schema of `ChatParams` as plain values.
pub open spec fn schema_chat_view() -> SchemaView {
    (
        "ChatParams"@,
        seq![
            ("prompt"@, "用户消息"@, JsonType::String, true),
            ("model"@, "模型名称，默认 MiniMax-M3（支持 1M 上下文）。支持 coding-plan-vlm, coding-plan-search, MiniMax-M2.5 等"@, JsonType::String, false),
            ("system"@, "系统提示词"@, JsonType::String, false),
            ("max_tokens"@, "最大生成 token 数，默认 4096"@, JsonType::Integer, false),
            ("temperature"@, "温度 0-1"@, JsonType::Number, false),
        ],
    )
}

/// The input schema of `ChatParams`.
pub fn schema_chat() -> (s: ParamSchema)
    ensures
        schema_view(s) == schema_chat_view(),
{
    let mut props: Vec<PropertySchema> = Vec::new();
    props.push(prop("prompt", "用户消息", JsonType::String, true));
    props.push(prop("model", "模型名称，默认 MiniMax-M3（支持 1M 上下文）。支持 coding-plan-vlm, coding-plan-search, MiniMax-M2.5 等", JsonType::String, false));
    props.push(prop("system", "系统提示词", JsonType::String, false));
    props.push(prop("max_tokens", "最大生成 token 数，默认 4096", JsonType::Integer, false));
    props.push(prop("temperature", "温度 0-1", JsonType::Number, false));
    let s = ParamSchema { title: String::from_str("ChatParams"), properties: props };
    proof {
        assert(schema_view(s).1 =~= schema_chat_view().1);
    }
    s
}

/// The input schema of `DeleteFileParams` as plain values.
pub open spec fn schema_delete_file_view() -> SchemaView {
    (
        "DeleteFileParams"@,
        seq![
            ("file_id"@, "文件的唯一标识符"@, JsonType::Integer, true),
            ("purpose"@, "文件使用目的: voice_clone/prompt_audio/t2a_async/t2a_async_input/video_generation"@, JsonType::String, true),
        ],
    )
}

/// The input schema of `DeleteFileParams`.
pub fn schema_delete_file() -> (s: ParamSchema)
    ensures
        schema_view(s) == schema_delete_file_view(),
{
    let mut props: Vec<PropertySchema> = Vec::new();
    props.push(prop("file_id", "文件的唯一标识符", JsonType::Integer, true));
    props.push(prop("purpose", "文件使用目的: voice_clone/prompt_audio/t2a_async/t2a_async_input/video_generation", JsonType::String, true));
    let s = ParamSchema { title: String::from_str("DeleteFileParams"), properties: props };
    proof {
        assert(schema_view(s).1 =~= schema_delete_file_view().1);
    }
    s
}

/// The input schema of `DeleteVoiceParams` as plain values.
pub open spec fn schema_delete_voice_view() -> SchemaView {
    (
        "DeleteVoiceParams"@,
        seq![
            ("voice_type"@, "音色类型: system/voice_cloning/voice_generation"@, JsonType::String, true),
            ("voice_id"@, "要删除的音色 ID"@, JsonType::String, true),
        ],
    )
}

/// The input schema of `DeleteVoiceParams`.
pub fn schema_delete_voice() -> (s: ParamSchema)
    ensures
        schema_view(s) == schema_delete_voice_view(),
{
    let mut props: Vec<PropertySchema> = Vec::new();
    props.push(prop("voice_type", "音色类型: system/voice_cloning/voice_generation", JsonType::String, true));
    props.push(prop("voice_id", "要删除的音色 ID", JsonType::String, true));
    let s = ParamSchema { title: String::from_str("DeleteVoiceParams"), properties: props };
    proof {
        assert(schema_view(s).1 =~= schema_delete_voice_view().1);
    }
    s
}

/// The input schema of `GenerateAudioAsyncParams` as plain values.
pub open spec fn schema_generate_audio_async_view() -> SchemaView {
    (
        "GenerateAudioAsyncParams"@,
        seq![
            ("text"@, "要转为语音的文本内容（最长 5 万字符）"@, JsonType::String, true),
            ("voice_id"@, "音色 ID，默认 female-shaonv"@, JsonType::String, false),
            ("model"@, "模型名称，默认 speech-2.8-hd"@, JsonType::String, false),
            ("speed"@, "语速 0.5-2.0，默认 1.0"@, JsonType::Number, false),
            ("vol"@, "音量 0-10，默认 1.0"@, JsonType::Number, false),
            ("pitch"@, "音调 -12 到 12，默认 0"@, JsonType::Integer, false),
            ("emotion"@, "情感: happy/sad/angry/fearful/disgusted/surprised/calm/fluent/whisper"@, JsonType::String, false),
            ("sample_rate"@, "采样率: 8000/16000/22050/24000/32000/44100，默认 32000"@, JsonType::Integer, false),
            ("bitrate"@, "比特率: 32000/64000/128000/256000，默认 128000"@, JsonType::Integer, false),
            ("format"@, "音频格式: mp3/pcm/flac/wav/pcmu_raw/pcmu_wav/opus，默认 mp3"@, JsonType::String, false),
            ("channel"@, "声道数: 1 或 2，默认 2"@, JsonType::Integer, false),
            ("language_boost"@, "语言增强: auto/Chinese/English 等，默认 auto"@, JsonType::String, false),
            ("text_file_id"@, "文本文件 ID（文件上传后获取），与 text 二选一，支持最长 100 万字符"@, JsonType::Integer, false),
            ("aigc_watermark"@, "是否添加水印，默认 false"@, JsonType::Boolean, false),
        ],
    )
}

/// The input schema of `GenerateAudioAsyncParams`.
pub fn schema_generate_audio_async() -> (s: ParamSchema)
    ensures
        schema_view(s) == schema_generate_audio_async_view(),
{
    let mut props: Vec<PropertySchema> = Vec::new();
    props.push(prop("text", "要转为语音的文本内容（最长 5 万字符）", JsonType::String, true));
    props.push(prop("voice_id", "音色 ID，默认 female-shaonv", JsonType::String, false));
    props.push(prop("model", "模型名称，默认 speech-2.8-hd", JsonType::String, false));
    props.push(prop("speed", "语速 0.5-2.0，默认 1.0", JsonType::Number, false));
    props.push(prop("vol", "音量 0-10，默认 1.0", JsonType::Number, false));
    props.push(prop("pitch", "音调 -12 到 12，默认 0", JsonType::Integer, false));
    props.push(prop("emotion", "情感: happy/sad/angry/fearful/disgusted/surprised/calm/fluent/whisper", JsonType::String, false));
    props.push(prop("sample_rate", "采样率: 8000/16000/22050/24000/32000/44100，默认 32000", JsonType::Integer, false));
    props.push(prop("bitrate", "比特率: 32000/64000/128000/256000，默认 128000", JsonType::Integer, false));
    props.push(prop("format", "音频格式: mp3/pcm/flac/wav/pcmu_raw/pcmu_wav/opus，默认 mp3", JsonType::String, false));
    props.push(prop("channel", "声道数: 1 或 2，默认 2", JsonType::Integer, false));
    props.push(prop("language_boost", "语言增强: auto/Chinese/English 等，默认 auto", JsonType::String, false));
    props.push(prop("text_file_id", "文本文件 ID（文件上传后获取），与 text 二选一，支持最长 100 万字符", JsonType::Integer, false));
    props.push(prop("aigc_watermark", "是否添加水印，默认 false", JsonType::Boolean, false));
    let s = ParamSchema { title: String::from_str("GenerateAudioAsyncParams"), properties: props };
    proof {
        assert(schema_view(s).1 =~= schema_generate_audio_async_view().1);
    }
    s
}

/// The input schema of `GenerateImageParams` as plain values.
pub open spec fn schema_generate_image_view() -> SchemaView {
    (
        "GenerateImageParams"@,
        seq![
            ("prompt"@, "图像描述 prompt"@, JsonType::String, true),
            ("model"@, "模型名称，默认 image-01"@, JsonType::String, false),
            ("aspect_ratio"@, "宽高比: 1:1/16:9/4:3/3:2/2:3/3:4/9:16/21:9，默认 1:1"@, JsonType::String, false),
            ("n"@, "生成数量 1-9，默认 1"@, JsonType::Integer, false),
            ("prompt_optimizer"@, "是否启用 prompt 优化，默认 false"@, JsonType::Boolean, false),
            ("output_directory"@, "输出目录（可选）。提供时保存图片到此目录"@, JsonType::String, false),
            ("width"@, "宽度 512-2048，8 的倍数，仅 image-01"@, JsonType::Integer, false),
            ("height"@, "高度 512-2048，8 的倍数，仅 image-01"@, JsonType::Integer, false),
            ("response_format"@, "响应格式: url/base64，默认 url"@, JsonType::String, false),
            ("seed"@, "随机种子，用于复现结果"@, JsonType::Integer, false),
            ("aigc_watermark"@, "是否添加水印，默认 false"@, JsonType::Boolean, false),
            ("style_type"@, "风格类型（仅 image-01-live）: cartoon/vitality/chinese_traditional/watercolor"@, JsonType::String, false),
            ("style_weight"@, "风格权重 0-1，默认 0.8"@, JsonType::Number, false),
        ],
    )
}

/// The input schema of `GenerateImageParams`.
pub fn schema_generate_image() -> (s: ParamSchema)
    ensures
        schema_view(s) == schema_generate_image_view(),
{
    let mut props: Vec<PropertySchema> = Vec::new();
    props.push(prop("prompt", "图像描述 prompt", JsonType::String, true));
    props.push(prop("model", "模型名称，默认 image-01", JsonType::String, false));
    props.push(prop("aspect_ratio", "宽高比: 1:1/16:9/4:3/3:2/2:3/3:4/9:16/21:9，默认 1:1", JsonType::String, false));
    props.push(prop("n", "生成数量 1-9，默认 1", JsonType::Integer, false));
    props.push(prop("prompt_optimizer", "是否启用 prompt 优化，默认 false", JsonType::Boolean, false));
    props.push(prop("output_directory", "输出目录（可选）。提供时保存图片到此目录", JsonType::String, false));
    props.push(prop("width", "宽度 512-2048，8 的倍数，仅 image-01", JsonType::Integer, false));
    props.push(prop("height", "高度 512-2048，8 的倍数，仅 image-01", JsonType::Integer, false));
    props.push(prop("response_format", "响应格式: url/base64，默认 url", JsonType::String, false));
    props.push(prop("seed", "随机种子，用于复现结果", JsonType::Integer, false));
    props.push(prop("aigc_watermark", "是否添加水印，默认 false", JsonType::Boolean, false));
    props.push(prop("style_type", "风格类型（仅 image-01-live）: cartoon/vitality/chinese_traditional/watercolor", JsonType::String, false));
    props.push(prop("style_weight", "风格权重 0-1，默认 0.8", JsonType::Number, false));
    let s = ParamSchema { title: String::from_str("GenerateImageParams"), properties: props };
    proof {
        assert(schema_view(s).1 =~= schema_generate_image_view().1);
    }
    s
}

/// The input schema of `GenerateLyricsParams` as plain values.
pub open spec fn schema_generate_lyrics_view() -> SchemaView {
    (
        "GenerateLyricsParams"@,
        seq![
            ("prompt"@, "歌词风格描述"@, JsonType::String, true),
            ("mode"@, "模式: write_full_song（写完整歌曲）/ edit（编辑续写），默认 write_full_song"@, JsonType::String, false),
            ("lyrics"@, "要编辑的现有歌词（mode=edit 时使用）"@, JsonType::String, false),
            ("title"@, "歌曲标题（可选）"@, JsonType::String, false),
        ],
    )
}

/// The input schema of `GenerateLyricsParams`.
pub fn schema_generate_lyrics() -> (s: ParamSchema)
    ensures
        schema_view(s) == schema_generate_lyrics_view(),
{
    let mut props: Vec<PropertySchema> = Vec::new();
    props.push(prop("prompt", "歌词风格描述", JsonType::String, true));
    props.push(prop("mode", "模式: write_full_song（写完整歌曲）/ edit（编辑续写），默认 write_full_song", JsonType::String, false));
    props.push(prop("lyrics", "要编辑的现有歌词（mode=edit 时使用）", JsonType::String, false));
    props.push(prop("title", "歌曲标题（可选）", JsonType::String, false));
    let s = ParamSchema { title: String::from_str("GenerateLyricsParams"), properties: props };
    proof {
        assert(schema_view(s).1 =~= schema_generate_lyrics_view().1);
    }
    s
}

/// The input schema of `GenerateMusicCoverParams` as plain values.
pub open spec fn schema_generate_music_cover_view() -> SchemaView {
    (
        "GenerateMusicCoverParams"@,
        seq![
            ("audio_url"@, "参考音频 URL"@, JsonType::String, true),
            ("prompt"@, "翻唱风格描述"@, JsonType::String, false),
            ("lyrics"@, "自定义歌词（可选，不传则自动从参考音频提取）"@, JsonType::String, false),
            ("output_directory"@, "输出目录（可选）。提供时保存音乐到此目录"@, JsonType::String, false),
        ],
    )
}

/// The input schema of `GenerateMusicCoverParams`.
pub fn schema_generate_music_cover() -> (s: ParamSchema)
    ensures
        schema_view(s) == schema_generate_music_cover_view(),
{
    let mut props: Vec<PropertySchema> = Vec::new();
    props.push(prop("audio_url", "参考音频 URL", JsonType::String, true));
    props.push(prop("prompt", "翻唱风格描述", JsonType::String, false));
    props.push(prop("lyrics", "自定义歌词（可选，不传则自动从参考音频提取）", JsonType::String, false));
    props.push(prop("output_directory", "输出目录（可选）。提供时保存音乐到此目录", JsonType::String, false));
    let s = ParamSchema { title: String::from_str("GenerateMusicCoverParams"), properties: props };
    proof {
        assert(schema_view(s).1 =~= schema_generate_music_cover_view().1);
    }
    s
}

/// The input schema of `GenerateMusicParams` as plain values.
pub open spec fn schema_generate_music_view() -> SchemaView {
    (
        "GenerateMusicParams"@,
        seq![
            ("prompt"@, "音乐风格描述，10-300 字符"@, JsonType::String, true),
            ("lyrics"@, "歌词，10-600 字符，支持 [Intro][Verse][Chorus][Bridge][Outro] 标签"@, JsonType::String, true),
            ("model"@, "模型名称，默认 music-2.6"@, JsonType::String, false),
            ("format"@, "音频格式: mp3/wav/pcm，默认 mp3"@, JsonType::String, false),
            ("output_directory"@, "输出目录（可选）。提供时保存音乐到此目录"@, JsonType::String, false),
            ("aigc_watermark"@, "是否添加水印，默认 false"@, JsonType::Boolean, false),
            ("lyrics_optimizer"@, "是否启用歌词优化（仅 music-2.6），默认 false"@, JsonType::Boolean, false),
            ("is_instrumental"@, "是否为纯音乐（仅 music-2.6），默认 false"@, JsonType::Boolean, false),
            ("stream"@, "是否启用流式输出，默认 false"@, JsonType::Boolean, false),
        ],
    )
}

/// The input schema of `GenerateMusicParams`.
pub fn schema_generate_music() -> (s: ParamSchema)
    ensures
        schema_view(s) == schema_generate_music_view(),
{
    let mut props: Vec<PropertySchema> = Vec::new();
    props.push(prop("prompt", "音乐风格描述，10-300 字符", JsonType::String, true));
    props.push(prop("lyrics", "歌词，10-600 字符，支持 [Intro][Verse][Chorus][Bridge][Outro] 标签", JsonType::String, true));
    props.push(prop("model", "模型名称，默认 music-2.6", JsonType::String, false));
    props.push(prop("format", "音频格式: mp3/wav/pcm，默认 mp3", JsonType::String, false));
    props.push(prop("output_directory", "输出目录（可选）。提供时保存音乐到此目录", JsonType::String, false));
    props.push(prop("aigc_watermark", "是否添加水印，默认 false", JsonType::Boolean, false));
    props.push(prop("lyrics_optimizer", "是否启用歌词优化（仅 music-2.6），默认 false", JsonType::Boolean, false));
    props.push(prop("is_instrumental", "是否为纯音乐（仅 music-2.6），默认 false", JsonType::Boolean, false));
    props.push(prop("stream", "是否启用流式输出，默认 false", JsonType::Boolean, false));
    let s = ParamSchema { title: String::from_str("GenerateMusicParams"), properties: props };
    proof {
        assert(schema_view(s).1 =~= schema_generate_music_view().1);
    }
    s
}

/// The input schema of `GenerateVideoAgentParams` as plain values.
pub open spec fn schema_generate_video_agent_view() -> SchemaView {
    (
        "GenerateVideoAgentParams"@,
        seq![
            ("template_id"@, "视频模板的 ID"@, JsonType::String, true),
            ("text_inputs"@, "文本输入数组（JSON 格式），用于填充模板中的文本部分，如 [{\\\"value\\\": \\\"狮子\\\"}]"@, JsonType::AnyArray, false),
            ("media_inputs"@, "媒体输入数组（JSON 格式），用于填充模板中的媒体部分，如 [{\\\"value\\\": \\\"https://...\\\"}]"@, JsonType::AnyArray, false),
            ("callback_url"@, "回调 URL（可选），用于接收任务状态更新通知"@, JsonType::String, false),
        ],
    )
}

/// The input schema of `GenerateVideoAgentParams`.
pub fn schema_generate_video_agent() -> (s: ParamSchema)
    ensures
        schema_view(s) == schema_generate_video_agent_view(),
{
    let mut props: Vec<PropertySchema> = Vec::new();
    props.push(prop("template_id", "视频模板的 ID", JsonType::String, true));
    props.push(prop("text_inputs", "文本输入数组（JSON 格式），用于填充模板中的文本部分，如 [{\\\"value\\\": \\\"狮子\\\"}]", JsonType::AnyArray, false));
    props.push(prop("media_inputs", "媒体输入数组（JSON 格式），用于填充模板中的媒体部分，如 [{\\\"value\\\": \\\"https://...\\\"}]", JsonType::AnyArray, false));
    props.push(prop("callback_url", "回调 URL（可选），用于接收任务状态更新通知", JsonType::String, false));
    let s = ParamSchema { title: String::from_str("GenerateVideoAgentParams"), properties: props };
    proof {
        assert(schema_view(s).1 =~= schema_generate_video_agent_view().1);
    }
    s
}

/// The input schema of `GenerateVideoParams` as plain values.
pub open spec fn schema_generate_video_view() -> SchemaView {
    (
        "GenerateVideoParams"@,
        seq![
            ("prompt"@, "视频描述 prompt"@, JsonType::String, true),
            ("model"@, "模型名称，默认 MiniMax-Hailuo-2.3"@, JsonType::String, false),
            ("first_frame_image"@, "首帧图片 URL（可选，用于图生视频）"@, JsonType::String, false),
            ("duration"@, "视频时长（秒），仅 Hailuo-02 支持 6 或 10"@, JsonType::Integer, false),
            ("resolution"@, "分辨率，仅 Hailuo-02 支持 768P/1080P"@, JsonType::String, false),
            ("async_mode"@, "异步模式：true 立即返回 task_id，false 等待完成"@, JsonType::Boolean, false),
            ("output_directory"@, "输出目录（可选）。仅在 async_mode=false 时生效，保存视频到此目录"@, JsonType::String, false),
            ("last_frame_image"@, "尾帧图片 URL（可选，用于首尾帧视频，模型需为 MiniMax-Hailuo-02）"@, JsonType::String, false),
            ("prompt_optimizer"@, "是否启用 prompt 优化，默认 true"@, JsonType::Boolean, false),
            ("fast_pretreatment"@, "是否启用快速预处理，默认 false，仅适用于 Hailuo-2.3/Hailuo-02"@, JsonType::Boolean, false),
            ("aigc_watermark"@, "是否添加水印，默认 false"@, JsonType::Boolean, false),
            ("callback_url"@, "回调 URL（可选），用于接收异步状态通知"@, JsonType::String, false),
        ],
    )
}

/// The input schema of `GenerateVideoParams`.
pub fn schema_generate_video() -> (s: ParamSchema)
    ensures
        schema_view(s) == schema_generate_video_view(),
{
    let mut props: Vec<PropertySchema> = Vec::new();
    props.push(prop("prompt", "视频描述 prompt", JsonType::String, true));
    props.push(prop("model", "模型名称，默认 MiniMax-Hailuo-2.3", JsonType::String, false));
    props.push(prop("first_frame_image", "首帧图片 URL（可选，用于图生视频）", JsonType::String, false));
    props.push(prop("duration", "视频时长（秒），仅 Hailuo-02 支持 6 或 10", JsonType::Integer, false));
    props.push(prop("resolution", "分辨率，仅 Hailuo-02 支持 768P/1080P", JsonType::String, false));
    props.push(prop("async_mode", "异步模式：true 立即返回 task_id，false 等待完成", JsonType::Boolean, false));
    props.push(prop("output_directory", "输出目录（可选）。仅在 async_mode=false 时生效，保存视频到此目录", JsonType::String, false));
    props.push(prop("last_frame_image", "尾帧图片 URL（可选，用于首尾帧视频，模型需为 MiniMax-Hailuo-02）", JsonType::String, false));
    props.push(prop("prompt_optimizer", "是否启用 prompt 优化，默认 true", JsonType::Boolean, false));
    props.push(prop("fast_pretreatment", "是否启用快速预处理，默认 false，仅适用于 Hailuo-2.3/Hailuo-02", JsonType::Boolean, false));
    props.push(prop("aigc_watermark", "是否添加水印，默认 false", JsonType::Boolean, false));
    props.push(prop("callback_url", "回调 URL（可选），用于接收异步状态通知", JsonType::String, false));
    let s = ParamSchema { title: String::from_str("GenerateVideoParams"), properties: props };
    proof {
        assert(schema_view(s).1 =~= schema_generate_video_view().1);
    }
    s
}

/// The input schema of `GetSubagentParams` as plain values.
pub open spec fn schema_get_subagent_view() -> SchemaView {
    (
        "GetSubagentParams"@,
        seq![
            ("name"@, ""@, JsonType::String, true),
        ],
    )
}

/// The input schema of `GetSubagentParams`.
pub fn schema_get_subagent() -> (s: ParamSchema)
    ensures
        schema_view(s) == schema_get_subagent_view(),
{
    let mut props: Vec<PropertySchema> = Vec::new();
    props.push(prop("name", "", JsonType::String, true));
    let s = ParamSchema { title: String::from_str("GetSubagentParams"), properties: props };
    proof {
        assert(schema_view(s).1 =~= schema_get_subagent_view().1);
    }
    s
}

/// The input schema of `ListFilesParams` as plain values.
pub open spec fn schema_list_files_view() -> SchemaView {
    (
        "ListFilesParams"@,
        seq![
            ("purpose"@, "文件分类: voice_clone/prompt_audio/t2a_async_input"@, JsonType::String, true),
        ],
    )
}

/// The input schema of `ListFilesParams`.
pub fn schema_list_files() -> (s: ParamSchema)
    ensures
        schema_view(s) == schema_list_files_view(),
{
    let mut props: Vec<PropertySchema> = Vec::new();
    props.push(prop("purpose", "文件分类: voice_clone/prompt_audio/t2a_async_input", JsonType::String, true));
    let s = ParamSchema { title: String::from_str("ListFilesParams"), properties: props };
    proof {
        assert(schema_view(s).1 =~= schema_list_files_view().1);
    }
    s
}

/// The input schema of `ListVoicesParams` as plain values.
pub open spec fn schema_list_voices_view() -> SchemaView {
    (
        "ListVoicesParams"@,
        seq![
            ("voice_type"@, "音色类型过滤: all/system/voice_cloning，默认 all"@, JsonType::String, false),
        ],
    )
}

/// The input schema of `ListVoicesParams`.
pub fn schema_list_voices() -> (s: ParamSchema)
    ensures
        schema_view(s) == schema_list_voices_view(),
{
    let mut props: Vec<PropertySchema> = Vec::new();
    props.push(prop("voice_type", "音色类型过滤: all/system/voice_cloning，默认 all", JsonType::String, false));
    let s = ParamSchema { title: String::from_str("ListVoicesParams"), properties: props };
    proof {
        assert(schema_view(s).1 =~= schema_list_voices_view().1);
    }
    s
}

/// The input schema of `NoParams` as plain values.
pub open spec fn schema_no_params_view() -> SchemaView {
    (
        "NoParams"@,
        seq![],
    )
}

/// The input schema of `NoParams`.
pub fn schema_no_params() -> (s: ParamSchema)
    ensures
        schema_view(s) == schema_no_params_view(),
{
    let mut props: Vec<PropertySchema> = Vec::new();
    let s = ParamSchema { title: String::from_str("NoParams"), properties: props };
    proof {
        assert(schema_view(s).1 =~= schema_no_params_view().1);
    }
    s
}

/// The input schema of `QueryAudioTaskParams` as plain values.
pub open spec fn schema_query_audio_task_view() -> SchemaView {
    (
        "QueryAudioTaskParams"@,
        seq![
            ("task_id"@, "异步 TTS 任务的 task_id"@, JsonType::String, true),
            ("output_directory"@, "输出目录（可选）。提供时下载并保存 mp3 到此目录"@, JsonType::String, false),
        ],
    )
}

/// The input schema of `QueryAudioTaskParams`.
pub fn schema_query_audio_task() -> (s: ParamSchema)
    ensures
        schema_view(s) == schema_query_audio_task_view(),
{
    let mut props: Vec<PropertySchema> = Vec::new();
    props.push(prop("task_id", "异步 TTS 任务的 task_id", JsonType::String, true));
    props.push(prop("output_directory", "输出目录（可选）。提供时下载并保存 mp3 到此目录", JsonType::String, false));
    let s = ParamSchema { title: String::from_str("QueryAudioTaskParams"), properties: props };
    proof {
        assert(schema_view(s).1 =~= schema_query_audio_task_view().1);
    }
    s
}

/// The input schema of `QueryVideoAgentParams` as plain values.
pub open spec fn schema_query_video_agent_view() -> SchemaView {
    (
        "QueryVideoAgentParams"@,
        seq![
            ("task_id"@, "视频Agent任务的 task_id"@, JsonType::String, true),
        ],
    )
}

/// The input schema of `QueryVideoAgentParams`.
pub fn schema_query_video_agent() -> (s: ParamSchema)
    ensures
        schema_view(s) == schema_query_video_agent_view(),
{
    let mut props: Vec<PropertySchema> = Vec::new();
    props.push(prop("task_id", "视频Agent任务的 task_id", JsonType::String, true));
    let s = ParamSchema { title: String::from_str("QueryVideoAgentParams"), properties: props };
    proof {
        assert(schema_view(s).1 =~= schema_query_video_agent_view().1);
    }
    s
}

/// The input schema of `QueryVideoParams` as plain values.
pub open spec fn schema_query_video_view() -> SchemaView {
    (
        "QueryVideoParams"@,
        seq![
            ("task_id"@, "视频生成任务的 task_id"@, JsonType::String, true),
            ("output_directory"@, "输出目录（可选）。提供时下载并保存视频到此目录"@, JsonType::String, false),
        ],
    )
}

/// The input schema of `QueryVideoParams`.
pub fn schema_query_video() -> (s: ParamSchema)
    ensures
        schema_view(s) == schema_query_video_view(),
{
    let mut props: Vec<PropertySchema> = Vec::new();
    props.push(prop("task_id", "视频生成任务的 task_id", JsonType::String, true));
    props.push(prop("output_directory", "输出目录（可选）。提供时下载并保存视频到此目录", JsonType::String, false));
    let s = ParamSchema { title: String::from_str("QueryVideoParams"), properties: props };
    proof {
        assert(schema_view(s).1 =~= schema_query_video_view().1);
    }
    s
}

/// The input schema of `RetrieveFileParams` as plain values.
pub open spec fn schema_retrieve_file_view() -> SchemaView {
    (
        "RetrieveFileParams"@,
        seq![
            ("file_id"@, "文件的唯一标识符"@, JsonType::Integer, true),
        ],
    )
}

/// The input schema of `RetrieveFileParams`.
pub fn schema_retrieve_file() -> (s: ParamSchema)
    ensures
        schema_view(s) == schema_retrieve_file_view(),
{
    let mut props: Vec<PropertySchema> = Vec::new();
    props.push(prop("file_id", "文件的唯一标识符", JsonType::Integer, true));
    let s = ParamSchema { title: String::from_str("RetrieveFileParams"), properties: props };
    proof {
        assert(schema_view(s).1 =~= schema_retrieve_file_view().1);
    }
    s
}

/// The input schema of `RunSubagentParams` as plain values.
pub open spec fn schema_run_subagent_view() -> SchemaView {
    (
        "RunSubagentParams"@,
        seq![
            ("name"@, ""@, JsonType::String, true),
            ("task"@, ""@, JsonType::String, true),
            ("allowed_tools"@, "工具白名单（可选）。覆盖 subagent JSON 配置中的 allowed_tools。不传则使用 JSON 中的默认值。"@, JsonType::StringArray, false),
        ],
    )
}

/// The input schema of `RunSubagentParams`.
pub fn schema_run_subagent() -> (s: ParamSchema)
    ensures
        schema_view(s) == schema_run_subagent_view(),
{
    let mut props: Vec<PropertySchema> = Vec::new();
    props.push(prop("name", "", JsonType::String, true));
    props.push(prop("task", "", JsonType::String, true));
    props.push(prop("allowed_tools", "工具白名单（可选）。覆盖 subagent JSON 配置中的 allowed_tools。不传则使用 JSON 中的默认值。", JsonType::StringArray, false));
    let s = ParamSchema { title: String::from_str("RunSubagentParams"), properties: props };
    proof {
        assert(schema_view(s).1 =~= schema_run_subagent_view().1);
    }
    s
}

/// The input schema of `TextToAudioParams` as plain values.
pub open spec fn schema_text_to_audio_view() -> SchemaView {
    (
        "TextToAudioParams"@,
        seq![
            ("text"@, "要转为语音的文本内容"@, JsonType::String, true),
            ("voice_id"@, "音色 ID，默认 female-shaonv"@, JsonType::String, false),
            ("model"@, "模型名称，默认 speech-2.8-hd"@, JsonType::String, false),
            ("speed"@, "语速 0.5-2.0，默认 1.0"@, JsonType::Number, false),
            ("vol"@, "音量 0-10，默认 1.0"@, JsonType::Number, false),
            ("pitch"@, "音调 -12 到 12，默认 0"@, JsonType::Integer, false),
            ("emotion"@, "情感: happy/sad/angry/fearful/disgusted/surprised/neutral"@, JsonType::String, false),
            ("sample_rate"@, "采样率: 8000/16000/22050/24000/32000/44100，默认 32000"@, JsonType::Integer, false),
            ("bitrate"@, "比特率: 32000/64000/128000/256000，默认 128000"@, JsonType::Integer, false),
            ("format"@, "音频格式: mp3/pcm/flac，默认 mp3"@, JsonType::String, false),
            ("output_directory"@, "输出目录（可选）。提供时保存文件到此目录"@, JsonType::String, false),
        ],
    )
}

/// The input schema of `TextToAudioParams`.
pub fn schema_text_to_audio() -> (s: ParamSchema)
    ensures
        schema_view(s) == schema_text_to_audio_view(),
{
    let mut props: Vec<PropertySchema> = Vec::new();
    props.push(prop("text", "要转为语音的文本内容", JsonType::String, true));
    props.push(prop("voice_id", "音色 ID，默认 female-shaonv", JsonType::String, false));
    props.push(prop("model", "模型名称，默认 speech-2.8-hd", JsonType::String, false));
    props.push(prop("speed", "语速 0.5-2.0，默认 1.0", JsonType::Number, false));
    props.push(prop("vol", "音量 0-10，默认 1.0", JsonType::Number, false));
    props.push(prop("pitch", "音调 -12 到 12，默认 0", JsonType::Integer, false));
    props.push(prop("emotion", "情感: happy/sad/angry/fearful/disgusted/surprised/neutral", JsonType::String, false));
    props.push(prop("sample_rate", "采样率: 8000/16000/22050/24000/32000/44100，默认 32000", JsonType::Integer, false));
    props.push(prop("bitrate", "比特率: 32000/64000/128000/256000，默认 128000", JsonType::Integer, false));
    props.push(prop("format", "音频格式: mp3/pcm/flac，默认 mp3", JsonType::String, false));
    props.push(prop("output_directory", "输出目录（可选）。提供时保存文件到此目录", JsonType::String, false));
    let s = ParamSchema { title: String::from_str("TextToAudioParams"), properties: props };
    proof {
        assert(schema_view(s).1 =~= schema_text_to_audio_view().1);
    }
    s
}

/// The input schema of `TextToAudioStreamParams` as plain values.
pub open spec fn schema_text_to_audio_stream_view() -> SchemaView {
    (
        "TextToAudioStreamParams"@,
        seq![
            ("text"@, "要转为语音的文本内容（单次可传最长 10000 字符）"@, JsonType::String, true),
            ("voice_id"@, "音色 ID，默认 female-shaonv"@, JsonType::String, false),
            ("model"@, "模型名称，默认 speech-2.8-hd"@, JsonType::String, false),
            ("speed"@, "语速 0.5-2.0，默认 1.0"@, JsonType::Number, false),
            ("vol"@, "音量 0-10，默认 1.0"@, JsonType::Number, false),
            ("pitch"@, "音调 -12 到 12，默认 0"@, JsonType::Integer, false),
            ("emotion"@, "情感: happy/sad/angry/fearful/disgusted/surprised/calm/fluent/whisper"@, JsonType::String, false),
            ("sample_rate"@, "采样率: 8000/16000/22050/24000/32000/44100，默认 32000"@, JsonType::Integer, false),
            ("bitrate"@, "比特率: 32000/64000/128000/256000，默认 128000"@, JsonType::Integer, false),
            ("format"@, "音频格式: mp3/pcm/flac/wav/pcmu_raw/pcmu_wav/opus，默认 mp3"@, JsonType::String, false),
            ("channel"@, "声道数: 1 或 2，默认 1"@, JsonType::Integer, false),
            ("language_boost"@, "语言增强: Chinese/English/auto 等，默认 auto"@, JsonType::String, false),
            ("continuous_sound"@, "是否启用连续推理模式（韵律更自然，延迟更高），默认 false，仅 speech-2.8-hd/turbo"@, JsonType::Boolean, false),
            ("output_directory"@, "输出目录（可选）。提供时保存音频到此目录"@, JsonType::String, false),
        ],
    )
}

/// The input schema of `TextToAudioStreamParams`.
pub fn schema_text_to_audio_stream() -> (s: ParamSchema)
    ensures
        schema_view(s) == schema_text_to_audio_stream_view(),
{
    let mut props: Vec<PropertySchema> = Vec::new();
    props.push(prop("text", "要转为语音的文本内容（单次可传最长 10000 字符）", JsonType::String, true));
    props.push(prop("voice_id", "音色 ID，默认 female-shaonv", JsonType::String, false));
    props.push(prop("model", "模型名称，默认 speech-2.8-hd", JsonType::String, false));
    props.push(prop("speed", "语速 0.5-2.0，默认 1.0", JsonType::Number, false));
    props.push(prop("vol", "音量 0-10，默认 1.0", JsonType::Number, false));
    props.push(prop("pitch", "音调 -12 到 12，默认 0", JsonType::Integer, false));
    props.push(prop("emotion", "情感: happy/sad/angry/fearful/disgusted/surprised/calm/fluent/whisper", JsonType::String, false));
    props.push(prop("sample_rate", "采样率: 8000/16000/22050/24000/32000/44100，默认 32000", JsonType::Integer, false));
    props.push(prop("bitrate", "比特率: 32000/64000/128000/256000，默认 128000", JsonType::Integer, false));
    props.push(prop("format", "音频格式: mp3/pcm/flac/wav/pcmu_raw/pcmu_wav/opus，默认 mp3", JsonType::String, false));
    props.push(prop("channel", "声道数: 1 或 2，默认 1", JsonType::Integer, false));
    props.push(prop("language_boost", "语言增强: Chinese/English/auto 等，默认 auto", JsonType::String, false));
    props.push(prop("continuous_sound", "是否启用连续推理模式（韵律更自然，延迟更高），默认 false，仅 speech-2.8-hd/turbo", JsonType::Boolean, false));
    props.push(prop("output_directory", "输出目录（可选）。提供时保存音频到此目录", JsonType::String, false));
    let s = ParamSchema { title: String::from_str("TextToAudioStreamParams"), properties: props };
    proof {
        assert(schema_view(s).1 =~= schema_text_to_audio_stream_view().1);
    }
    s
}

/// The input schema of `UnderstandImageParams` as plain values.
pub open spec fn schema_understand_image_view() -> SchemaView {
    (
        "UnderstandImageParams"@,
        seq![
            ("prompt"@, "对图片的提问或分析要求"@, JsonType::String, true),
            ("image_source"@, "图片来源，支持 HTTP/HTTPS URL 或本地文件路径（绝对或相对路径）"@, JsonType::String, true),
        ],
    )
}

/// The input schema of `UnderstandImageParams`.
pub fn schema_understand_image() -> (s: ParamSchema)
    ensures
        schema_view(s) == schema_understand_image_view(),
{
    let mut props: Vec<PropertySchema> = Vec::new();
    props.push(prop("prompt", "对图片的提问或分析要求", JsonType::String, true));
    props.push(prop("image_source", "图片来源，支持 HTTP/HTTPS URL 或本地文件路径（绝对或相对路径）", JsonType::String, true));
    let s = ParamSchema { title: String::from_str("UnderstandImageParams"), properties: props };
    proof {
        assert(schema_view(s).1 =~= schema_understand_image_view().1);
    }
    s
}

/// The input schema of `VoiceCloneParams` as plain values.
pub open spec fn schema_voice_clone_view() -> SchemaView {
    (
        "VoiceCloneParams"@,
        seq![
            ("voice_id"@, "新音色的 ID"@, JsonType::String, true),
            ("file"@, "参考音频文件路径或 URL"@, JsonType::String, true),
            ("text"@, "试听文本（可选）"@, JsonType::String, false),
            ("is_url"@, "文件是否为 URL"@, JsonType::Boolean, false),
            ("output_directory"@, "输出目录（可选）。提供时保存试听音频到此目录"@, JsonType::String, false),
            ("language_boost"@, "语言增强: auto/Chinese/English 等，默认 auto"@, JsonType::String, false),
            ("need_noise_reduction"@, "是否需要降噪，默认 false"@, JsonType::Boolean, false),
            ("need_volume_normalization"@, "是否需要音量归一化，默认 false"@, JsonType::Boolean, false),
        ],
    )
}

/// The input schema of `VoiceCloneParams`.
pub fn schema_voice_clone() -> (s: ParamSchema)
    ensures
        schema_view(s) == schema_voice_clone_view(),
{
    let mut props: Vec<PropertySchema> = Vec::new();
    props.push(prop("voice_id", "新音色的 ID", JsonType::String, true));
    props.push(prop("file", "参考音频文件路径或 URL", JsonType::String, true));
    props.push(prop("text", "试听文本（可选）", JsonType::String, false));
    props.push(prop("is_url", "文件是否为 URL", JsonType::Boolean, false));
    props.push(prop("output_directory", "输出目录（可选）。提供时保存试听音频到此目录", JsonType::String, false));
    props.push(prop("language_boost", "语言增强: auto/Chinese/English 等，默认 auto", JsonType::String, false));
    props.push(prop("need_noise_reduction", "是否需要降噪，默认 false", JsonType::Boolean, false));
    props.push(prop("need_volume_normalization", "是否需要音量归一化，默认 false", JsonType::Boolean, false));
    let s = ParamSchema { title: String::from_str("VoiceCloneParams"), properties: props };
    proof {
        assert(schema_view(s).1 =~= schema_voice_clone_view().1);
    }
    s
}

/// The input schema of `VoiceDesignParams` as plain values.
pub open spec fn schema_voice_design_view() -> SchemaView {
    (
        "VoiceDesignParams"@,
        seq![
            ("prompt"@, "描述想要创建的音色特征"@, JsonType::String, true),
            ("preview_text"@, "用于生成试听音频的文本"@, JsonType::String, true),
            ("voice_id"@, "自定义 voice_id（可选）"@, JsonType::String, false),
            ("output_directory"@, "输出目录（可选）。提供时保存试听音频到此目录"@, JsonType::String, false),
        ],
    )
}

/// The input schema of `VoiceDesignParams`.
pub fn schema_voice_design() -> (s: ParamSchema)
    ensures
        schema_view(s) == schema_voice_design_view(),
{
    let mut props: Vec<PropertySchema> = Vec::new();
    props.push(prop("prompt", "描述想要创建的音色特征", JsonType::String, true));
    props.push(prop("preview_text", "用于生成试听音频的文本", JsonType::String, true));
    props.push(prop("voice_id", "自定义 voice_id（可选）", JsonType::String, false));
    props.push(prop("output_directory", "输出目录（可选）。提供时保存试听音频到此目录", JsonType::String, false));
    let s = ParamSchema { title: String::from_str("VoiceDesignParams"), properties: props };
    proof {
        assert(schema_view(s).1 =~= schema_voice_design_view().1);
    }
    s
}

/// The input schema of `WebSearchParams` as plain values.
pub open spec fn schema_web_search_view() -> SchemaView {
    (
        "WebSearchParams"@,
        seq![
            ("query"@, "搜索查询词，建议 3-5 个关键词"@, JsonType::String, true),
        ],
    )
}

/// The input schema of `WebSearchParams`.
pub fn schema_web_search() -> (s: ParamSchema)
    ensures
        schema_view(s) == schema_web_search_view(),
{
    let mut props: Vec<PropertySchema> = Vec::new();
    props.push(prop("query", "搜索查询词，建议 3-5 个关键词", JsonType::String, true));
    let s = ParamSchema { title: String::from_str("WebSearchParams"), properties: props };
    proof {
        assert(schema_view(s).1 =~= schema_web_search_view().1);
    }
    s
}

/// The names of all tools, in catalog order.
pub open spec fn tool_names() -> Seq<Seq<char>> {
    seq![
        "text_to_audio"@,
        "text_to_audio_stream"@,
        "generate_audio_async"@,
        "query_audio_task"@,
        "list_voices"@,
        "voice_clone"@,
        "voice_design"@,
        "delete_voice"@,
        "generate_image"@,
        "understand_image"@,
        "generate_video"@,
        "query_video"@,
        "generate_video_agent"@,
        "query_video_agent"@,
        "generate_music"@,
        "generate_lyrics"@,
        "generate_music_cover"@,
        "chat"@,
        "web_search"@,
        "list_files"@,
        "retrieve_file"@,
        "delete_file"@,
        "query_usage"@,
        "run_subagent"@,
    ]
}

/// Every tool of the catalog as plain values, in catalog order.
pub open spec fn catalog_views() -> Seq<ToolView> {
    seq![
        ("text_to_audio"@, "Convert text to speech. Returns audio hex data inline, or saves to a file when `output_directory` is set."@, schema_text_to_audio_view()),
        ("text_to_audio_stream"@, "WebSocket streaming text-to-speech with low first-byte latency. Best for real-time voice output."@, schema_text_to_audio_stream_view()),
        ("generate_audio_async"@, "Submit an async TTS task (up to 50,000 characters). Returns a task_id; poll with `query_audio_task`."@, schema_generate_audio_async_view()),
        ("query_audio_task"@, "Poll an async TTS task. When complete, automatically downloads and extracts the mp3."@, schema_query_audio_task_view()),
        ("list_voices"@, "List all available voices (system + cloned + designed)."@, schema_list_voices_view()),
        ("voice_clone"@, "Clone a voice from a reference audio file. The new voice is reusable via its `voice_id`."@, schema_voice_clone_view()),
        ("voice_design"@, "Design a brand-new voice from a text description. Returns a `voice_id` and a trial audio."@, schema_voice_design_view()),
        ("delete_voice"@, "Delete a previously cloned or designed voice."@, schema_delete_voice_view()),
        ("generate_image"@, "Generate one or more images from a text prompt. Returns image URLs (or saves to `output_directory`)."@, schema_generate_image_view()),
        ("understand_image"@, "Analyze an image with the VLM model. Pass an HTTP(S) URL or local file path."@, schema_understand_image_view()),
        ("generate_video"@, "Generate a video from a prompt (or first-frame image). Default async — returns task_id; set `async_mode=false` to wait."@, schema_generate_video_view()),
        ("query_video"@, "Poll a video generation task. When complete, returns a download URL or saves to `output_directory`."@, schema_query_video_view()),
        ("generate_video_agent"@, "Run a pre-built video template (a 'video agent') that takes text + media inputs."@, schema_generate_video_agent_view()),
        ("query_video_agent"@, "Poll a video-agent (template) task."@, schema_query_video_agent_view()),
        ("generate_music"@, "Generate a song from a style prompt and lyrics (with optional [Verse]/[Chorus] tags)."@, schema_generate_music_view()),
        ("generate_lyrics"@, "Write full song lyrics, or edit/continue existing ones."@, schema_generate_lyrics_view()),
        ("generate_music_cover"@, "Generate a cover of a reference audio. Optional custom lyrics and style prompt."@, schema_generate_music_cover_view()),
        ("chat"@, "Single-turn text chat with a MiniMax LLM. Useful for reasoning, summarization, or text generation without tool use."@, schema_chat_view()),
        ("web_search"@, "Web search via MiniMax Coding Plan. Returns organic results + related searches."@, schema_web_search_view()),
        ("list_files"@, "List files uploaded to MiniMax under a given purpose (e.g. voice_clone, t2a_async_input)."@, schema_list_files_view()),
        ("retrieve_file"@, "Get metadata + download URL for a previously uploaded MiniMax file."@, schema_retrieve_file_view()),
        ("delete_file"@, "Delete a MiniMax file by id and purpose."@, schema_delete_file_view()),
        ("query_usage"@, "Query account token balance and usage summary."@, schema_no_params_view()),
        ("run_subagent"@, "Delegate a sub-task to a named subagent (defined in subagents/<name>.json). The subagent runs its own agent loop with its own system prompt and can itself call any tool. Returns the subagent's final text output. Use this to break a complex task into specialized sub-tasks."@, schema_run_subagent_view()),
    ]
}

fn tool(name: &str, description: &str, input_schema: ParamSchema) -> (t: ToolSpec)
    ensures
        t.name@ == name@,
        t.description@ == description@,
        t.input_schema == input_schema,
{
    ToolSpec { name: String::from_str(name), description: String::from_str(description), input_schema }
}

/// The names of a list of tools, in order.
pub open spec fn spec_names(v: Seq<ToolSpec>) -> Seq<Seq<char>> {
    v.map_values(|t: ToolSpec| t.name@)
}

/// Every tool the model can see, in catalog order; `run_subagent` comes last.
pub fn all_tool_specs() -> (v: Vec<ToolSpec>)
    ensures
        v@.len() == 24,
        spec_names(v@) == tool_names(),
        tool_views(v@) == catalog_views(),
        v@[23].name@ == RUN_SUBAGENT_NAME@,
{
    let mut v: Vec<ToolSpec> = Vec::new();
    v.push(tool("text_to_audio", "Convert text to speech. Returns audio hex data inline, or saves to a file when `output_directory` is set.", schema_text_to_audio()));
    v.push(tool("text_to_audio_stream", "WebSocket streaming text-to-speech with low first-byte latency. Best for real-time voice output.", schema_text_to_audio_stream()));
    v.push(tool("generate_audio_async", "Submit an async TTS task (up to 50,000 characters). Returns a task_id; poll with `query_audio_task`.", schema_generate_audio_async()));
    v.push(tool("query_audio_task", "Poll an async TTS task. When complete, automatically downloads and extracts the mp3.", schema_query_audio_task()));
    v.push(tool("list_voices", "List all available voices (system + cloned + designed).", schema_list_voices()));
    v.push(tool("voice_clone", "Clone a voice from a reference audio file. The new voice is reusable via its `voice_id`.", schema_voice_clone()));
    v.push(tool("voice_design", "Design a brand-new voice from a text description. Returns a `voice_id` and a trial audio.", schema_voice_design()));
    v.push(tool("delete_voice", "Delete a previously cloned or designed voice.", schema_delete_voice()));
    v.push(tool("generate_image", "Generate one or more images from a text prompt. Returns image URLs (or saves to `output_directory`).", schema_generate_image()));
    v.push(tool("understand_image", "Analyze an image with the VLM model. Pass an HTTP(S) URL or local file path.", schema_understand_image()));
    v.push(tool("generate_video", "Generate a video from a prompt (or first-frame image). Default async — returns task_id; set `async_mode=false` to wait.", schema_generate_video()));
    v.push(tool("query_video", "Poll a video generation task. When complete, returns a download URL or saves to `output_directory`.", schema_query_video()));
    v.push(tool("generate_video_agent", "Run a pre-built video template (a 'video agent') that takes text + media inputs.", schema_generate_video_agent()));
    v.push(tool("query_video_agent", "Poll a video-agent (template) task.", schema_query_video_agent()));
    v.push(tool("generate_music", "Generate a song from a style prompt and lyrics (with optional [Verse]/[Chorus] tags).", schema_generate_music()));
    v.push(tool("generate_lyrics", "Write full song lyrics, or edit/continue existing ones.", schema_generate_lyrics()));
    v.push(tool("generate_music_cover", "Generate a cover of a reference audio. Optional custom lyrics and style prompt.", schema_generate_music_cover()));
    v.push(tool("chat", "Single-turn text chat with a MiniMax LLM. Useful for reasoning, summarization, or text generation without tool use.", schema_chat()));
    v.push(tool("web_search", "Web search via MiniMax Coding Plan. Returns organic results + related searches.", schema_web_search()));
    v.push(tool("list_files", "List files uploaded to MiniMax under a given purpose (e.g. voice_clone, t2a_async_input).", schema_list_files()));
    v.push(tool("retrieve_file", "Get metadata + download URL for a previously uploaded MiniMax file.", schema_retrieve_file()));
    v.push(tool("delete_file", "Delete a MiniMax file by id and purpose.", schema_delete_file()));
    v.push(tool("query_usage", "Query account token balance and usage summary.", schema_no_params()));
    v.push(tool("run_subagent", "Delegate a sub-task to a named subagent (defined in subagents/<name>.json). The subagent runs its own agent loop with its own system prompt and can itself call any tool. Returns the subagent's final text output. Use this to break a complex task into specialized sub-tasks.", schema_run_subagent()));
    proof {
        assert(spec_names(v@) =~= tool_names());
        assert(tool_views(v@) =~= catalog_views());
    }
    v
}


/// The whitelist of a definition as character sequences.
pub open spec fn whitelist(allowed: Option<Vec<String>>) -> Option<Seq<Seq<char>>> {
    match allowed {
        None => None,
        Some(v) => Some(views(v@)),
    }
}

/// Whether a subagent with this whitelist may call the tool `name`: `run_subagent`
/// always, every tool when there is no whitelist, otherwise the listed ones.
pub open spec fn tool_allowed(name: Seq<char>, allowed: Option<Seq<Seq<char>>>) -> bool {
    name == RUN_SUBAGENT_NAME@ || match allowed {
        None => true,
        Some(w) => w.contains(name),
    }
}

/// Whether `names` holds `name`.
pub fn contains_name(names: &Vec<String>, name: &str) -> (b: bool)
    ensures
        b == views(names@).contains(name@),
{
    let n = names.len();
    let mut i: usize = 0;
    while i < n
        invariant
            n == names@.len(),
            i <= n,
            forall|j: int| 0 <= j < i ==> (#[trigger] names@[j])@ != name@,
        decreases n - i,
    {
        if compare_str(names[i].as_str(), name) == StrOrder::Equal {
            assert(views(names@)[i as int] == name@);
            return true;
        }
        i = i + 1;
    }
    assert forall|j: int| 0 <= j < views(names@).len() implies #[trigger] views(names@)[j] != name@ by {
        assert(views(names@)[j] == names@[j]@);
    }
    false
}

/// Whether a subagent whose whitelist is `allowed` may call the tool `name`.
pub fn is_tool_allowed(name: &str, allowed: &Option<Vec<String>>) -> (b: bool)
    ensures
        b == tool_allowed(name@, whitelist(*allowed)),
{
    if compare_str(name, RUN_SUBAGENT_NAME) == StrOrder::Equal {
        return true;
    }
    match allowed {
        None => true,
        Some(w) => contains_name(w, name),
    }
}

/// Whether a subagent with this whitelist may call the tool `t`.
pub open spec fn allowed_spec(allowed: Option<Seq<Seq<char>>>) -> spec_fn(ToolSpec) -> bool {
    |t: ToolSpec| tool_allowed(t.name@, allowed)
}

/// Whether a subagent with this whitelist may call the tool whose plain values are `v`.
pub open spec fn allowed_view(allowed: Option<Seq<Seq<char>>>) -> spec_fn(ToolView) -> bool {
    |v: ToolView| tool_allowed(v.0, allowed)
}

/// Keeping the allowed tools and then taking their plain values is taking the plain
/// values and then keeping the allowed ones.
proof fn lemma_filter_views(s: Seq<ToolSpec>, allowed: Option<Seq<Seq<char>>>)
    ensures
        tool_views(s.filter(allowed_spec(allowed))) == tool_views(s).filter(allowed_view(allowed)),
    decreases s.len(),
{
    reveal_with_fuel(Seq::<ToolSpec>::filter, 1);
    reveal_with_fuel(Seq::<ToolView>::filter, 1);
    if s.len() == 0 {
        assert(tool_views(s) =~= Seq::<ToolView>::empty());
        assert(s.filter(allowed_spec(allowed)) =~= Seq::<ToolSpec>::empty());
        assert(tool_views(Seq::<ToolSpec>::empty()) =~= Seq::<ToolView>::empty());
    } else {
        lemma_filter_views(s.drop_last(), allowed);
        assert(tool_views(s).drop_last() =~= tool_views(s.drop_last()));
        assert(tool_views(s).last() == tool_view(s.last()));
        let f = s.drop_last().filter(allowed_spec(allowed));
        assert(tool_views(f.push(s.last())) =~= tool_views(f).push(tool_view(s.last())));
    }
}

/// The tools of `all_tools` that `subagent` may call, in their original order.
///
/// With no whitelist every tool is kept; otherwise only the listed ones, and
/// `run_subagent` in any case. Names in the whitelist that match no tool are ignored.
pub fn tools_for_subagent(all_tools: Vec<ToolSpec>, subagent: &SubagentDef) -> (r: Vec<ToolSpec>)
    ensures
        r@ == all_tools@.filter(allowed_spec(whitelist(subagent.allowed_tools))),
        spec_names(r@) == spec_names(all_tools@).filter(
            |n: Seq<char>| tool_allowed(n, whitelist(subagent.allowed_tools)),
        ),
{
    let ghost all = all_tools@;
    let ghost pred = |n: Seq<char>| tool_allowed(n, whitelist(subagent.allowed_tools));
    let mut rest = all_tools;
    let mut r: Vec<ToolSpec> = Vec::new();
    let n = rest.len();
    let mut i: usize = 0;
    while i < n
        invariant
            all == all_tools@,
            pred == (|n: Seq<char>| tool_allowed(n, whitelist(subagent.allowed_tools))),
            n == all.len(),
            i <= n,
            rest@ == all.skip(i as int),
            spec_names(r@) == spec_names(all.take(i as int)).filter(pred),
            r@ == all.take(i as int).filter(allowed_spec(whitelist(subagent.allowed_tools))),
        decreases n - i,
    {
        let t = rest.remove(0);
        assert(t == all[i as int]);
        let keep = is_tool_allowed(t.name.as_str(), &subagent.allowed_tools);
        proof {
            reveal_with_fuel(Seq::<Seq<char>>::filter, 1);
            reveal_with_fuel(Seq::<ToolSpec>::filter, 1);
            assert(all.take(i + 1).drop_last() =~= all.take(i as int));
            assert(spec_names(all.take(i + 1)).drop_last() =~= spec_names(all.take(i as int)));
            assert(spec_names(all.take(i + 1)).last() == t.name@);
        }
        if keep {
            let ghost before = r@;
            r.push(t);
            proof {
                assert(spec_names(r@) =~= spec_names(before).push(all[i as int].name@));
            }
        }
        i = i + 1;
    }
    assert(all.take(n as int) =~= all);
    r
}

/// The tools of the catalog that `subagent` may call, in catalog order.
pub fn specs_for(subagent: &SubagentDef) -> (r: Vec<ToolSpec>)
    ensures
        spec_names(r@) == tool_names().filter(
            |n: Seq<char>| tool_allowed(n, whitelist(subagent.allowed_tools)),
        ),
        tool_views(r@) == catalog_views().filter(allowed_view(whitelist(subagent.allowed_tools))),
{
    let all = all_tool_specs();
    let ghost all_v = all@;
    let r = tools_for_subagent(all, subagent);
    proof {
        lemma_filter_views(all_v, whitelist(subagent.allowed_tools));
    }
    r
}


/// `run_subagent` is offered to every subagent, whatever its whitelist.
pub proof fn law_run_subagent_always_allowed(allowed: Option<Seq<Seq<char>>>)
    ensures
        tool_allowed(RUN_SUBAGENT_NAME@, allowed),
{
}

/// An empty whitelist leaves only `run_subagent`.
pub proof fn law_empty_whitelist_allows_only_run_subagent(name: Seq<char>)
    ensures
        tool_allowed(name, Some(Seq::empty())) <==> name == RUN_SUBAGENT_NAME@,
{
}

/// Filtering with two predicates that agree on every element gives the same result.
proof fn lemma_filter_agree(s: Seq<Seq<char>>, p: spec_fn(Seq<char>) -> bool, q: spec_fn(Seq<char>) -> bool)
    requires
        forall|i: int| 0 <= i < s.len() ==> p(#[trigger] s[i]) == q(s[i]),
    ensures
        s.filter(p) == s.filter(q),
    decreases s.len(),
{
    reveal_with_fuel(Seq::<Seq<char>>::filter, 1);
    if s.len() > 0 {
        assert forall|i: int| 0 <= i < s.drop_last().len() implies p(#[trigger] s.drop_last()[i]) == q(
            s.drop_last()[i],
        ) by {
            assert(s.drop_last()[i] == s[i]);
        }
        lemma_filter_agree(s.drop_last(), p, q);
        assert(p(s[s.len() - 1]) == q(s[s.len() - 1]));
    }
}

/// Names in a whitelist that match no tool are ignored: two whitelists that agree on
/// every name of the tool list select the same tools.
pub proof fn law_unknown_whitelist_names_ignored(names: Seq<Seq<char>>, w1: Seq<Seq<char>>, w2: Seq<Seq<char>>)
    requires
        forall|i: int| 0 <= i < names.len() ==> (w1.contains(#[trigger] names[i]) <==> w2.contains(names[i])),
    ensures
        names.filter(|n: Seq<char>| tool_allowed(n, Some(w1))) == names.filter(
            |n: Seq<char>| tool_allowed(n, Some(w2)),
        ),
{
    let p = |n: Seq<char>| tool_allowed(n, Some(w1));
    let q = |n: Seq<char>| tool_allowed(n, Some(w2));
    assert forall|i: int| 0 <= i < names.len() implies p(#[trigger] names[i]) == q(names[i]) by {
        assert(w1.contains(names[i]) <==> w2.contains(names[i]));
    }
    lemma_filter_agree(names, p, q);
}

} // verus!
