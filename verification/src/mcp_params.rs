//! Parameters of the tools, as the model or an MCP client passes them.
//!
//! Parameters that hold floating-point numbers or free-form JSON are handled by the
//! program around the library.

use vstd::prelude::*;

verus! {

/// Parameters of the tool that takes `ListVoicesParams`.
#[derive(Debug, Clone)]
pub struct ListVoicesParams {
    /// 音色类型过滤: all/system/voice_cloning，默认 all
    pub voice_type: Option<String>,
}

/// Parameters of the tool that takes `VoiceCloneParams`.
#[derive(Debug, Clone)]
pub struct VoiceCloneParams {
    /// 新音色的 ID
    pub voice_id: String,
    /// 参考音频文件路径或 URL
    pub file: String,
    /// 试听文本（可选）
    pub text: Option<String>,
    /// 文件是否为 URL
    pub is_url: Option<bool>,
    /// 输出目录（可选）。提供时保存试听音频到此目录
    pub output_directory: Option<String>,
    /// 语言增强: auto/Chinese/English 等，默认 auto
    pub language_boost: Option<String>,
    /// 是否需要降噪，默认 false
    pub need_noise_reduction: Option<bool>,
    /// 是否需要音量归一化，默认 false
    pub need_volume_normalization: Option<bool>,
}

/// Parameters of the tool that takes `VoiceDesignParams`.
#[derive(Debug, Clone)]
pub struct VoiceDesignParams {
    /// 描述想要创建的音色特征
    pub prompt: String,
    /// 用于生成试听音频的文本
    pub preview_text: String,
    /// 自定义 voice_id（可选）
    pub voice_id: Option<String>,
    /// 输出目录（可选）。提供时保存试听音频到此目录
    pub output_directory: Option<String>,
}

/// Parameters of the tool that takes `GenerateVideoParams`.
#[derive(Debug, Clone)]
pub struct GenerateVideoParams {
    /// 视频描述 prompt
    pub prompt: String,
    /// 模型名称，默认 MiniMax-Hailuo-2.3
    pub model: Option<String>,
    /// 首帧图片 URL（可选，用于图生视频）
    pub first_frame_image: Option<String>,
    /// 视频时长（秒），仅 Hailuo-02 支持 6 或 10
    pub duration: Option<i32>,
    /// 分辨率，仅 Hailuo-02 支持 768P/1080P
    pub resolution: Option<String>,
    /// 异步模式：true 立即返回 task_id，false 等待完成
    pub async_mode: Option<bool>,
    /// 输出目录（可选）。仅在 async_mode=false 时生效，保存视频到此目录
    pub output_directory: Option<String>,
    /// 尾帧图片 URL（可选，用于首尾帧视频，模型需为 MiniMax-Hailuo-02）
    pub last_frame_image: Option<String>,
    /// 是否启用 prompt 优化，默认 true
    pub prompt_optimizer: Option<bool>,
    /// 是否启用快速预处理，默认 false，仅适用于 Hailuo-2.3/Hailuo-02
    pub fast_pretreatment: Option<bool>,
    /// 是否添加水印，默认 false
    pub aigc_watermark: Option<bool>,
    /// 回调 URL（可选），用于接收异步状态通知
    pub callback_url: Option<String>,
    /// Subject references, each the JSON text of an object with a string `type` and
    /// an array `image` of image URLs.
    pub subject_reference: Option<Vec<String>>,
}

/// Parameters of the tool that takes `QueryVideoParams`.
#[derive(Debug, Clone)]
pub struct QueryVideoParams {
    /// 视频生成任务的 task_id
    pub task_id: String,
    /// 输出目录（可选）。提供时下载并保存视频到此目录
    pub output_directory: Option<String>,
}

/// Parameters of the tool that takes `GenerateMusicParams`.
#[derive(Debug, Clone)]
pub struct GenerateMusicParams {
    /// 音乐风格描述，10-300 字符
    pub prompt: String,
    /// 歌词，10-600 字符，支持 [Intro][Verse][Chorus][Bridge][Outro] 标签
    pub lyrics: String,
    /// 模型名称，默认 music-2.6
    pub model: Option<String>,
    /// 音频格式: mp3/wav/pcm，默认 mp3
    pub format: Option<String>,
    /// 输出目录（可选）。提供时保存音乐到此目录
    pub output_directory: Option<String>,
    /// 是否添加水印，默认 false
    pub aigc_watermark: Option<bool>,
    /// 是否启用歌词优化（仅 music-2.6），默认 false
    pub lyrics_optimizer: Option<bool>,
    /// 是否为纯音乐（仅 music-2.6），默认 false
    pub is_instrumental: Option<bool>,
    /// 是否启用流式输出，默认 false
    pub stream: Option<bool>,
}

/// Parameters of the tool that takes `GenerateLyricsParams`.
#[derive(Debug, Clone)]
pub struct GenerateLyricsParams {
    /// 歌词风格描述
    pub prompt: String,
    /// 模式: write_full_song（写完整歌曲）/ edit（编辑续写），默认 write_full_song
    pub mode: Option<String>,
    /// 要编辑的现有歌词（mode=edit 时使用）
    pub lyrics: Option<String>,
    /// 歌曲标题（可选）
    pub title: Option<String>,
}

/// Parameters of the tool that takes `GenerateMusicCoverParams`.
#[derive(Debug, Clone)]
pub struct GenerateMusicCoverParams {
    /// 参考音频 URL
    pub audio_url: String,
    /// 翻唱风格描述
    pub prompt: Option<String>,
    /// 自定义歌词（可选，不传则自动从参考音频提取）
    pub lyrics: Option<String>,
    /// 输出目录（可选）。提供时保存音乐到此目录
    pub output_directory: Option<String>,
}

/// Parameters of the tool that takes `WebSearchParams`.
#[derive(Debug, Clone)]
pub struct WebSearchParams {
    /// 搜索查询词，建议 3-5 个关键词
    pub query: String,
}

/// Parameters of the tool that takes `UnderstandImageParams`.
#[derive(Debug, Clone)]
pub struct UnderstandImageParams {
    /// 对图片的提问或分析要求
    pub prompt: String,
    /// 图片来源，支持 HTTP/HTTPS URL 或本地文件路径（绝对或相对路径）
    pub image_source: String,
}

/// Parameters of the tool that takes `QueryAudioTaskParams`.
#[derive(Debug, Clone)]
pub struct QueryAudioTaskParams {
    /// 异步 TTS 任务的 task_id
    pub task_id: String,
    /// 输出目录（可选）。提供时下载并保存 mp3 到此目录
    pub output_directory: Option<String>,
}

/// Parameters of the tool that takes `DeleteVoiceParams`.
#[derive(Debug, Clone)]
pub struct DeleteVoiceParams {
    /// 音色类型: system/voice_cloning/voice_generation
    pub voice_type: String,
    /// 要删除的音色 ID
    pub voice_id: String,
}

/// Parameters of the tool that takes `ListFilesParams`.
#[derive(Debug, Clone)]
pub struct ListFilesParams {
    /// 文件分类: voice_clone/prompt_audio/t2a_async_input
    pub purpose: String,
}

/// Parameters of the tool that takes `RetrieveFileParams`.
#[derive(Debug, Clone)]
pub struct RetrieveFileParams {
    /// 文件的唯一标识符
    pub file_id: i64,
}

/// Parameters of the tool that takes `DeleteFileParams`.
#[derive(Debug, Clone)]
pub struct DeleteFileParams {
    /// 文件的唯一标识符
    pub file_id: i64,
    /// 文件使用目的: voice_clone/prompt_audio/t2a_async/t2a_async_input/video_generation
    pub purpose: String,
}

/// Parameters of the tool that takes `GenerateVideoAgentParams`.
#[derive(Debug, Clone)]
pub struct GenerateVideoAgentParams {
    /// 视频模板的 ID
    pub template_id: String,
    /// Text inputs of the template, each the JSON text of an object such as
    /// `{"value": "..."}`.
    pub text_inputs: Option<Vec<String>>,
    /// Media inputs of the template, each the JSON text of an object such as
    /// `{"value": "https://..."}`.
    pub media_inputs: Option<Vec<String>>,
    /// 回调 URL（可选），用于接收任务状态更新通知
    pub callback_url: Option<String>,
}

/// Parameters of the tool that takes `QueryVideoAgentParams`.
#[derive(Debug, Clone)]
pub struct QueryVideoAgentParams {
    /// 视频Agent任务的 task_id
    pub task_id: String,
}

/// Parameters of the tool that takes `RunSubagentParams`.
#[derive(Debug, Clone)]
pub struct RunSubagentParams {
    pub name: String,
    pub task: String,
    /// 工具白名单（可选）。覆盖 subagent JSON 配置中的 allowed_tools。不传则使用 JSON 中的默认值。
    pub allowed_tools: Option<Vec<String>>,
}

/// Parameters of the tool that takes `GetSubagentParams`.
#[derive(Debug, Clone)]
pub struct GetSubagentParams {
    pub name: String,
}

/// Parameters of a tool that takes none.
#[derive(Debug, Clone, Default)]
pub struct NoParams {}

} // verus!
