//! Request and response records of the MiniMax HTTP API.

use vstd::prelude::*;

verus! {

/// `BaseResponse` of the API.
#[derive(Debug, Clone)]
pub struct BaseResponse {
    pub status_code: i32,
    pub status_msg: String,
}

/// `AudioSetting` of the API.
#[derive(Debug, Clone)]
pub struct AudioSetting {
    pub sample_rate: i32,
    pub bitrate: i32,
    pub format: String,
    pub channel: i32,
}

/// `AudioData` of the API.
#[derive(Debug, Clone)]
pub struct AudioData {
    pub audio: Option<String>,
    pub status: Option<i32>,
    pub ced: Option<String>,
}

/// `VoiceListRequest` of the API.
#[derive(Debug, Clone)]
pub struct VoiceListRequest {
    pub voice_type: Option<String>,
}

/// `VoiceListResponse` of the API.
#[derive(Debug, Clone)]
pub struct VoiceListResponse {
    pub base_resp: BaseResponse,
    pub system_voice: Vec<VoiceInfo>,
    pub voice_cloning: Vec<VoiceInfo>,
    pub voice_generation: Vec<VoiceGenerationInfo>,
}

/// `VoiceInfo` of the API.
#[derive(Debug, Clone)]
pub struct VoiceInfo {
    pub voice_name: String,
    pub voice_id: String,
}

/// `VoiceCloneRequest` of the API.
#[derive(Debug, Clone)]
pub struct VoiceCloneRequest {
    pub file_id: i64,
    pub voice_id: String,
    pub text: Option<String>,
    pub model: Option<String>,
    pub language_boost: Option<String>,
    pub need_noise_reduction: Option<bool>,
    pub need_volume_normalization: Option<bool>,
    pub aigc_watermark: Option<bool>,
}

/// `VoiceCloneResponse` of the API.
#[derive(Debug, Clone)]
pub struct VoiceCloneResponse {
    pub base_resp: BaseResponse,
    pub demo_audio: Option<String>,
}

/// `VoiceDesignRequest` of the API.
#[derive(Debug, Clone)]
pub struct VoiceDesignRequest {
    pub prompt: String,
    pub preview_text: String,
    pub voice_id: Option<String>,
}

/// `VoiceDesignResponse` of the API.
#[derive(Debug, Clone)]
pub struct VoiceDesignResponse {
    pub base_resp: BaseResponse,
    pub voice_id: Option<String>,
    pub trial_audio: Option<String>,
}

/// `VideoGenerationRequest` of the API.
#[derive(Debug, Clone)]
pub struct VideoGenerationRequest {
    pub model: String,
    pub prompt: String,
    pub first_frame_image: Option<String>,
    pub last_frame_image: Option<String>,
    pub subject_reference: Option<Vec<SubjectReference>>,
    pub duration: Option<i32>,
    pub resolution: Option<String>,
    pub prompt_optimizer: Option<bool>,
    pub fast_pretreatment: Option<bool>,
    pub callback_url: Option<String>,
    pub aigc_watermark: Option<bool>,
}

/// `VideoTaskResponse` of the API.
#[derive(Debug, Clone)]
pub struct VideoTaskResponse {
    pub base_resp: BaseResponse,
    pub task_id: String,
}

/// Response from GET /v1/query/video_generation?task_id=
#[derive(Debug, Clone)]
pub struct VideoQueryResponse {
    pub base_resp: BaseResponse,
    pub status: String,
    pub file_id: Option<String>,
}

/// Response from GET /v1/files/retrieve?file_id=
#[derive(Debug, Clone)]
pub struct FileRetrieveResponse {
    pub base_resp: BaseResponse,
    pub file: Option<FileDownloadInfo>,
}

/// `FileDownloadInfo` of the API.
#[derive(Debug, Clone)]
pub struct FileDownloadInfo {
    pub download_url: String,
}

/// `ImageGenerationRequest` of the API.
#[derive(Debug, Clone)]
pub struct ImageGenerationRequest {
    pub model: String,
    pub prompt: String,
    pub aspect_ratio: Option<String>,
    pub n: Option<i32>,
    pub prompt_optimizer: Option<bool>,
    pub width: Option<i32>,
    pub height: Option<i32>,
    pub response_format: Option<String>,
    pub seed: Option<i64>,
    pub aigc_watermark: Option<bool>,
}

/// `ImageGenerationResponse` of the API.
#[derive(Debug, Clone)]
pub struct ImageGenerationResponse {
    pub base_resp: BaseResponse,
    pub data: Option<ImageData>,
}

/// `ImageData` of the API.
#[derive(Debug, Clone)]
pub struct ImageData {
    pub image_urls: Vec<String>,
}

/// `MusicGenerationRequest` of the API.
#[derive(Debug, Clone)]
pub struct MusicGenerationRequest {
    pub model: String,
    pub prompt: String,
    pub lyrics: String,
    pub audio_setting: MusicAudioSetting,
    pub output_format: Option<String>,
    pub audio_url: Option<String>,
    pub cover_feature_id: Option<String>,
    pub timbre: Option<String>,
    pub stream: Option<bool>,
    pub aigc_watermark: Option<bool>,
    pub lyrics_optimizer: Option<bool>,
    pub is_instrumental: Option<bool>,
}

/// `MusicAudioSetting` of the API.
#[derive(Debug, Clone)]
pub struct MusicAudioSetting {
    pub sample_rate: i32,
    pub bitrate: i32,
    pub format: String,
}

/// `MusicGenerationResponse` of the API.
#[derive(Debug, Clone)]
pub struct MusicGenerationResponse {
    pub base_resp: BaseResponse,
    pub data: Option<AudioData>,
}

/// `FileUploadResponse` of the API.
#[derive(Debug, Clone)]
pub struct FileUploadResponse {
    pub base_resp: BaseResponse,
    pub file: Option<UploadedFileInfo>,
}

/// `UploadedFileInfo` of the API.
#[derive(Debug, Clone)]
pub struct UploadedFileInfo {
    pub file_id: i64,
}

/// `ChatMessage` of the API.
#[derive(Debug, Clone)]
pub struct ChatMessage {
    pub role: String,
    pub content: String,
}

/// `ChatResponse` of the API.
#[derive(Debug, Clone)]
pub struct ChatResponse {
    pub id: String,
    pub model: String,
    pub role: String,
    pub content: Vec<ChatContentBlock>,
    pub stop_reason: Option<String>,
    pub usage: Option<ChatUsage>,
}

/// `ChatContentBlock` of the API.
#[derive(Debug, Clone)]
pub struct ChatContentBlock {
    pub block_type: String,
    pub text: Option<String>,
}

/// `ChatUsage` of the API.
#[derive(Debug, Clone)]
pub struct ChatUsage {
    pub input_tokens: Option<i32>,
    pub output_tokens: Option<i32>,
}

/// `LyricsGenerationRequest` of the API.
#[derive(Debug, Clone)]
pub struct LyricsGenerationRequest {
    pub mode: String,
    pub prompt: String,
    pub lyrics: Option<String>,
    pub title: Option<String>,
}

/// `LyricsGenerationResponse` of the API.
#[derive(Debug, Clone)]
pub struct LyricsGenerationResponse {
    pub base_resp: BaseResponse,
    pub song_title: Option<String>,
    pub style_tags: Option<String>,
    pub lyrics: Option<String>,
}

/// `MusicCoverPreprocessRequest` of the API.
#[derive(Debug, Clone)]
pub struct MusicCoverPreprocessRequest {
    pub audio_url: String,
}

/// `MusicCoverPreprocessResponse` of the API.
#[derive(Debug, Clone)]
pub struct MusicCoverPreprocessResponse {
    pub base_resp: BaseResponse,
    pub cover_feature_id: Option<String>,
}

/// `SearchRequest` of the API.
#[derive(Debug, Clone)]
pub struct SearchRequest {
    pub q: String,
}

/// `SearchResponse` of the API.
#[derive(Debug, Clone)]
pub struct SearchResponse {
    pub organic: Vec<SearchResult>,
    pub related_searches: Vec<RelatedSearch>,
    pub base_resp: Option<BaseResponse>,
}

/// `SearchResult` of the API.
#[derive(Debug, Clone)]
pub struct SearchResult {
    pub title: String,
    pub link: String,
    pub snippet: String,
    pub date: Option<String>,
}

/// `RelatedSearch` of the API.
#[derive(Debug, Clone)]
pub struct RelatedSearch {
    pub query: String,
}

/// `AsyncAudioSetting` of the API.
#[derive(Debug, Clone)]
pub struct AsyncAudioSetting {
    pub audio_sample_rate: i32,
    pub bitrate: i32,
    pub format: String,
    pub channel: i32,
}

/// `T2AAsyncCreateResponse` of the API.
#[derive(Debug, Clone)]
pub struct T2AAsyncCreateResponse {
    pub base_resp: BaseResponse,
    pub task_id: i64,
    pub task_token: String,
    pub file_id: i64,
    pub usage_characters: i32,
}

/// `T2AAsyncQueryResponse` of the API.
#[derive(Debug, Clone)]
pub struct T2AAsyncQueryResponse {
    pub base_resp: BaseResponse,
    pub status: String,
    pub task_id: i64,
    pub file_id: Option<i64>,
}

/// `VlmRequest` of the API.
#[derive(Debug, Clone)]
pub struct VlmRequest {
    pub prompt: String,
    pub image_url: String,
}

/// `VlmResponse` of the API.
#[derive(Debug, Clone)]
pub struct VlmResponse {
    pub content: Option<String>,
    pub base_resp: Option<BaseResponse>,
}


/// A subject reference of a video request: its type and image URLs.
#[derive(Debug, Clone)]
pub struct SubjectReference {
    pub reference_type: String,
    pub image: Vec<String>,
}

/// A designed voice as the voice list reports it; `description` is the text of the
/// description when the API gave one as a string.
#[derive(Debug, Clone)]
pub struct VoiceGenerationInfo {
    pub voice_id: String,
    pub description: Option<String>,
}

/// The response of a video-template query.
#[derive(Debug, Clone)]
pub struct VideoTemplateQueryResponse {
    pub status: String,
    pub video_url: Option<String>,
}

/// One text input of a video template.
#[derive(Debug, Clone)]
pub struct TextInput {
    pub value: String,
}

/// One media input of a video template.
#[derive(Debug, Clone)]
pub struct MediaInput {
    pub value: String,
}

/// A request to render a video template.
#[derive(Debug, Clone)]
pub struct VideoTemplateGenerationRequest {
    pub template_id: String,
    pub text_inputs: Option<Vec<TextInput>>,
    pub media_inputs: Option<Vec<MediaInput>>,
    pub callback_url: Option<String>,
}

/// The answer to a video-template request.
#[derive(Debug, Clone)]
pub struct VideoTemplateTaskResponse {
    pub task_id: Option<String>,
}

} // verus!
