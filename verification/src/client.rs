//! The decisions of the MiniMax API client: endpoints, credentials, how a response's
//! status is judged, what a poll of a task decides, and request defaults.

use vstd::prelude::*;
use vstd::string::*;

use crate::error::{prefixed, MiniMaxError};
use crate::lexorder::{compare_str, StrOrder};
use crate::text::{contains_seq, decimal, i64_to_string, signed_decimal, str_contains};
use crate::types::{FileRetrieveResponse, VoiceListRequest};

verus! {

/// Default API host (mainland China region).
pub const DEFAULT_API_HOST: &'static str = "https://api.minimaxi.com";
/// Environment variable holding the API key.
pub const ENV_API_KEY: &'static str = "MINIMAX_API_KEY";
/// Environment variable holding the API host.
pub const ENV_API_HOST: &'static str = "MINIMAX_API_HOST";
/// Polls of a video task for most models.
pub const MAX_POLL_RETRIES: i32 = 30;
/// Polls of a video task for `Hailuo-02` models, which take longer.
pub const MAX_POLL_RETRIES_HAILUO_02: i32 = 60;
/// Seconds between polls of a video task.
pub const POLL_INTERVAL_SECS: u64 = 20;
/// Seconds between polls of an asynchronous speech task.
pub const ASYNC_TTS_POLL_INTERVAL_SECS: u64 = 5;
/// Polls of an asynchronous speech task.
pub const ASYNC_TTS_MAX_POLL_RETRIES: i32 = 120;
/// The status code by which the file service says a file is not ready yet.
pub const FILE_NOT_READY_CODE: i64 = 2013;

/// Where and with which key the client talks to the API.
#[derive(Debug, Clone)]
pub struct MiniMaxClient {
    pub base_url: String,
    pub api_key: String,
}

/// The `base_resp` member of a response, as far as it was present.
#[derive(Debug, Clone)]
pub struct BaseRespFields {
    pub status_code: Option<i64>,
    pub status_msg: Option<String>,
}

/// The message of a failed status, or `unknown error`.
pub open spec fn status_message(msg: Option<String>) -> Seq<char> {
    match msg {
        Some(m) => m@,
        None => "unknown error"@,
    }
}

/// What a poll of a video task decides.
#[derive(Debug)]
pub enum VideoPollStep {
    /// The task succeeded: fetch the download URL of this file.
    Download(String),
    /// Stop with this error.
    Failed(MiniMaxError),
    /// Not done yet: wait and poll again.
    Wait,
}

/// What one poll for a file's download URL decides.
#[derive(Debug)]
pub enum FilePollStep {
    /// The URL is ready.
    Ready(String),
    /// The file is not ready yet: wait, then poll again.
    WaitAndRetry,
    /// The answer held no file: poll again at once.
    RetryNow,
    /// Stop with this error.
    Fail(MiniMaxError),
}

impl MiniMaxClient {
    /// A client with explicit credentials.
    pub fn new(api_key: String, base_url: String) -> (c: MiniMaxClient)
        ensures
            c.api_key == api_key,
            c.base_url == base_url,
    {
        MiniMaxClient { base_url, api_key }
    }

    /// A client from the values of `MINIMAX_API_KEY` and `MINIMAX_API_HOST`: the key is
    /// required, the host defaults to `https://api.minimaxi.com`.
    pub fn from_env_values(api_key: Option<String>, api_host: Option<String>) -> (r: Result<
        MiniMaxClient,
        MiniMaxError,
    >)
        ensures
            r is Ok <==> api_key is Some,
            r matches Ok(c) ==> c.api_key@ == api_key->Some_0@ && c.base_url@ == (match api_host {
                Some(h) => h@,
                None => DEFAULT_API_HOST@,
            }),
            r matches Err(e) ==> (e matches MiniMaxError::MissingEnv(v) && v@ == ENV_API_KEY@),
    {
        match api_key {
            None => Err(MiniMaxError::MissingEnv(String::from_str(ENV_API_KEY))),
            Some(k) => {
                let base = match api_host {
                    Some(h) => h,
                    None => String::from_str(DEFAULT_API_HOST),
                };
                Ok(MiniMaxClient::new(k, base))
            },
        }
    }

    /// The URL of an endpoint: the base URL followed by the endpoint path.
    pub fn url(&self, endpoint: &str) -> (r: String)
        ensures
            r@ == self.base_url@ + endpoint@,
    {
        prefixed(self.base_url.as_str(), endpoint)
    }

    /// The value of the `Authorization` header.
    pub fn bearer(&self) -> (r: String)
        ensures
            r@ == "Bearer "@ + self.api_key@,
    {
        prefixed("Bearer ", self.api_key.as_str())
    }
}

/// Judges a response by its `base_resp`: a status code other than 0 is an API error
/// that carries the code, the status message (or `unknown error`) and the trace id.
/// A response without `base_resp`, or without a code, passes.
pub fn check_base_resp(base_resp: Option<BaseRespFields>, trace_id: Option<String>) -> (r: Result<
    (),
    MiniMaxError,
>)
    ensures
        match base_resp {
            None => r is Ok,
            Some(b) => {
                let code: i64 = match b.status_code {
                    Some(c) => c,
                    None => 0i64,
                };
                &&& code == 0 ==> r is Ok
                &&& code != 0 ==> (r matches Err(MiniMaxError::Api { code: c, message, trace_id: t })
                    && c == code as i32 && message@ == status_message(b.status_msg) && t == trace_id)
            },
        },
{
    match base_resp {
        None => Ok(()),
        Some(b) => {
            let code = match b.status_code {
                Some(c) => c,
                None => 0,
            };
            if code != 0 {
                let message = match b.status_msg {
                    Some(m) => m,
                    None => String::from_str("unknown error"),
                };
                Err(MiniMaxError::Api { code: code as i32, message, trace_id })
            } else {
                Ok(())
            }
        },
    }
}

/// The body of a voice-list request. Without a type the request asks for the system
/// voices, since the API refuses an empty body.
pub fn voice_list_request(voice_type: Option<&str>) -> (r: VoiceListRequest)
    ensures
        r.voice_type is Some,
        r.voice_type->Some_0@ == (match voice_type {
            Some(t) => t@,
            None => "system"@,
        }),
{
    match voice_type {
        Some(t) => VoiceListRequest { voice_type: Some(String::from_str(t)) },
        None => VoiceListRequest { voice_type: Some(String::from_str("system")) },
    }
}

/// `/v1/query/video_generation?task_id=<task_id>`.
pub fn video_query_endpoint(task_id: &str) -> (r: String)
    ensures
        r@ == "/v1/query/video_generation?task_id="@ + task_id@,
{
    prefixed("/v1/query/video_generation?task_id=", task_id)
}

/// `/v1/files/retrieve?file_id=<file_id>`.
pub fn file_retrieve_endpoint(file_id: &str) -> (r: String)
    ensures
        r@ == "/v1/files/retrieve?file_id="@ + file_id@,
{
    prefixed("/v1/files/retrieve?file_id=", file_id)
}

/// `/v1/files/list?purpose=<purpose>`.
pub fn files_list_endpoint(purpose: &str) -> (r: String)
    ensures
        r@ == "/v1/files/list?purpose="@ + purpose@,
{
    prefixed("/v1/files/list?purpose=", purpose)
}

/// `/v1/query/video_template_generation?task_id=<task_id>`.
pub fn video_template_query_endpoint(task_id: &str) -> (r: String)
    ensures
        r@ == "/v1/query/video_template_generation?task_id="@ + task_id@,
{
    prefixed("/v1/query/video_template_generation?task_id=", task_id)
}

/// `/v1/query/t2a_async_query_v2?task_id=<task_id>`.
pub fn async_tts_query_endpoint(task_id: i64) -> (r: String)
    ensures
        r@ == "/v1/query/t2a_async_query_v2?task_id="@ + signed_decimal(task_id as int),
{
    prefixed("/v1/query/t2a_async_query_v2?task_id=", i64_to_string(task_id).as_str())
}

/// The download URL of a retrieved file, or an API error when the response holds none.
pub fn file_download_url(resp: FileRetrieveResponse) -> (r: Result<String, MiniMaxError>)
    ensures
        r is Ok <==> resp.file is Some,
        r matches Ok(u) ==> u == resp.file->Some_0.download_url,
        r matches Err(e) ==> (e matches MiniMaxError::Api { code, message, trace_id } && code == -1
            && message@ == "no download_url in response"@ && trace_id is None),
{
    match resp.file {
        Some(f) => Ok(f.download_url),
        None => Err(
            MiniMaxError::Api {
                code: -1,
                message: String::from_str("no download_url in response"),
                trace_id: None,
            },
        ),
    }
}

/// How many times a video task is polled: more for `Hailuo-02` models.
pub fn video_poll_limit(model: &str) -> (n: i32)
    ensures
        n == if contains_seq(model@, "Hailuo-02"@) {
            MAX_POLL_RETRIES_HAILUO_02
        } else {
            MAX_POLL_RETRIES
        },
{
    if str_contains(model, "Hailuo-02") {
        MAX_POLL_RETRIES_HAILUO_02
    } else {
        MAX_POLL_RETRIES
    }
}

/// Decides on one poll of a video task: `Success` fetches the result file (an API
/// error when there is no file id), `Fail` stops as a failed task, anything else waits.
pub fn video_poll_step(status: &str, file_id: Option<String>, task_id: &str) -> (r: VideoPollStep)
    ensures
        status@ == "Success"@ ==> match file_id {
            Some(f) => r matches VideoPollStep::Download(g) && g == f,
            None => r matches VideoPollStep::Failed(MiniMaxError::Api { code, message, trace_id })
                && code == -1 && message@ == "task succeeded but no file_id"@ && trace_id is None,
        },
        status@ == "Fail"@ ==> (r matches VideoPollStep::Failed(MiniMaxError::TaskFailed { task_id: t })
            && t@ == task_id@),
        status@ != "Success"@ && status@ != "Fail"@ ==> r is Wait,
{
    proof {
        reveal_strlit("Success");
        reveal_strlit("Fail");
        assert("Success"@.len() != "Fail"@.len());
    }
    if compare_str(status, "Success") == StrOrder::Equal {
        match file_id {
            Some(f) => VideoPollStep::Download(f),
            None => VideoPollStep::Failed(
                MiniMaxError::Api {
                    code: -1,
                    message: String::from_str("task succeeded but no file_id"),
                    trace_id: None,
                },
            ),
        }
    } else if compare_str(status, "Fail") == StrOrder::Equal {
        VideoPollStep::Failed(MiniMaxError::TaskFailed { task_id: String::from_str(task_id) })
    } else {
        VideoPollStep::Wait
    }
}

/// The error of a task still unfinished after `max_retries` polls.
pub fn poll_timeout(task_id: String, max_retries: i32) -> (e: MiniMaxError)
    ensures
        e matches MiniMaxError::TaskTimeout { task_id: t, max_retries: m } && t == task_id && m
            == max_retries,
{
    MiniMaxError::TaskTimeout { task_id, max_retries }
}

/// Decides on one poll for a file's download URL. The code defaults to -1 when the
/// answer has none; 2013 means not ready (wait and retry), any other non-zero code is an
/// API error, and a zero code gives the URL when the answer holds a file.
pub fn file_poll_step(code: Option<i64>, msg: Option<String>, download_url: Option<String>) -> (r:
    FilePollStep)
    ensures
        ({
            let c: i64 = match code {
                Some(c) => c,
                None => -1i64,
            };
            &&& c == FILE_NOT_READY_CODE ==> r is WaitAndRetry
            &&& c != FILE_NOT_READY_CODE && c != 0 ==> (r matches FilePollStep::Fail(
                MiniMaxError::Api { code: k, message, trace_id },
            ) && k == c as i32 && message@ == status_message(msg) && trace_id is None)
            &&& c == 0 ==> match download_url {
                Some(u) => r matches FilePollStep::Ready(v) && v == u,
                None => r is RetryNow,
            }
        }),
{
    let c = match code {
        Some(c) => c,
        None => -1,
    };
    if c == FILE_NOT_READY_CODE {
        return FilePollStep::WaitAndRetry;
    }
    if c != 0 {
        let message = match msg {
            Some(m) => m,
            None => String::from_str("unknown error"),
        };
        return FilePollStep::Fail(MiniMaxError::Api { code: c as i32, message, trace_id: None });
    }
    match download_url {
        Some(u) => FilePollStep::Ready(u),
        None => FilePollStep::RetryNow,
    }
}

/// The error for an HTTP status other than success on the chat endpoint: the status
/// becomes the code and the body the message.
pub fn http_status_error(status: u16, body: String) -> (e: MiniMaxError)
    ensures
        e matches MiniMaxError::Api { code, message, trace_id } && code == status as i32 && message
            == body && trace_id is None,
{
    MiniMaxError::Api { code: status as i32, message: body, trace_id: None }
}

/// How many polls of a task are left: a task is polled at most `max_retries` times,
/// then given up with a timeout.
#[derive(Debug, Clone, Copy)]
pub struct PollBudget {
    pub attempt: i32,
    pub max_retries: i32,
}

impl PollBudget {
    /// A budget of `max_retries` polls, none made yet.
    pub fn new(max_retries: i32) -> (b: PollBudget)
        ensures
            b.attempt == 0,
            b.max_retries == max_retries,
    {
        PollBudget { attempt: 0, max_retries }
    }

    /// Takes one poll from the budget: whether a poll may be made now (counting it).
    pub fn next(&mut self) -> (go: bool)
        requires
            0 <= old(self).attempt,
        ensures
            go == (old(self).attempt < old(self).max_retries),
            final(self).max_retries == old(self).max_retries,
            final(self).attempt == if go {
                old(self).attempt + 1
            } else {
                old(self).attempt as int
            },
    {
        if self.attempt < self.max_retries {
            self.attempt = self.attempt + 1;
            true
        } else {
            false
        }
    }
}

} // verus!
