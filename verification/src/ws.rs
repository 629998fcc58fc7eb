//! The decisions of the streaming speech protocol over WebSocket: the endpoint, the
//! checks on each event, and how audio chunks are collected.

use vstd::prelude::*;
use vstd::string::*;

use crate::error::{prefixed, MiniMaxError};
use crate::lexorder::{compare_str, StrOrder};
use crate::text::{occurs_at, occurs_at_pos};
use crate::utils::{hex_bytes, hex_decode, hex_error_text, hex_rejects, is_hex_digit, HexError};

verus! {

/// `s` with every occurrence of `from` (taken left to right, not overlapping)
/// replaced by `to`.
pub open spec fn replace_all(s: Seq<char>, from: Seq<char>, to: Seq<char>) -> Seq<char>
    decreases s.len(),
{
    if from.len() == 0 || s.len() == 0 {
        s
    } else if occurs_at(s, from, 0) {
        to + replace_all(s.skip(from.len() as int), from, to)
    } else {
        seq![s[0]] + replace_all(s.skip(1), from, to)
    }
}

/// `s.replace(from, to)` for a non-empty pattern.
pub fn replace(s: &str, from: &str, to: &str) -> (r: String)
    requires
        from@.len() > 0,
    ensures
        r@ == replace_all(s@, from@, to@),
{
    let n = s.unicode_len();
    let m = from.unicode_len();
    let mut r = String::new();
    let mut i: usize = 0;
    assert(s@.skip(0) =~= s@);
    while i < n
        invariant
            n == s@.len(),
            m == from@.len(),
            m > 0,
            i <= n,
            r@ + replace_all(s@.skip(i as int), from@, to@) == replace_all(s@, from@, to@),
        decreases n - i,
    {
        let ghost t = s@.skip(i as int);
        let hit = occurs_at_pos(s, from, i);
        if hit {
            assert(t.subrange(0, m as int) =~= s@.subrange(i as int, i + m));
            assert(t.skip(m as int) =~= s@.skip(i + m));
            assert(replace_all(t, from@, to@) == to@ + replace_all(t.skip(m as int), from@, to@));
            let ghost before = r@;
            r.append(to);
            assert(r@ + replace_all(s@.skip(i + m), from@, to@) =~= before + (to@ + replace_all(
                s@.skip(i + m),
                from@,
                to@,
            )));
            i = i + m;
        } else {
            assert(!occurs_at(t, from@, 0)) by {
                if i + m <= n {
                    assert(t.subrange(0, m as int) =~= s@.subrange(i as int, i + m));
                }
            }
            assert(t.skip(1) =~= s@.skip(i + 1));
            let c = s.get_char(i);
            let ghost before = r@;
            let single = s.substring_char(i, i + 1);
            assert(single@ =~= seq![c]);
            r.append(single);
            assert(r@ + replace_all(s@.skip(i + 1), from@, to@) =~= before + (seq![c] + replace_all(
                s@.skip(i + 1),
                from@,
                to@,
            )));
            i = i + 1;
        }
    }
    assert(replace_all(s@.skip(n as int), from@, to@) =~= Seq::<char>::empty());
    assert(r@ =~= r@ + Seq::<char>::empty());
    r
}

/// The WebSocket endpoint of streaming speech: the API base URL with `https://` made
/// `wss://` and `http://` made `ws://`, then `/ws/v1/t2a_v2`.
pub open spec fn ws_url_text(base_url: Seq<char>) -> Seq<char> {
    replace_all(replace_all(base_url, "https://"@, "wss://"@), "http://"@, "ws://"@)
        + "/ws/v1/t2a_v2"@
}

/// The WebSocket endpoint for an API base URL.
pub fn ws_url(base_url: &str) -> (r: String)
    ensures
        r@ == ws_url_text(base_url@),
{
    proof {
        reveal_strlit("https://");
        reveal_strlit("http://");
    }
    let a = replace(base_url, "https://", "wss://");
    let mut b = replace(a.as_str(), "http://", "ws://");
    b.append("/ws/v1/t2a_v2");
    b
}

/// An API error with code -1 and this message.
fn protocol_error(message: String) -> (e: MiniMaxError)
    ensures
        e matches MiniMaxError::Api { code, message: m, trace_id } && code == -1 && m == message
            && trace_id is None,
{
    MiniMaxError::Api { code: -1, message, trace_id: None }
}

/// The code of an event, or `default` when it has none.
pub open spec fn code_or(code: Option<i64>, default: i64) -> i64 {
    match code {
        Some(c) => c,
        None => default,
    }
}

/// The message of an event, or `unknown` when it has none.
pub open spec fn msg_or_unknown(msg: Option<String>) -> Seq<char> {
    match msg {
        Some(m) => m@,
        None => "unknown"@,
    }
}

/// `e` is an API error with this code and message and no trace id.
pub open spec fn api_error(e: MiniMaxError, code: int, message: Seq<char>) -> bool {
    e matches MiniMaxError::Api { code: c, message: m, trace_id } && c == code && m@ == message
        && trace_id is None
}

/// Checks the first message after connecting: it must be a text message whose event is
/// `connected_success` and whose status code (0 when absent) is 0.
pub fn check_connected(is_text: bool, event: Option<String>, code: Option<i64>, msg: Option<String>) -> (r:
    Result<(), MiniMaxError>)
    ensures
        ({
            let ev = match event {
                Some(e) => e@,
                None => ""@,
            };
            &&& !is_text ==> (r matches Err(e) && api_error(
                e,
                -1,
                "expected text message for connected_success"@,
            ))
            &&& is_text && ev != "connected_success"@ ==> (r matches Err(e) && api_error(
                e,
                -1,
                "unexpected event on connect: "@ + ev,
            ))
            &&& is_text && ev == "connected_success"@ && code_or(code, 0i64) != 0 ==> (r matches Err(e)
                && api_error(e, code_or(code, 0i64) as i32 as int, msg_or_unknown(msg)))
            &&& r is Ok <==> is_text && ev == "connected_success"@ && code_or(code, 0i64) == 0
        }),
{
    if !is_text {
        return Err(protocol_error(String::from_str("expected text message for connected_success")));
    }
    let ev = match event {
        Some(e) => e,
        None => String::from_str(""),
    };
    if compare_str(ev.as_str(), "connected_success") != StrOrder::Equal {
        return Err(protocol_error(prefixed("unexpected event on connect: ", ev.as_str())));
    }
    let c = match code {
        Some(c) => c,
        None => 0,
    };
    if c != 0 {
        let m = match msg {
            Some(m) => m,
            None => String::from_str("unknown"),
        };
        return Err(MiniMaxError::Api { code: c as i32, message: m, trace_id: None });
    }
    Ok(())
}

/// Checks the answer to a command: `task_failed` is an error with its code (-1 when
/// absent); any event other than `expected` is a protocol error; a non-zero status code
/// (0 when absent) is an error.
pub fn check_event_status(event: Option<String>, code: Option<i64>, msg: Option<String>, expected: &str) -> (r:
    Result<(), MiniMaxError>)
    ensures
        ({
            let ev = match event {
                Some(e) => e@,
                None => ""@,
            };
            &&& ev == "task_failed"@ ==> (r matches Err(e) && api_error(
                e,
                code_or(code, -1i64) as i32 as int,
                msg_or_unknown(msg),
            ))
            &&& ev != "task_failed"@ && ev != expected@ ==> (r matches Err(e) && api_error(
                e,
                -1,
                "expected "@ + expected@ + ", got "@ + ev,
            ))
            &&& ev != "task_failed"@ && ev == expected@ && code_or(code, 0i64) != 0 ==> (r matches Err(e)
                && api_error(e, code_or(code, 0i64) as i32 as int, msg_or_unknown(msg)))
            &&& r is Ok <==> ev != "task_failed"@ && ev == expected@ && code_or(code, 0i64) == 0
        }),
{
    let ev = match event {
        Some(e) => e,
        None => String::from_str(""),
    };
    if compare_str(ev.as_str(), "task_failed") == StrOrder::Equal {
        let c = match code {
            Some(c) => c,
            None => -1,
        };
        let m = match msg {
            Some(m) => m,
            None => String::from_str("unknown"),
        };
        return Err(MiniMaxError::Api { code: c as i32, message: m, trace_id: None });
    }
    if compare_str(ev.as_str(), expected) != StrOrder::Equal {
        let mut m = prefixed("expected ", expected);
        m.append(", got ");
        m.append(ev.as_str());
        return Err(protocol_error(m));
    }
    let c = match code {
        Some(c) => c,
        None => 0,
    };
    if c != 0 {
        let m = match msg {
            Some(m) => m,
            None => String::from_str("unknown"),
        };
        return Err(MiniMaxError::Api { code: c as i32, message: m, trace_id: None });
    }
    Ok(())
}

/// The audio collected from a stream of `task_continued` events.
#[derive(Debug)]
pub struct AudioCollector {
    pub audio: Vec<u8>,
    pub is_final: bool,
}

/// What to do after one event of the stream.
#[derive(Debug, PartialEq, Eq, Structural)]
pub enum StreamStep {
    /// Read the next event.
    Continue,
    /// The stream is over.
    Stop,
}

/// The bytes of hex text, when it is valid hex.
pub open spec fn hex_ok(h: Seq<u8>) -> bool {
    h.len() % 2 == 0 && forall|i: int| 0 <= i < h.len() ==> is_hex_digit(#[trigger] h[i])
}

impl AudioCollector {
    /// A collector with no audio yet.
    pub fn new() -> (c: AudioCollector)
        ensures
            c.audio@.len() == 0,
            !c.is_final,
    {
        AudioCollector { audio: Vec::new(), is_final: false }
    }

    /// Takes one event of the stream. `task_failed` is an error (code -1 when absent).
    /// `task_continued` adds its hex audio, if any, and ends the stream when it is
    /// final. Any other event ends the stream.
    pub fn on_event(
        &mut self,
        event: Option<String>,
        code: Option<i64>,
        msg: Option<String>,
        audio_hex: Option<String>,
        is_final: Option<bool>,
    ) -> (r: Result<StreamStep, MiniMaxError>)
        ensures
            ({
                let ev = match event {
                    Some(e) => e@,
                    None => ""@,
                };
                &&& ev == "task_failed"@ ==> (r matches Err(e) && api_error(
                    e,
                    code_or(code, -1i64) as i32 as int,
                    msg_or_unknown(msg),
                )) && final(self).audio@ == old(self).audio@
                &&& ev != "task_failed"@ && ev != "task_continued"@ ==> r == Ok::<StreamStep, MiniMaxError>(
                    StreamStep::Stop,
                ) && final(self).audio@ == old(self).audio@
                &&& ev == "task_continued"@ ==> match audio_hex {
                    Some(h) => if hex_ok(vstd::utf8::encode_utf8(h@)) {
                        &&& final(self).audio@ == old(self).audio@ + hex_bytes(vstd::utf8::encode_utf8(h@))
                        &&& final(self).is_final == (is_final == Some(true))
                        &&& r == Ok::<StreamStep, MiniMaxError>(
                            if is_final == Some(true) { StreamStep::Stop } else { StreamStep::Continue },
                        )
                    } else {
                        r matches Err(e) && exists|he: HexError|
                            hex_rejects(vstd::utf8::encode_utf8(h@), he) && api_error(
                                e,
                                -1,
                                "hex decode error: "@ + hex_error_text(he),
                            )
                    },
                    None => {
                        &&& final(self).audio@ == old(self).audio@
                        &&& final(self).is_final == (is_final == Some(true))
                        &&& r == Ok::<StreamStep, MiniMaxError>(
                            if is_final == Some(true) { StreamStep::Stop } else { StreamStep::Continue },
                        )
                    },
                }
            }),
    {
        proof {
            reveal_strlit("task_failed");
            reveal_strlit("task_continued");
            assert("task_failed"@.len() != "task_continued"@.len());
        }
        let ev = match event {
            Some(e) => e,
            None => String::from_str(""),
        };
        if compare_str(ev.as_str(), "task_failed") == StrOrder::Equal {
            let c = match code {
                Some(c) => c,
                None => -1,
            };
            let m = match msg {
                Some(m) => m,
                None => String::from_str("unknown"),
            };
            return Err(MiniMaxError::Api { code: c as i32, message: m, trace_id: None });
        }
        if compare_str(ev.as_str(), "task_continued") != StrOrder::Equal {
            return Ok(StreamStep::Stop);
        }
        match audio_hex {
            Some(h) => {
                match hex_decode(h.as_str().as_bytes()) {
                    Ok(mut bytes) => {
                        self.audio.append(&mut bytes);
                    },
                    Err(e) => {
                        return Err(protocol_error(prefixed("hex decode error: ", e.message().as_str())));
                    },
                }
            },
            None => {},
        }
        let last = match is_final {
            Some(b) => b,
            None => false,
        };
        self.is_final = last;
        if last {
            Ok(StreamStep::Stop)
        } else {
            Ok(StreamStep::Continue)
        }
    }
}

/// How waiting for a message of the stream failed.
#[derive(Debug, Clone)]
pub enum WsWaitFailure {
    /// No message within the time limit.
    Timeout,
    /// The stream ended.
    Ended,
    /// The connection reported an error with this text.
    Error(String),
    /// The server sent a close frame.
    CloseFrame,
    /// A message that is not text, shown as this text.
    NotText(String),
}

/// The API error (code -1) for a failed wait for the event `expected`.
pub fn ws_wait_error(f: WsWaitFailure, expected: &str) -> (e: MiniMaxError)
    ensures
        api_error(
            e,
            -1,
            match f {
                WsWaitFailure::Timeout => "timeout waiting for "@ + expected@,
                WsWaitFailure::Ended => "WebSocket closed while waiting for "@ + expected@,
                WsWaitFailure::Error(m) => "WebSocket error: "@ + m@,
                WsWaitFailure::CloseFrame => "WebSocket closed by server"@,
                WsWaitFailure::NotText(m) => "unexpected message type: "@ + m@,
            },
        ),
{
    let m = match f {
        WsWaitFailure::Timeout => prefixed("timeout waiting for ", expected),
        WsWaitFailure::Ended => prefixed("WebSocket closed while waiting for ", expected),
        WsWaitFailure::Error(m) => prefixed("WebSocket error: ", m.as_str()),
        WsWaitFailure::CloseFrame => String::from_str("WebSocket closed by server"),
        WsWaitFailure::NotText(m) => prefixed("unexpected message type: ", m.as_str()),
    };
    protocol_error(m)
}

/// An API error (code -1) whose message is `what` followed by the failure's text, as
/// the stream reports failures to send, serialize or parse.
pub fn ws_step_error(what: &str, detail: &str) -> (e: MiniMaxError)
    ensures
        api_error(e, -1, what@ + detail@),
{
    protocol_error(prefixed(what, detail))
}

} // verus!
