//! Request and response bodies of the REST API, and what each endpoint
//! answers for a controller outcome. Routing and the HTTP server are the
//! caller's.

use vstd::prelude::*;

use crate::model::{opt_view, AiModel};

verus! {

/// `200 OK`.
pub const STATUS_OK: u16 = 200;

/// `400 Bad Request`.
pub const STATUS_BAD_REQUEST: u16 = 400;

/// `503 Service Unavailable`.
pub const STATUS_SERVICE_UNAVAILABLE: u16 = 503;

/// Body of `GET /ai/status`.
#[derive(Debug)]
pub struct EngineStatusBody {
    pub running: bool,
    pub port: Option<u16>,
    pub api_url: Option<String>,
}

impl EngineStatusBody {
    /// The status body for a snapshot of the engine state.
    pub fn from_snapshot(snap: &AiModel) -> (b: Self)
        ensures
            b.running == snap.running,
            b.port == snap.port,
            opt_view(b.api_url) == snap@.api_url(),
    {
        EngineStatusBody { running: snap.running, port: snap.port, api_url: snap.api_url() }
    }
}

/// Body of `POST /ai/chat`.
#[derive(Debug)]
pub struct ChatBody {
    /// The user question.
    pub question: String,
    /// Optional context string (e.g. active app or screen); empty when absent.
    pub context: String,
}

/// Answer of `POST /ai/chat`.
#[derive(Debug)]
pub struct ChatResponse {
    pub answer: String,
    pub ok: bool,
    pub error: Option<String>,
}

/// Body of `POST /ai/start`.
#[derive(Debug)]
pub struct StartBody {
    /// Model ID to start (e.g. qwen3-4b).
    pub model_id: String,
}

/// Status code and body that `POST /ai/chat` answers for a chat outcome:
/// the answer with `200`, or the error with `503`.
pub fn chat_reply(outcome: Result<String, String>) -> (r: (u16, ChatResponse))
    ensures
        match outcome {
            Ok(a) => r.0 == STATUS_OK && r.1.answer == a && r.1.ok && r.1.error is None,
            Err(e) => r.0 == STATUS_SERVICE_UNAVAILABLE && r.1.answer@.len() == 0 && !r.1.ok
                && r.1.error == Some(e),
        },
{
    match outcome {
        Ok(answer) => (STATUS_OK, ChatResponse { answer, ok: true, error: None }),
        Err(e) => (
            STATUS_SERVICE_UNAVAILABLE,
            ChatResponse { answer: String::new(), ok: false, error: Some(e) },
        ),
    }
}

/// Status code of `POST /ai/start`: `200` when the engine started, else `400`.
pub fn start_reply(outcome: &Result<u16, String>) -> (code: u16)
    ensures
        code == if outcome is Ok {
            STATUS_OK
        } else {
            STATUS_BAD_REQUEST
        },
{
    match outcome {
        Ok(_) => STATUS_OK,
        Err(_) => STATUS_BAD_REQUEST,
    }
}

/// Status code of `POST /ai/stop`: always `200`, whatever the stop did.
pub fn stop_reply(_outcome: &Result<(), String>) -> (code: u16)
    ensures
        code == STATUS_OK,
{
    STATUS_OK
}

} // verus!
