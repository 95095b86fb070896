use fs_ai::model::AiModel;
use fs_ai::rest::{
    chat_reply, start_reply, stop_reply, EngineStatusBody, STATUS_BAD_REQUEST, STATUS_OK,
    STATUS_SERVICE_UNAVAILABLE,
};

#[test]
fn status_of_stopped_engine() {
    let b = EngineStatusBody::from_snapshot(&AiModel::new());
    assert!(!b.running);
    assert_eq!(b.port, None);
    assert_eq!(b.api_url, None);
}

#[test]
fn status_of_running_engine() {
    let mut m = AiModel::new();
    m.set_running(65535);
    let b = EngineStatusBody::from_snapshot(&m);
    assert!(b.running);
    assert_eq!(b.port, Some(65535));
    assert_eq!(b.api_url.as_deref(), Some("http://127.0.0.1:65535/v1"));
}

#[test]
fn chat_answers() {
    let (code, body) = chat_reply(Ok("42".to_string()));
    assert_eq!(code, 200);
    assert_eq!(body.answer, "42");
    assert!(body.ok);
    assert_eq!(body.error, None);

    let (code, body) = chat_reply(Err("AI engine is not running".to_string()));
    assert_eq!(code, STATUS_SERVICE_UNAVAILABLE);
    assert_eq!(code, 503);
    assert_eq!(body.answer, "");
    assert!(!body.ok);
    assert_eq!(body.error.as_deref(), Some("AI engine is not running"));
}

#[test]
fn start_and_stop_codes() {
    assert_eq!(start_reply(&Ok(8080)), STATUS_OK);
    assert_eq!(start_reply(&Err("unknown model: x".to_string())), STATUS_BAD_REQUEST);
    assert_eq!(STATUS_BAD_REQUEST, 400);
    assert_eq!(stop_reply(&Ok(())), 200);
    assert_eq!(stop_reply(&Err("no active model".to_string())), 200);
}
