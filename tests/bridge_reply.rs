use spotifydj::bridge::{
    finish_call, tts_endpoint, AuthError, AuthOutcome, CallFailure, Method, SessionHolder,
    TransportOutcome,
};
use spotifydj::reply::{assemble, respond};
use spotifydj::request::build;
use spotifydj::wire::encode_request;

fn authenticated() -> SessionHolder {
    let mut h = SessionHolder::new();
    assert_eq!(h.complete_auth(AuthOutcome::Accepted), Ok(()));
    h
}

#[test]
fn call_before_auth_fails_fast() {
    let h = SessionHolder::new();
    assert!(!h.is_authenticated());
    let e = h.prepare_call(&build("Hello there")).unwrap_err();
    assert!(matches!(e.cause, CallFailure::NotAuthenticated));
    assert_eq!(e.endpoint, "/client-tts/v1/fulfill");
}

#[test]
fn call_after_failed_auth_fails_fast() {
    let mut h = SessionHolder::new();
    assert_eq!(h.complete_auth(AuthOutcome::CredentialsRejected), Err(AuthError::Rejected));
    assert_eq!(h.complete_auth(AuthOutcome::Accepted), Err(AuthError::AlreadySettled));
    assert!(!h.is_authenticated());
    let e = h.prepare_call(&build("x")).unwrap_err();
    assert!(matches!(e.cause, CallFailure::NotAuthenticated));
}

#[test]
fn auth_network_failure_is_reported() {
    let mut h = SessionHolder::new();
    assert_eq!(h.complete_auth(AuthOutcome::NetworkFailure), Err(AuthError::Network));
    assert!(!h.is_authenticated());
}

#[test]
fn session_is_authenticated_once() {
    let mut h = authenticated();
    assert_eq!(h.complete_auth(AuthOutcome::NetworkFailure), Err(AuthError::AlreadySettled));
    assert!(h.is_authenticated());
}

#[test]
fn prepare_call_posts_encoded_request() {
    let h = authenticated();
    let req = build("Hello there");
    let call = h.prepare_call(&req).unwrap();
    assert_eq!(call.method, Method::Post);
    assert_eq!(call.endpoint, "/client-tts/v1/fulfill");
    assert_eq!(call.endpoint, tts_endpoint());
    assert_eq!(Ok(call.body), encode_request(&req));
}

#[test]
fn hello_there_pipeline_with_mocked_transport() {
    let h = authenticated();
    let req = build("Hello there");
    let _call = h.prepare_call(&req).unwrap();
    let prompt = "<speak xml:lang=\"en-US\">Hello there</speak>";
    let audio = finish_call(TransportOutcome::Response { status: 200, body: vec![0x01, 0x02, 0x03] });
    let reply = respond(prompt, audio).unwrap();
    assert_eq!(reply.attachment.bytes, vec![0x01, 0x02, 0x03]);
    assert_eq!(reply.attachment.filename, "spotify_dj.mp3");
    assert!(reply.content.contains(&format!("```xml\n{prompt}\n```")));
    assert!(reply.reply);
}

#[test]
fn non_success_status_gives_error_and_no_reply() {
    let r = finish_call(TransportOutcome::Response { status: 500, body: vec![9, 9] });
    let e = r.clone().unwrap_err();
    assert!(matches!(e.cause, CallFailure::Status(500)));
    assert_eq!(e.endpoint, "/client-tts/v1/fulfill");
    let out = respond("<speak xml:lang=\"en-US\">x</speak>", r);
    assert!(out.is_err());
}

#[test]
fn status_bounds_of_success() {
    assert!(finish_call(TransportOutcome::Response { status: 299, body: vec![] }).is_ok());
    assert!(finish_call(TransportOutcome::Response { status: 199, body: vec![] }).is_err());
    assert!(finish_call(TransportOutcome::Response { status: 300, body: vec![] }).is_err());
}

#[test]
fn transport_failure_gives_error() {
    let e = finish_call(TransportOutcome::Failed { cause: "connection reset".to_string() }).unwrap_err();
    match e.cause {
        CallFailure::Transport(c) => assert_eq!(c, "connection reset"),
        _ => panic!("expected a transport failure"),
    }
}

#[test]
fn concurrent_calls_get_their_own_results() {
    let h = authenticated();
    let a = build("first");
    let b = build("second");
    let call_a = h.prepare_call(&a).unwrap();
    let call_b = h.prepare_call(&b).unwrap();
    assert_eq!(Ok(call_a.body.clone()), encode_request(&a));
    assert_eq!(Ok(call_b.body.clone()), encode_request(&b));
    assert_ne!(call_a.body, call_b.body);
    let res_b = finish_call(TransportOutcome::Response { status: 200, body: vec![2, 2] });
    let res_a = finish_call(TransportOutcome::Response { status: 200, body: vec![1] });
    assert_eq!(res_a.unwrap(), vec![1]);
    assert_eq!(res_b.unwrap(), vec![2, 2]);
    assert!(h.is_authenticated());
}

#[test]
fn assemble_keeps_bytes_and_prompt() {
    let r = assemble("<speak xml:lang=\"en-US\">hi</speak>", vec![0, 255, 7]);
    assert_eq!(r.content, "Sending the following SSML: ```xml\n<speak xml:lang=\"en-US\">hi</speak>\n```");
    assert_eq!(r.attachment.bytes, vec![0, 255, 7]);
    assert_eq!(r.attachment.filename, "spotify_dj.mp3");
    let again = assemble("<speak xml:lang=\"en-US\">hi</speak>", vec![0, 255, 7]);
    assert_eq!(again.content, r.content);
    assert_eq!(again.attachment.bytes, r.attachment.bytes);
}

#[test]
fn assemble_empty_audio() {
    let r = assemble("", vec![]);
    assert!(r.attachment.bytes.is_empty());
    assert_eq!(r.content, "Sending the following SSML: ```xml\n\n```");
}
