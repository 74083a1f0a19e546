use ai_sidecar::api::{
    begin_generate, clear_history, finish_generate, handle_is_busy, ClearHistoryResponse,
    GenerateResponse, IsBusyResponse, GENERATION_FAILURE_MESSAGE, STATUS_CONFLICT,
    STATUS_INTERNAL_SERVER_ERROR, STATUS_OK, STATUS_UNAUTHORIZED,
};
use ai_sidecar::auth::valid_header;
use ai_sidecar::llm::{prepare_generation, EngineError, Options, DEFAULT_MAX_TOKENS};
use ai_sidecar::history::{History, MessageType};
use ai_sidecar::slot::{Conflict, GenerateError, Sidecar};

fn secret() -> String {
    "s3cret".to_string()
}

fn good() -> Option<String> {
    Some(secret())
}

fn opts(prompt: &str) -> Options {
    Options { setup: None, prompt: prompt.to_string(), max_tokens: None }
}

fn engine_error() -> EngineError {
    EngineError { message: "engine down".to_string() }
}

#[test]
fn header_check() {
    assert!(valid_header(&Some("abc".to_string()), &"abc".to_string()));
    assert!(!valid_header(&Some("abd".to_string()), &"abc".to_string()));
    assert!(!valid_header(&Some("".to_string()), &"abc".to_string()));
    assert!(!valid_header(&None, &"abc".to_string()));
    assert!(valid_header(&Some("".to_string()), &"".to_string()));
}

#[test]
fn prepare_appends_user_turn_before_rendering() {
    let mut h = History::new("sys".into());
    let req = prepare_generation(&mut h, opts("2+2?"));
    assert_eq!(req.max_tokens, DEFAULT_MAX_TOKENS);
    assert_eq!(req.max_tokens, 128);
    assert!(req.prompt.ends_with("<|user|>\n2+2?</s>\n<|assistant|>"));
    assert_eq!(req.prompt, h.get());
}

#[test]
fn prepare_with_setup_and_budget() {
    let mut h = History::new("sys".into());
    h.clear();
    let o = Options { setup: Some("other".into()), prompt: "p".into(), max_tokens: Some(7) };
    let req = prepare_generation(&mut h, o);
    assert_eq!(req.max_tokens, 7);
    assert_eq!(req.prompt, "<|system|>\nother</s>\n<|user|>\np</s>\n<|assistant|>");
    assert_eq!(h.get(), "<|system|>\nsys</s>\n<|user|>\np</s>\n<|assistant|>");
}

#[test]
fn generate_while_idle_succeeds() {
    let mut s = Sidecar::new("sys".into());
    let req = begin_generate(&mut s, &good(), &secret(), opts("2+2?")).unwrap();
    assert!(s.is_busy());
    assert!(req.prompt.ends_with("<|user|>\n2+2?</s>\n<|assistant|>"));
    let (code, body) = finish_generate(&mut s, Ok("4".to_string()));
    assert_eq!(code, STATUS_OK);
    assert_eq!(code, 200);
    assert_eq!(body, GenerateResponse::Success { message: "4".into() });
    assert!(!s.is_busy());
    assert!(s.history().get().ends_with("<|user|>\n2+2?</s>\n<|assistant|>\n4</s>\n<|assistant|>"));
}

#[test]
fn second_generate_while_busy_conflicts() {
    let mut s = Sidecar::new("sys".into());
    let _req = begin_generate(&mut s, &good(), &secret(), opts("first")).unwrap();
    let before = s.history().get();
    let second = begin_generate(&mut s, &good(), &secret(), opts("second"));
    match second {
        Err((code, body)) => {
            assert_eq!(code, STATUS_CONFLICT);
            assert_eq!(code, 409);
            assert_eq!(body, GenerateResponse::Busy);
        }
        Ok(_) => panic!("second generation was admitted"),
    }
    assert_eq!(s.history().get(), before);
    assert!(s.is_busy());
}

#[test]
fn engine_failure_releases_slot_and_keeps_user_turn() {
    let mut s = Sidecar::new("sys".into());
    let _req = begin_generate(&mut s, &good(), &secret(), opts("2+2?")).unwrap();
    let (code, body) = finish_generate(&mut s, Err(engine_error()));
    assert_eq!(code, STATUS_INTERNAL_SERVER_ERROR);
    assert_eq!(code, 500);
    assert_eq!(
        body,
        GenerateResponse::GenerateError { message: GENERATION_FAILURE_MESSAGE.to_string() }
    );
    assert!(!s.is_busy());
    assert!(s.history().get().ends_with("<|user|>\n2+2?</s>\n<|assistant|>"));
    assert!(!s.history().get().ends_with("</s>\n<|assistant|>\n</s>\n<|assistant|>"));
}

#[test]
fn single_flight_over_many_attempts() {
    let mut s = Sidecar::new("sys".into());
    assert!(s.try_begin(opts("a")).is_ok());
    for i in 0..5 {
        let r = s.try_begin(opts(&format!("late {i}")));
        assert_eq!(r.err(), Some(Conflict));
    }
    assert_eq!(s.finish(Ok("done".into())), Ok("done".to_string()));
    assert!(s.try_begin(opts("b")).is_ok());
    assert_eq!(s.finish(Err(engine_error())), Err(GenerateError::GenerationFailure));
    assert!(!s.is_busy());
}

#[test]
fn status_reflects_slot() {
    let mut s = Sidecar::new("sys".into());
    assert_eq!(handle_is_busy(&s, &good(), &secret()), (STATUS_OK, IsBusyResponse::Ready));
    let _req = s.try_begin(opts("x")).unwrap();
    assert_eq!(handle_is_busy(&s, &good(), &secret()), (STATUS_OK, IsBusyResponse::Busy));
}

#[test]
fn clear_while_idle_succeeds() {
    let mut s = Sidecar::new("sys".into());
    assert_eq!(
        clear_history(&mut s, &good(), &secret()),
        (STATUS_OK, ClearHistoryResponse::Success)
    );
    assert_eq!(s.history().get(), "<|system|>\nsys</s>\n<|assistant|>");
}

#[test]
fn clear_while_busy_conflicts() {
    let mut s = Sidecar::new("sys".into());
    let _req = s.try_begin(opts("x")).unwrap();
    let before = s.history().get();
    assert_eq!(
        clear_history(&mut s, &good(), &secret()),
        (STATUS_CONFLICT, ClearHistoryResponse::Busy)
    );
    assert_eq!(s.clear(), Err(Conflict));
    assert_eq!(s.history().get(), before);
    assert!(s.is_busy());
}

#[test]
fn unauthorized_requests_change_nothing() {
    for header in [None, Some("wrong".to_string()), Some("S3CRET".to_string())] {
        let mut s = Sidecar::new("sys".into());
        let before = s.history().get();
        assert_eq!(
            handle_is_busy(&s, &header, &secret()),
            (STATUS_UNAUTHORIZED, IsBusyResponse::Busy)
        );
        assert_eq!(
            clear_history(&mut s, &header, &secret()),
            (STATUS_UNAUTHORIZED, ClearHistoryResponse::Busy)
        );
        match begin_generate(&mut s, &header, &secret(), opts("p")) {
            Err((code, body)) => {
                assert_eq!(code, 401);
                assert_eq!(body, GenerateResponse::Busy);
            }
            Ok(_) => panic!("unauthorized generation was admitted"),
        }
        assert!(!s.is_busy());
        assert_eq!(s.history().get(), before);
    }
}

#[test]
fn history_push_through_sidecar_state() {
    let mut s = Sidecar::new("sys".into());
    let _ = s.try_begin(opts("q")).unwrap();
    let _ = s.finish(Ok("a".into()));
    let mut expected = History::new("sys".into());
    expected.push(MessageType::User, "q".into());
    expected.push(MessageType::Assistant, "a".into());
    assert_eq!(s.history().get(), expected.get());
}
