use askollama::{
    DEBOUNCE_MS, EngineRun, EventKind, ExplainError, ExtractError, FileEvent, HttpOutcome,
    Publication, WatchStep, WatcherMessage, conclude_explanation, dispatch_target, engine_name,
    event_publications, extraction_command, finish_extraction, plan_after_extraction,
    publication_after_explanation, watch_step,
};

#[test]
fn create_event_dispatches_first_path() {
    let e = FileEvent {
        kind: EventKind::Create,
        paths: vec!["/shots/a.png".to_string(), "/shots/b.png".to_string()],
    };
    assert_eq!(dispatch_target(&e), Some("/shots/a.png".to_string()));
    let step = watch_step(WatcherMessage::Event(e));
    assert!(matches!(step, WatchStep::Dispatch(p) if p == "/shots/a.png"));
}

#[test]
fn debounce_interval_is_200ms() {
    assert_eq!(DEBOUNCE_MS, 200);
}

#[test]
fn non_create_events_are_discarded() {
    for kind in [EventKind::Modify, EventKind::Remove, EventKind::Other] {
        let e = FileEvent { kind, paths: vec!["/shots/a.png".to_string()] };
        assert_eq!(dispatch_target(&e), None);
    }
    let empty = FileEvent { kind: EventKind::Create, paths: vec![] };
    assert_eq!(dispatch_target(&empty), None);
    assert!(matches!(
        watch_step(WatcherMessage::Event(empty)),
        WatchStep::Ignore
    ));
    assert!(matches!(watch_step(WatcherMessage::Fault), WatchStep::Ignore));
    assert!(matches!(watch_step(WatcherMessage::Closed), WatchStep::Stop));
}

#[test]
fn failed_extraction_makes_no_explanation_call() {
    for auto in [false, true] {
        let plan = plan_after_extraction(&Err(ExtractError::EngineExecutionFailed), auto);
        assert_eq!(plan.publish_ocr, None);
        assert_eq!(plan.explain_input, None);
        let ps = event_publications(
            &Err(ExtractError::EngineExecutionFailed),
            auto,
            &Ok("unused".to_string()),
        );
        assert!(ps.is_empty());
    }
}

#[test]
fn ocr_published_without_explanation_when_auto_off() {
    let plan = plan_after_extraction(&Ok("text".to_string()), false);
    assert_eq!(plan.publish_ocr, Some("text".to_string()));
    assert_eq!(plan.explain_input, None);
    let ps = event_publications(&Ok("text".to_string()), false, &Ok("unused".to_string()));
    assert_eq!(ps, vec![Publication::Ocr("text".to_string())]);
}

#[test]
fn ocr_then_explanation_when_auto_on() {
    let plan = plan_after_extraction(&Ok("text".to_string()), true);
    assert_eq!(plan.publish_ocr, Some("text".to_string()));
    assert_eq!(plan.explain_input, Some("text".to_string()));
    let ps = event_publications(&Ok("text".to_string()), true, &Ok("meaning".to_string()));
    assert_eq!(
        ps,
        vec![
            Publication::Ocr("text".to_string()),
            Publication::Explanation("meaning".to_string()),
        ]
    );
}

#[test]
fn failed_explanation_still_publishes_ocr() {
    let ps = event_publications(
        &Ok("text".to_string()),
        true,
        &Err(ExplainError::ConnectionFailed),
    );
    assert_eq!(ps, vec![Publication::Ocr("text".to_string())]);
}

#[test]
fn missing_engine_fails_without_spawn() {
    let r = extraction_command(false, "/shots/a.png");
    assert_eq!(r, Err(ExtractError::EngineNotFound));
}

#[test]
fn engine_invocation_arguments() {
    assert_eq!(engine_name(), "tesseract");
    let args = extraction_command(true, "/shots/a.png").unwrap();
    assert_eq!(args, vec!["/shots/a.png", "stdout", "-l", "eng"]);
}

#[test]
fn successful_run_decodes_stdout() {
    let run = EngineRun { exit_success: true, stdout: b"hello world".to_vec() };
    assert_eq!(finish_extraction(Some(run)), Ok("hello world".to_string()));
}

#[test]
fn invalid_utf8_is_replaced() {
    let run = EngineRun { exit_success: true, stdout: vec![0x68, 0xff, 0x69] };
    assert_eq!(finish_extraction(Some(run)), Ok("h\u{fffd}i".to_string()));
}

#[test]
fn failed_run_is_execution_failure() {
    assert_eq!(
        finish_extraction(None),
        Err(ExtractError::EngineExecutionFailed)
    );
    let run = EngineRun { exit_success: false, stdout: b"partial".to_vec() };
    assert_eq!(
        finish_extraction(Some(run)),
        Err(ExtractError::EngineExecutionFailed)
    );
}

#[test]
fn service_error_carries_status() {
    let outcome = HttpOutcome::Response { status: 500, body: Some("oops".to_string()) };
    let r = conclude_explanation(&outcome);
    assert_eq!(r, Err(ExplainError::ServiceError(500)));
    assert_eq!(publication_after_explanation(&r), None);
}

#[test]
fn connection_and_decode_failures() {
    assert_eq!(
        conclude_explanation(&HttpOutcome::NoResponse),
        Err(ExplainError::ConnectionFailed)
    );
    let no_body = HttpOutcome::Response { status: 200, body: None };
    assert_eq!(
        conclude_explanation(&no_body),
        Err(ExplainError::ResponseDecodeFailed)
    );
    let ok = HttpOutcome::Response { status: 204, body: Some("fine".to_string()) };
    assert_eq!(conclude_explanation(&ok), Ok("fine".to_string()));
}

#[test]
fn concurrent_events_both_produce_ocr() {
    let a = FileEvent { kind: EventKind::Create, paths: vec!["/shots/a.png".to_string()] };
    let b = FileEvent { kind: EventKind::Create, paths: vec!["/shots/b.png".to_string()] };
    let ta = dispatch_target(&a).unwrap();
    let tb = dispatch_target(&b).unwrap();
    assert_eq!(ta, "/shots/a.png");
    assert_eq!(tb, "/shots/b.png");
    let pa = event_publications(&Ok("text a".to_string()), false, &Err(ExplainError::ConnectionFailed));
    let pb = event_publications(&Ok("text b".to_string()), false, &Err(ExplainError::ConnectionFailed));
    assert_eq!(pa, vec![Publication::Ocr("text a".to_string())]);
    assert_eq!(pb, vec![Publication::Ocr("text b".to_string())]);
}
