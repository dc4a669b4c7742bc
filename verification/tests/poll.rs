use grok_video::poll::{
    api_error_message, poll_error_message, unavailable_message, PollEffect, PollError, PollEvent,
    PollState,
};
use grok_video::request::{
    VideoGenerationRequest, VideoPollResponse, VideoSubmitResponse,
};
use grok_video::status::HttpStatus;

const TIMEOUT: u64 = 600;

fn request() -> VideoGenerationRequest {
    VideoGenerationRequest {
        model: "m".to_string(),
        prompt: "p".to_string(),
        duration: None,
        aspect_ratio: None,
        resolution: None,
        image_url: None,
        video_url: None,
    }
}

fn status(code: u16) -> PollEvent {
    PollEvent::Replied(Ok(HttpStatus::from_u16(code).unwrap()))
}

fn network(error: &str) -> PollEvent {
    PollEvent::Replied(Err(error.to_string()))
}

fn response(status: &str) -> PollEvent {
    PollEvent::Polled(Ok(VideoPollResponse {
        status: status.to_string(),
        request_id: None,
        video: None,
        model: None,
    }))
}

fn run(state: PollState, events: Vec<PollEvent>) -> PollState {
    events.into_iter().fold(state, |state, event| state.step(event, TIMEOUT))
}

fn submitting() -> PollState {
    PollState::Submitting { request: request() }
}

fn checking() -> PollState {
    run(
        submitting(),
        vec![
            status(200),
            PollEvent::Submitted(Ok(VideoSubmitResponse { request_id: "r1".to_string() })),
        ],
    )
}

fn to_poll(state: PollState) -> PollState {
    run(state, vec![PollEvent::Elapsed(1), PollEvent::Rested])
}

fn failure(state: PollState) -> String {
    match state {
        PollState::Finished(Err(error)) => error.message(),
        other => panic!("not a failure: {other:?}"),
    }
}

fn failures_of(state: &PollState) -> u32 {
    match state {
        PollState::Checking { failures, .. } => *failures,
        other => panic!("not about to check: {other:?}"),
    }
}

#[test]
fn submission_effects() {
    let state = submitting();
    match state.effect("key", 5) {
        PollEffect::Submit { url, authorization, request } => {
            assert_eq!(url, "https://api.x.ai/v1/videos/generations");
            assert_eq!(authorization, "Bearer key");
            assert_eq!(request.prompt, "p");
        }
        other => panic!("{other:?}"),
    }
    assert!(matches!(checking().effect("key", 5), PollEffect::ReadClock));
    let paused = run(checking(), vec![PollEvent::Elapsed(0)]);
    assert!(matches!(paused.effect("key", 7), PollEffect::Rest { seconds: 7 }));
    match to_poll(checking()).effect("key", 5) {
        PollEffect::Poll { url, authorization } => {
            assert_eq!(url, "https://api.x.ai/v1/videos/r1");
            assert_eq!(authorization, "Bearer key");
        }
        other => panic!("{other:?}"),
    }
    let accepted = run(to_poll(checking()), vec![status(200)]);
    assert!(matches!(accepted.effect("key", 5), PollEffect::ReadPoll));
    let refused = run(to_poll(checking()), vec![status(404)]);
    assert!(matches!(refused.effect("key", 5), PollEffect::ReadText));
    let submit_refused = run(submitting(), vec![status(500)]);
    assert!(matches!(submit_refused.effect("key", 5), PollEffect::ReadText));
    let submit_accepted = run(submitting(), vec![status(202)]);
    assert!(matches!(submit_accepted.effect("key", 5), PollEffect::ReadSubmission));
}

#[test]
fn submission_fails() {
    assert_eq!(failure(run(submitting(), vec![network("dns")])), "HTTP request failed: dns");
    assert_eq!(
        failure(run(submitting(), vec![status(401), PollEvent::Text(Some("no key".to_string()))])),
        "Grok Video API error (401 Unauthorized): no key"
    );
    assert_eq!(
        failure(run(submitting(), vec![status(503), PollEvent::Text(None)])),
        "Grok Video API error (503 Service Unavailable): failed to read response body"
    );
    assert_eq!(
        failure(run(
            submitting(),
            vec![status(200), PollEvent::Submitted(Err("no field".to_string()))]
        )),
        "Failed to parse submit response: no field"
    );
}

#[test]
fn done_after_waiting() {
    let mut state = checking();
    for _ in 0..20 {
        state = run(to_poll(state), vec![status(200), response("pending")]);
        assert_eq!(failures_of(&state), 0);
    }
    match run(to_poll(state), vec![status(200), response("done")]) {
        PollState::Finished(Ok(response)) => assert_eq!(response.status, "done"),
        other => panic!("{other:?}"),
    }
}

#[test]
fn poll_fails() {
    assert_eq!(
        failure(run(to_poll(checking()), vec![status(200), response("expired")])),
        "Video generation expired (request_id: r1)"
    );
    assert_eq!(
        failure(run(
            to_poll(checking()),
            vec![status(200), PollEvent::Polled(Err("bad json".to_string()))]
        )),
        "Failed to parse poll response: bad json"
    );
    assert_eq!(
        failure(run(
            to_poll(checking()),
            vec![status(404), PollEvent::Text(Some("gone".to_string()))]
        )),
        "Poll error (404 Not Found): gone"
    );
}

#[test]
fn timeout() {
    let second: u128 = 1_000_000_000;
    assert!(matches!(
        run(checking(), vec![PollEvent::Elapsed(600 * second - 1)]),
        PollState::Pausing { .. }
    ));
    assert_eq!(
        failure(run(checking(), vec![PollEvent::Elapsed(600 * second)])),
        "Video generation timed out after 600s (request_id: r1)"
    );
    let late = checking().step(PollEvent::Elapsed(0), 0);
    assert_eq!(failure(late), "Video generation timed out after 0s (request_id: r1)");
}

#[test]
fn five_failures_in_a_row() {
    let mut state = checking();
    for round in 1..5 {
        state = run(to_poll(state), vec![network("reset")]);
        assert_eq!(failures_of(&state), round);
    }
    assert_eq!(
        failure(run(to_poll(state), vec![network("reset")])),
        "Poll failed after 5 consecutive network errors: reset"
    );
    let mut state = checking();
    for code in [429, 502, 503, 504] {
        state = run(to_poll(state), vec![status(code)]);
    }
    assert_eq!(failures_of(&state), 4);
    assert_eq!(
        failure(run(to_poll(state), vec![status(503)])),
        "Poll failed after 5 consecutive transient errors (503 Service Unavailable)"
    );
}

#[test]
fn both_kinds_of_failure_count() {
    let mut state = checking();
    for event in [network("a"), status(429), network("b"), status(502)] {
        state = run(to_poll(state), vec![event]);
    }
    assert_eq!(
        failure(run(to_poll(state), vec![network("c")])),
        "Poll failed after 5 consecutive network errors: c"
    );
}

#[test]
fn an_answer_resets_the_failures() {
    let mut state = checking();
    for _ in 0..4 {
        state = run(to_poll(state), vec![network("reset")]);
    }
    state = run(to_poll(state), vec![status(200), response("pending")]);
    assert_eq!(failures_of(&state), 0);
    state = run(to_poll(state), vec![network("reset")]);
    assert_eq!(failures_of(&state), 1);
}

#[test]
fn other_events_change_nothing() {
    let state = run(
        checking(),
        vec![PollEvent::Rested, status(200), response("done"), PollEvent::Text(None)],
    );
    assert_eq!(failures_of(&state), 0);
    let finished = run(submitting(), vec![network("dns"), status(200), PollEvent::Rested]);
    assert_eq!(failure(finished), "HTTP request failed: dns");
}

#[test]
fn submission_keeps_its_number() {
    let mut state = checking();
    for _ in 0..3 {
        state = run(to_poll(state), vec![status(200), response("pending")]);
    }
    match state {
        PollState::Checking { request_id, .. } => assert_eq!(request_id, "r1"),
        other => panic!("{other:?}"),
    }
}

#[test]
fn message_of_a_timeout() {
    let error = PollError::TimedOut { seconds: 90, request_id: "x".to_string() };
    assert_eq!(error.message(), "Video generation timed out after 90s (request_id: x)");
}

#[test]
fn messages_with_a_status_line() {
    let body = Some("gone".to_string());
    assert_eq!(
        api_error_message("410 Gone", &body),
        "Grok Video API error (410 Gone): gone"
    );
    assert_eq!(
        poll_error_message("410 Gone", &None),
        "Poll error (410 Gone): failed to read response body"
    );
    assert_eq!(
        unavailable_message("502 Bad Gateway"),
        "Poll failed after 5 consecutive transient errors (502 Bad Gateway)"
    );
}

#[test]
fn passing_failures_change_no_outcome() {
    let smooth = run(to_poll(checking()), vec![status(200), response("expired")]);
    let mut rough = checking();
    for event in [network("a"), status(503), network("b")] {
        rough = run(to_poll(rough), vec![event]);
    }
    rough = run(to_poll(rough), vec![status(200), response("expired")]);
    assert_eq!(failure(smooth), failure(rough));
}

#[test]
fn polls_fit_into_the_timeout() {
    let (interval, timeout) = (7u64, 60u64);
    let mut state = checking();
    let mut polls: u64 = 0;
    loop {
        let now = u128::from(polls * interval) * 1_000_000_000;
        state = state.step(PollEvent::Elapsed(now), timeout);
        if matches!(state, PollState::Finished(_)) {
            break;
        }
        state = state.step(PollEvent::Rested, timeout);
        polls += 1;
        state = state.step(status(200), timeout);
        state = state.step(response("pending"), timeout);
    }
    assert_eq!(polls, 9);
    assert!((polls - 1) * interval < timeout);
}
