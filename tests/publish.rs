use lrcget_core::publish::{
    Challenge, PhaseStatus, PublishError, PublishPipeline, PublishProgress, PublishStage,
    RemoteError,
};

use PhaseStatus::{Done, Failed, InProgress, Pending};

fn progress(a: PhaseStatus, b: PhaseStatus, c: PhaseStatus) -> PublishProgress {
    PublishProgress { request_challenge: a, solve_challenge: b, publish_lyrics: c }
}

fn easy_challenge() -> Challenge {
    Challenge { prefix: "abc".to_string(), target: format!("00{}", "ff".repeat(31)) }
}

#[test]
fn successful_attempt_emits_every_transition() {
    let mut p = PublishPipeline::new();
    assert_eq!(p.progress(), progress(Pending, Pending, Pending));
    let mut emitted = p.begin();
    emitted.extend(p.challenge_received(Ok(easy_challenge())));
    emitted.extend(p.solve(u64::MAX));
    assert_eq!(p.token(), Some("abc:252".to_string()));
    emitted.extend(p.submitted(Ok(())));
    assert_eq!(
        emitted,
        vec![
            progress(InProgress, Pending, Pending),
            progress(Done, Pending, Pending),
            progress(Done, InProgress, Pending),
            progress(Done, Done, Pending),
            progress(Done, Done, InProgress),
            progress(Done, Done, Done),
        ]
    );
    assert_eq!(p.outcome(), Some(Ok(())));
    assert_eq!(p.token(), None);
}

#[test]
fn request_failure_stops_the_attempt() {
    let mut p = PublishPipeline::new();
    p.begin();
    let emitted = p.challenge_received(Err(RemoteError::Timeout));
    assert_eq!(emitted, vec![progress(Failed, Pending, Pending)]);
    assert_eq!(p.stage(), PublishStage::Finished);
    assert!(p.solve(u64::MAX).is_empty());
    assert_eq!(p.token(), None);
    assert!(p.submitted(Ok(())).is_empty());
    assert_eq!(p.progress(), progress(Failed, Pending, Pending));
    assert_eq!(p.outcome(), Some(Err(PublishError::Timeout)));
}

#[test]
fn malformed_target_fails_the_request_phase() {
    let mut p = PublishPipeline::new();
    p.begin();
    let bad = Challenge { prefix: "abc".to_string(), target: "00ff".to_string() };
    assert_eq!(p.challenge_received(Ok(bad)), vec![progress(Failed, Pending, Pending)]);
    assert_eq!(p.outcome(), Some(Err(PublishError::InvalidChallenge)));
}

#[test]
fn submit_failure_keeps_first_phases_done() {
    let mut p = PublishPipeline::new();
    p.begin();
    p.challenge_received(Ok(easy_challenge()));
    p.solve(u64::MAX);
    let emitted = p.submitted(Err(RemoteError::Network));
    assert_eq!(emitted, vec![progress(Done, Done, Failed)]);
    assert_eq!(p.outcome(), Some(Err(PublishError::Network)));
}

#[test]
fn bounded_solve_can_fail() {
    let mut p = PublishPipeline::new();
    p.begin();
    p.challenge_received(Ok(easy_challenge()));
    assert_eq!(p.solve(100), vec![progress(Done, Failed, Pending)]);
    assert_eq!(p.token(), None);
    assert_eq!(p.outcome(), Some(Err(PublishError::SolverExhausted)));
}

#[test]
fn steps_out_of_order_do_nothing() {
    let mut p = PublishPipeline::new();
    assert!(p.challenge_received(Ok(easy_challenge())).is_empty());
    assert!(p.solve(10).is_empty());
    assert!(p.submitted(Ok(())).is_empty());
    assert_eq!(p.outcome(), None);
    assert_eq!(p.begin().len(), 1);
    assert!(p.begin().is_empty());
    assert_eq!(p.stage(), PublishStage::AwaitingChallenge);
}
