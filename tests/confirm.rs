use solana_arb::confirm::{BundleStatus, BundleSubmission, ConfirmConfig, SubmitAction};
use solana_arb::error::ArbError;

fn config(wait: bool) -> ConfirmConfig {
    ConfirmConfig { wait_for_confirmation: wait, poll_interval_ms: 1_000, timeout_ms: 5_000 }
}

fn submitted(wait: bool) -> (BundleSubmission, SubmitAction) {
    let mut s = BundleSubmission::new(config(wait));
    assert!(matches!(s.on_signed(true), SubmitAction::Submit));
    let a = s.on_submitted(Some("bundle-1".to_string()));
    (s, a)
}

/// Drives the machine against a relay that answers `answer(elapsed)`.
fn run(answer: impl Fn(u64) -> Option<BundleStatus>) -> (Result<Vec<String>, ArbError>, u64, u32) {
    let (mut s, mut action) = submitted(true);
    let mut elapsed = 0u64;
    let mut polls = 0u32;
    loop {
        match action {
            SubmitAction::Poll { bundle_id, delay_ms } => {
                assert_eq!(bundle_id, "bundle-1");
                elapsed += delay_ms;
                polls += 1;
                action = s.on_poll(elapsed, answer(elapsed));
            }
            SubmitAction::Finish(r) => return (r, elapsed, polls),
            SubmitAction::Submit => panic!("submission is never retried"),
        }
    }
}

#[test]
fn without_waiting_returns_no_ids_at_once() {
    let (_, a) = submitted(false);
    match a {
        SubmitAction::Finish(Ok(ids)) => assert!(ids.is_empty()),
        _ => panic!("expected an immediate empty result"),
    }
}

#[test]
fn never_landing_times_out_after_the_deadline() {
    let (r, elapsed, polls) = run(|_| Some(BundleStatus::Pending));
    assert_eq!(r, Err(ArbError::ConfirmationTimeout));
    assert!(elapsed > 5_000);
    assert_eq!(elapsed, 6_000);
    assert_eq!(polls, 6);
}

#[test]
fn poll_errors_are_not_fatal() {
    let (r, elapsed, _) = run(|e| if e < 3_000 { None } else { Some(BundleStatus::Landed(vec!["tx".to_string()])) });
    assert_eq!(r, Ok(vec!["tx".to_string()]));
    assert_eq!(elapsed, 3_000);
}

#[test]
fn failed_or_empty_status_keeps_polling() {
    let (r, _, _) = run(|e| match e {
        1_000 => Some(BundleStatus::Failed),
        2_000 => Some(BundleStatus::Landed(vec![])),
        _ => Some(BundleStatus::Landed(vec!["a".to_string(), "b".to_string()])),
    });
    assert_eq!(r, Ok(vec!["a".to_string(), "b".to_string()]));
}

#[test]
fn landing_at_the_deadline_still_confirms() {
    let (r, elapsed, _) = run(|e| if e == 5_000 { Some(BundleStatus::Landed(vec!["x".to_string()])) } else { None });
    assert_eq!(r, Ok(vec!["x".to_string()]));
    assert_eq!(elapsed, 5_000);
}

#[test]
fn rejected_bundle_is_a_submission_failure() {
    let mut s = BundleSubmission::new(config(true));
    s.on_signed(true);
    match s.on_submitted(None) {
        SubmitAction::Finish(Err(e)) => assert_eq!(e, ArbError::SubmissionFailed),
        _ => panic!("expected a submission failure"),
    }
}

#[test]
fn signing_failure_ends_the_attempt() {
    let mut s = BundleSubmission::new(config(true));
    match s.on_signed(false) {
        SubmitAction::Finish(Err(e)) => assert_eq!(e, ArbError::SigningFailed),
        _ => panic!("expected a signing failure"),
    }
}
