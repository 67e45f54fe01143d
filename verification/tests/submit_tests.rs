use miner_core::submit::{
    classify_send_error, contains_subslice, submit_start, submit_step, ConfirmStatus,
    SendErrorClass, SubmitAction, SubmitConfig, SubmitError, SubmitEvent, SubmitPhase,
};
use miner_core::{CONFIRM_DELAY, GATEWAY_DELAY};

fn config() -> SubmitConfig {
    SubmitConfig {
        deadline: 10_000,
        skip_confirm: false,
        max_attempts: 150,
        confirm_retries: 1,
        confirm_delay_ms: CONFIRM_DELAY,
        gateway_delay_ms: GATEWAY_DELAY,
    }
}

#[test]
fn subslice_search_finds_needles() {
    assert!(contains_subslice(b"abcdef", b"cde"));
    assert!(contains_subslice(b"abcdef", b"abcdef"));
    assert!(contains_subslice(b"abcdef", b""));
    assert!(!contains_subslice(b"abcdef", b"cdf"));
    assert!(!contains_subslice(b"ab", b"abc"));
    assert!(contains_subslice(b"aaab", b"aab"));
}

#[test]
fn error_classification_by_marker() {
    assert_eq!(
        classify_send_error("RPC: This transaction has already been processed (code 7)"),
        SendErrorClass::AlreadyProcessed
    );
    assert_eq!(classify_send_error("Blockhash not found"), SendErrorClass::StaleBlockhash);
    assert_eq!(classify_send_error("Epoch reset"), SendErrorClass::EpochReset);
    assert_eq!(classify_send_error("connection refused"), SendErrorClass::Other);
    assert_eq!(classify_send_error(""), SendErrorClass::Other);
    // Earlier classes take precedence when several markers occur.
    assert_eq!(
        classify_send_error("Epoch reset after Blockhash not found"),
        SendErrorClass::EpochReset
    );
}

#[test]
fn already_processed_is_success_without_retry() {
    // A mocked ledger that answers "already processed" on send lands the
    // transaction at once: no further attempts, no polling.
    let cfg = config();
    let s0 = submit_start();
    let (s1, a1) = submit_step(&s0, &SubmitEvent::SendAttempt { now: 100 }, &cfg);
    assert_eq!(a1, SubmitAction::Send);
    let (s2, a2) = submit_step(
        &s1,
        &SubmitEvent::SendFailed { class: SendErrorClass::AlreadyProcessed },
        &cfg,
    );
    assert_eq!(s2.phase, SubmitPhase::Landed);
    assert_eq!(a2, SubmitAction::Finish);
    assert_eq!(s2.attempts, 0);
}

#[test]
fn deadline_margin_blocks_send() {
    // With now inside the safety margin of the deadline the pipeline fails
    // with the epoch error before anything is sent.
    let cfg = config();
    let s0 = submit_start();
    let (s1, a1) = submit_step(&s0, &SubmitEvent::SendAttempt { now: 9_996 }, &cfg);
    assert_eq!(s1.phase, SubmitPhase::Failed(SubmitError::EpochExpired));
    assert_eq!(a1, SubmitAction::Finish);
    // One second earlier the window is still open.
    let (_, a) = submit_step(&s0, &SubmitEvent::SendAttempt { now: 9_995 }, &cfg);
    assert_eq!(a, SubmitAction::Send);
}

#[test]
fn ungated_send_ignores_clock() {
    let mut cfg = config();
    cfg.deadline = 0;
    let s0 = submit_start();
    let (_, a) = submit_step(&s0, &SubmitEvent::SendAttempt { now: u64::MAX }, &cfg);
    assert_eq!(a, SubmitAction::Send);
}

#[test]
fn confirmed_status_lands() {
    let cfg = config();
    let s0 = submit_start();
    let (s1, _) = submit_step(&s0, &SubmitEvent::SendAttempt { now: 1 }, &cfg);
    let (s2, a2) = submit_step(&s1, &SubmitEvent::SendOk, &cfg);
    assert_eq!(s2.phase, SubmitPhase::AwaitStatus);
    assert_eq!(a2, SubmitAction::Poll);
    let (s3, a3) =
        submit_step(&s2, &SubmitEvent::StatusSeen { status: ConfirmStatus::Confirmed }, &cfg);
    assert_eq!(s3.phase, SubmitPhase::Landed);
    assert_eq!(a3, SubmitAction::Finish);
}

#[test]
fn processed_status_exhausts_polls_then_resends() {
    // With one poll per send, a merely processed status spends the poll
    // budget and schedules the next send attempt after the gateway delay.
    let cfg = config();
    let s0 = submit_start();
    let (s1, _) = submit_step(&s0, &SubmitEvent::SendAttempt { now: 1 }, &cfg);
    let (s2, _) = submit_step(&s1, &SubmitEvent::SendOk, &cfg);
    let (s3, a3) =
        submit_step(&s2, &SubmitEvent::StatusSeen { status: ConfirmStatus::Processed }, &cfg);
    assert_eq!(s3.phase, SubmitPhase::ReadyToSend);
    assert_eq!(s3.attempts, 1);
    assert_eq!(a3, SubmitAction::SendAfter { delay_ms: GATEWAY_DELAY });
}

#[test]
fn poll_budget_counts_before_resend() {
    let mut cfg = config();
    cfg.confirm_retries = 3;
    let s0 = submit_start();
    let (s1, _) = submit_step(&s0, &SubmitEvent::SendAttempt { now: 1 }, &cfg);
    let (s2, _) = submit_step(&s1, &SubmitEvent::SendOk, &cfg);
    let (s3, a3) =
        submit_step(&s2, &SubmitEvent::StatusSeen { status: ConfirmStatus::NotFound }, &cfg);
    assert_eq!(s3.phase, SubmitPhase::AwaitStatus);
    assert_eq!(s3.polls, 1);
    assert_eq!(a3, SubmitAction::PollAfter { delay_ms: CONFIRM_DELAY });
    let (s4, _) =
        submit_step(&s3, &SubmitEvent::StatusSeen { status: ConfirmStatus::NotFound }, &cfg);
    assert_eq!(s4.polls, 2);
    let (s5, a5) =
        submit_step(&s4, &SubmitEvent::StatusSeen { status: ConfirmStatus::NotFound }, &cfg);
    assert_eq!(s5.phase, SubmitPhase::ReadyToSend);
    assert_eq!(a5, SubmitAction::SendAfter { delay_ms: GATEWAY_DELAY });
}

#[test]
fn attempt_budget_exhaustion_is_fatal() {
    let mut cfg = config();
    cfg.max_attempts = 0;
    let s0 = submit_start();
    let (s1, _) = submit_step(&s0, &SubmitEvent::SendAttempt { now: 1 }, &cfg);
    let (s2, _) = submit_step(&s1, &SubmitEvent::SendOk, &cfg);
    let (s3, a3) =
        submit_step(&s2, &SubmitEvent::StatusSeen { status: ConfirmStatus::NotFound }, &cfg);
    assert_eq!(s3.phase, SubmitPhase::Failed(SubmitError::MaxRetries));
    assert_eq!(a3, SubmitAction::Finish);
}

#[test]
fn skip_confirm_lands_on_accepted_send() {
    let mut cfg = config();
    cfg.skip_confirm = true;
    let s0 = submit_start();
    let (s1, _) = submit_step(&s0, &SubmitEvent::SendAttempt { now: 1 }, &cfg);
    let (s2, a2) = submit_step(&s1, &SubmitEvent::SendOk, &cfg);
    assert_eq!(s2.phase, SubmitPhase::Landed);
    assert_eq!(a2, SubmitAction::Finish);
}

#[test]
fn stale_blockhash_resends_within_budget() {
    // A stale-blockhash rejection is transient: the machine schedules another
    // send (the driver signs against a fresh blockhash) and spends one
    // attempt.
    let cfg = config();
    let s0 = submit_start();
    let (s1, _) = submit_step(&s0, &SubmitEvent::SendAttempt { now: 1 }, &cfg);
    let (s2, a2) = submit_step(
        &s1,
        &SubmitEvent::SendFailed { class: SendErrorClass::StaleBlockhash },
        &cfg,
    );
    assert_eq!(s2.phase, SubmitPhase::ReadyToSend);
    assert_eq!(s2.attempts, 1);
    assert_eq!(a2, SubmitAction::SendAfter { delay_ms: GATEWAY_DELAY });
}

#[test]
fn stale_blockhash_respects_attempt_budget() {
    let mut cfg = config();
    cfg.max_attempts = 0;
    let s0 = submit_start();
    let (s1, _) = submit_step(&s0, &SubmitEvent::SendAttempt { now: 1 }, &cfg);
    let (s2, a2) = submit_step(
        &s1,
        &SubmitEvent::SendFailed { class: SendErrorClass::StaleBlockhash },
        &cfg,
    );
    assert_eq!(s2.phase, SubmitPhase::Failed(SubmitError::MaxRetries));
    assert_eq!(a2, SubmitAction::Finish);
}

#[test]
fn epoch_reset_message_fails_with_epoch_error() {
    let cfg = config();
    let s0 = submit_start();
    let (s1, _) = submit_step(&s0, &SubmitEvent::SendAttempt { now: 1 }, &cfg);
    let (s2, a2) =
        submit_step(&s1, &SubmitEvent::SendFailed { class: SendErrorClass::EpochReset }, &cfg);
    assert_eq!(s2.phase, SubmitPhase::Failed(SubmitError::EpochExpired));
    assert_eq!(a2, SubmitAction::Finish);
    // The same message on a status poll ends the same way.
    let (s3, _) = submit_step(&s1, &SubmitEvent::SendOk, &cfg);
    let (s4, a4) = submit_step(
        &s3,
        &SubmitEvent::StatusPollFailed { class: SendErrorClass::EpochReset },
        &cfg,
    );
    assert_eq!(s4.phase, SubmitPhase::Failed(SubmitError::EpochExpired));
    assert_eq!(a4, SubmitAction::Finish);
}

#[test]
fn send_rejection_surfaces_client_error() {
    let cfg = config();
    let s0 = submit_start();
    let (s1, _) = submit_step(&s0, &SubmitEvent::SendAttempt { now: 1 }, &cfg);
    let (s2, a2) =
        submit_step(&s1, &SubmitEvent::SendFailed { class: SendErrorClass::Other }, &cfg);
    assert_eq!(s2.phase, SubmitPhase::Failed(SubmitError::Client));
    assert_eq!(a2, SubmitAction::Finish);
}

#[test]
fn poll_failure_with_idempotent_marker_lands() {
    let cfg = config();
    let s0 = submit_start();
    let (s1, _) = submit_step(&s0, &SubmitEvent::SendAttempt { now: 1 }, &cfg);
    let (s2, _) = submit_step(&s1, &SubmitEvent::SendOk, &cfg);
    let (s3, _) = submit_step(
        &s2,
        &SubmitEvent::StatusPollFailed { class: SendErrorClass::AlreadyProcessed },
        &cfg,
    );
    assert_eq!(s3.phase, SubmitPhase::Landed);
    let (s4, _) = submit_step(
        &s2,
        &SubmitEvent::StatusPollFailed { class: SendErrorClass::Other },
        &cfg,
    );
    assert_eq!(s4.phase, SubmitPhase::Failed(SubmitError::Client));
}
