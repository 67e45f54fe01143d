//! The submission pipeline: build, sign, send, poll, retry. The decisions
//! live here as a state machine over plain events; the caller performs the
//! network actions it is told to. A send is gated on the epoch deadline and
//! never made inside the safety margin; an "already processed" rejection is
//! an idempotent landing and counts as success, not as an error; a stale
//! blockhash is transient and answered by a fresh signature and another send
//! within the bounded attempt budget.

use vstd::prelude::*;
use vstd::string::StringSliceAdditionalSpecFns;

use crate::epoch::submit_window_open;
use crate::SUBMIT_SAFETY_MARGIN;

verus! {

/// The needle occurs in the haystack starting at position `i`.
pub open spec fn matches_at(haystack: Seq<u8>, needle: Seq<u8>, i: int) -> bool {
    &&& 0 <= i
    &&& i + needle.len() <= haystack.len()
    &&& haystack.subrange(i, i + needle.len()) == needle
}

/// The needle occurs somewhere in the haystack.
pub open spec fn contains_bytes(haystack: Seq<u8>, needle: Seq<u8>) -> bool {
    exists|i: int| matches_at(haystack, needle, i)
}

/// Whether the needle occurs at position `i` of the haystack.
fn matches_here(haystack: &[u8], needle: &[u8], i: usize) -> (r: bool)
    requires
        i + needle@.len() <= haystack@.len(),
    ensures
        r == matches_at(haystack@, needle@, i as int),
{
    let hlen = haystack.len();
    let mut j: usize = 0;
    while j < needle.len()
        invariant
            j <= needle@.len(),
            i + needle@.len() <= haystack@.len(),
            haystack@.len() == hlen,
            forall|k: int| 0 <= k < j ==> haystack@[i + k] == needle@[k],
        decreases needle@.len() - j,
    {
        if *vstd::slice::slice_index_get(haystack, i + j) != *vstd::slice::slice_index_get(
            needle,
            j,
        ) {
            assert(haystack@.subrange(i as int, i + needle@.len())[j as int] != needle@[j as int]);
            return false;
        }
        j = j + 1;
    }
    assert(haystack@.subrange(i as int, i + needle@.len()) =~= needle@);
    true
}

/// Whether `needle` occurs anywhere in `haystack`, byte for byte.
pub fn contains_subslice(haystack: &[u8], needle: &[u8]) -> (r: bool)
    ensures
        r == contains_bytes(haystack@, needle@),
{
    if needle.len() > haystack.len() {
        return false;
    }
    if needle.len() == 0 {
        assert(haystack@.subrange(0, 0) =~= needle@);
        assert(matches_at(haystack@, needle@, 0));
        return true;
    }
    let hlen = haystack.len();
    let last: usize = haystack.len() - needle.len();
    let mut i: usize = 0;
    while i <= last
        invariant
            i <= last + 1,
            needle@.len() >= 1,
            last + needle@.len() == haystack@.len(),
            haystack@.len() == hlen,
            forall|k: int| 0 <= k < i ==> !matches_at(haystack@, needle@, k),
        decreases last + 1 - i,
    {
        if matches_here(haystack, needle, i) {
            return true;
        }
        i = i + 1;
    }
    false
}

/// The ledger's wording for a transaction it has already executed: such a
/// rejection means the earlier send landed, so the submission succeeded.
pub open spec fn marker_already_processed() -> Seq<u8> {
    ("This transaction has already been processed").spec_bytes()
}

/// The ledger's wording when the recent blockhash a transaction was signed
/// with has fallen out of its window; the transaction must be re-signed.
pub open spec fn marker_stale_blockhash() -> Seq<u8> {
    ("Blockhash not found").spec_bytes()
}

/// This pipeline's own wording for a submission abandoned at the epoch
/// deadline, kept so messages round-tripped through the ledger client are
/// classified like local decisions.
pub open spec fn marker_epoch_reset() -> Seq<u8> {
    ("Epoch reset").spec_bytes()
}

/// What a failed send or poll means for the pipeline.
#[derive(Clone, Copy, Debug, PartialEq, Eq)]
pub enum SendErrorClass {
    /// The epoch expired under the transaction; refetch and re-validate.
    EpochReset,
    /// The blockhash is stale; re-sign and resend.
    StaleBlockhash,
    /// The transaction had already landed: success, not an error.
    AlreadyProcessed,
    /// Anything else: surfaced to the caller.
    Other,
}

/// Read an error message from the ledger client and classify it by the
/// markers it contains, earlier classes taking precedence.
pub fn classify_send_error(msg: &str) -> (c: SendErrorClass)
    ensures
        c is EpochReset <==> contains_bytes(msg.spec_bytes(), marker_epoch_reset()),
        c is StaleBlockhash <==> !contains_bytes(msg.spec_bytes(), marker_epoch_reset())
            && contains_bytes(msg.spec_bytes(), marker_stale_blockhash()),
        c is AlreadyProcessed <==> !contains_bytes(msg.spec_bytes(), marker_epoch_reset())
            && !contains_bytes(msg.spec_bytes(), marker_stale_blockhash())
            && contains_bytes(msg.spec_bytes(), marker_already_processed()),
{
    let bytes = msg.as_bytes();
    if contains_subslice(bytes, "Epoch reset".as_bytes()) {
        SendErrorClass::EpochReset
    } else if contains_subslice(bytes, "Blockhash not found".as_bytes()) {
        SendErrorClass::StaleBlockhash
    } else if contains_subslice(bytes, "This transaction has already been processed".as_bytes()) {
        SendErrorClass::AlreadyProcessed
    } else {
        SendErrorClass::Other
    }
}

/// Why the pipeline gave up.
#[derive(Clone, Copy, Debug, PartialEq, Eq)]
pub enum SubmitError {
    /// The epoch deadline is within the safety margin: sending would waste a
    /// transaction doomed against an expired challenge.
    EpochExpired,
    /// The ledger client reported an error that is not an idempotent landing.
    Client,
    /// The bounded attempt budget ran out.
    MaxRetries,
}

/// Where the pipeline stands.
#[derive(Clone, Copy, Debug, PartialEq, Eq)]
pub enum SubmitPhase {
    /// The next action is a (deadline-gated) send.
    ReadyToSend,
    /// A send went out; its signature status is being polled.
    AwaitStatus,
    /// The transaction landed.
    Landed,
    /// The pipeline gave up for the carried reason.
    Failed(SubmitError),
}

/// The pipeline's whole state: the phase plus the two bounded counters.
#[derive(Clone, Copy, Debug, PartialEq, Eq)]
pub struct SubmitState {
    pub phase: SubmitPhase,
    /// Send attempts so far.
    pub attempts: u64,
    /// Status polls since the last send.
    pub polls: u64,
}

/// The bounds and gates one submission runs under.
#[derive(Clone, Copy, Debug, PartialEq, Eq)]
pub struct SubmitConfig {
    /// Epoch deadline in seconds; zero when the transaction is not gated.
    pub deadline: u64,
    /// Return success on the first accepted send, without confirmation.
    pub skip_confirm: bool,
    /// How many re-sends may follow the first attempt.
    pub max_attempts: u64,
    /// How many status polls follow one send.
    pub confirm_retries: u64,
    /// Milliseconds to wait between two status polls.
    pub confirm_delay_ms: u64,
    /// Milliseconds to wait before the next send attempt.
    pub gateway_delay_ms: u64,
}

/// What the caller reports back into the machine.
#[derive(Clone, Copy, Debug, PartialEq, Eq)]
pub enum SubmitEvent {
    /// The caller is ready to send; `now` is the current time in seconds.
    SendAttempt { now: u64 },
    /// The ledger client accepted the send.
    SendOk,
    /// The ledger client rejected the send, message already classified.
    SendFailed { class: SendErrorClass },
    /// A status poll answered.
    StatusSeen { status: ConfirmStatus },
    /// A status poll itself failed, message already classified.
    StatusPollFailed { class: SendErrorClass },
}

/// The confirmation level a status poll reports.
#[derive(Clone, Copy, Debug, PartialEq, Eq)]
pub enum ConfirmStatus {
    /// No status known yet.
    NotFound,
    /// Processed, but not yet at a terminal commitment.
    Processed,
    /// Confirmed: terminal success.
    Confirmed,
    /// Finalized: terminal success.
    Finalized,
}

/// What the caller must do next.
#[derive(Clone, Copy, Debug, PartialEq, Eq)]
pub enum SubmitAction {
    /// Send the signed transaction, then report the outcome.
    Send,
    /// Poll the signature status, then report it.
    Poll,
    /// Sleep the given milliseconds, then poll again.
    PollAfter { delay_ms: u64 },
    /// Sleep the given milliseconds, then announce the next send attempt.
    SendAfter { delay_ms: u64 },
    /// The pipeline is done; the phase says how it ended.
    Finish,
}

/// The counters never escape their budgets.
pub open spec fn submit_state_wf(s: SubmitState, cfg: SubmitConfig) -> bool {
    &&& s.attempts <= cfg.max_attempts
    &&& (s.phase is AwaitStatus ==> s.polls < cfg.confirm_retries)
}

/// Which events a state can receive: send outcomes while ready to send,
/// poll outcomes while awaiting status, nothing once finished.
pub open spec fn event_fits(s: SubmitState, ev: SubmitEvent) -> bool {
    match ev {
        SubmitEvent::SendAttempt { .. } => s.phase is ReadyToSend,
        SubmitEvent::SendOk => s.phase is ReadyToSend,
        SubmitEvent::SendFailed { .. } => s.phase is ReadyToSend,
        SubmitEvent::StatusSeen { .. } => s.phase is AwaitStatus,
        SubmitEvent::StatusPollFailed { .. } => s.phase is AwaitStatus,
    }
}

/// The transition relation of the pipeline, one event at a time.
pub open spec fn spec_submit_step(s: SubmitState, ev: SubmitEvent, cfg: SubmitConfig) -> (
    SubmitState,
    SubmitAction,
) {
    match ev {
        SubmitEvent::SendAttempt { now } => {
            if cfg.deadline != 0 && !(now + SUBMIT_SAFETY_MARGIN <= cfg.deadline) {
                (
                    SubmitState { phase: SubmitPhase::Failed(SubmitError::EpochExpired), ..s },
                    SubmitAction::Finish,
                )
            } else {
                (s, SubmitAction::Send)
            }
        },
        SubmitEvent::SendOk => {
            if cfg.skip_confirm {
                (SubmitState { phase: SubmitPhase::Landed, ..s }, SubmitAction::Finish)
            } else if cfg.confirm_retries == 0 {
                spec_retry_send(s, cfg)
            } else {
                (
                    SubmitState { phase: SubmitPhase::AwaitStatus, polls: 0, ..s },
                    SubmitAction::Poll,
                )
            }
        },
        SubmitEvent::SendFailed { class } => {
            if class is AlreadyProcessed {
                (SubmitState { phase: SubmitPhase::Landed, ..s }, SubmitAction::Finish)
            } else if class is StaleBlockhash {
                spec_retry_send(s, cfg)
            } else if class is EpochReset {
                (
                    SubmitState { phase: SubmitPhase::Failed(SubmitError::EpochExpired), ..s },
                    SubmitAction::Finish,
                )
            } else {
                (
                    SubmitState { phase: SubmitPhase::Failed(SubmitError::Client), ..s },
                    SubmitAction::Finish,
                )
            }
        },
        SubmitEvent::StatusSeen { status } => {
            if status is Confirmed || status is Finalized {
                (SubmitState { phase: SubmitPhase::Landed, ..s }, SubmitAction::Finish)
            } else if s.polls + 1 < cfg.confirm_retries {
                (
                    SubmitState { polls: (s.polls + 1) as u64, ..s },
                    SubmitAction::PollAfter { delay_ms: cfg.confirm_delay_ms },
                )
            } else {
                spec_retry_send(s, cfg)
            }
        },
        SubmitEvent::StatusPollFailed { class } => {
            if class is AlreadyProcessed {
                (SubmitState { phase: SubmitPhase::Landed, ..s }, SubmitAction::Finish)
            } else if class is EpochReset {
                (
                    SubmitState { phase: SubmitPhase::Failed(SubmitError::EpochExpired), ..s },
                    SubmitAction::Finish,
                )
            } else {
                (
                    SubmitState { phase: SubmitPhase::Failed(SubmitError::Client), ..s },
                    SubmitAction::Finish,
                )
            }
        },
    }
}

/// The retry tail shared by a spent poll budget and a zero poll budget:
/// another send if the attempt budget allows, otherwise give up.
pub open spec fn spec_retry_send(s: SubmitState, cfg: SubmitConfig) -> (
    SubmitState,
    SubmitAction,
) {
    if s.attempts >= cfg.max_attempts {
        (
            SubmitState { phase: SubmitPhase::Failed(SubmitError::MaxRetries), ..s },
            SubmitAction::Finish,
        )
    } else {
        (
            SubmitState {
                phase: SubmitPhase::ReadyToSend,
                attempts: (s.attempts + 1) as u64,
                polls: 0,
            },
            SubmitAction::SendAfter { delay_ms: cfg.gateway_delay_ms },
        )
    }
}

/// The state a submission starts in.
pub fn submit_start() -> (s: SubmitState)
    ensures
        s.phase is ReadyToSend,
        s.attempts == 0,
        s.polls == 0,
        forall|cfg: SubmitConfig| #[trigger] submit_state_wf(s, cfg),
{
    SubmitState { phase: SubmitPhase::ReadyToSend, attempts: 0, polls: 0 }
}

/// Drive the pipeline by one event. Every clause of the transition relation
/// is enforced; in particular a send attempt inside the safety margin of the
/// epoch deadline fails with `EpochExpired` before anything is sent, an
/// "already processed" rejection lands the transaction with no further retry,
/// a stale-blockhash rejection re-signs and resends within the attempt
/// budget, and an epoch-reset message fails with the epoch error.
pub fn submit_step(s: &SubmitState, ev: &SubmitEvent, cfg: &SubmitConfig) -> (r: (
    SubmitState,
    SubmitAction,
))
    requires
        submit_state_wf(*s, *cfg),
        event_fits(*s, *ev),
    ensures
        r == spec_submit_step(*s, *ev, *cfg),
        submit_state_wf(r.0, *cfg),
        // An "already processed" rejection is an idempotent landing: the
        // pipeline succeeds at once and never retries.
        (*ev == (SubmitEvent::SendFailed { class: SendErrorClass::AlreadyProcessed })) ==> (
        r.0.phase is Landed && r.1 is Finish),
        // Inside the safety margin of a real deadline nothing is sent: the
        // pipeline fails with the epoch error before any send action.
        forall|now: u64|
            (*ev == (SubmitEvent::SendAttempt { now }) && cfg.deadline != 0 && now
                + SUBMIT_SAFETY_MARGIN > cfg.deadline) ==> r.0.phase == SubmitPhase::Failed(
                SubmitError::EpochExpired,
            ) && r.1 is Finish,
{
    match ev {
        SubmitEvent::SendAttempt { now } => {
            if cfg.deadline != 0 && !submit_window_open(cfg.deadline, *now) {
                (
                    SubmitState { phase: SubmitPhase::Failed(SubmitError::EpochExpired), ..*s },
                    SubmitAction::Finish,
                )
            } else {
                (*s, SubmitAction::Send)
            }
        },
        SubmitEvent::SendOk => {
            if cfg.skip_confirm {
                (SubmitState { phase: SubmitPhase::Landed, ..*s }, SubmitAction::Finish)
            } else if cfg.confirm_retries == 0 {
                retry_send(s, cfg)
            } else {
                (
                    SubmitState { phase: SubmitPhase::AwaitStatus, polls: 0, ..*s },
                    SubmitAction::Poll,
                )
            }
        },
        SubmitEvent::SendFailed { class } => {
            if matches!(class, SendErrorClass::AlreadyProcessed) {
                (SubmitState { phase: SubmitPhase::Landed, ..*s }, SubmitAction::Finish)
            } else if matches!(class, SendErrorClass::StaleBlockhash) {
                retry_send(s, cfg)
            } else if matches!(class, SendErrorClass::EpochReset) {
                (
                    SubmitState { phase: SubmitPhase::Failed(SubmitError::EpochExpired), ..*s },
                    SubmitAction::Finish,
                )
            } else {
                (
                    SubmitState { phase: SubmitPhase::Failed(SubmitError::Client), ..*s },
                    SubmitAction::Finish,
                )
            }
        },
        SubmitEvent::StatusSeen { status } => {
            if matches!(status, ConfirmStatus::Confirmed) || matches!(
                status,
                ConfirmStatus::Finalized,
            ) {
                (SubmitState { phase: SubmitPhase::Landed, ..*s }, SubmitAction::Finish)
            } else if s.polls + 1 < cfg.confirm_retries {
                (
                    SubmitState { polls: s.polls + 1, ..*s },
                    SubmitAction::PollAfter { delay_ms: cfg.confirm_delay_ms },
                )
            } else {
                retry_send(s, cfg)
            }
        },
        SubmitEvent::StatusPollFailed { class } => {
            if matches!(class, SendErrorClass::AlreadyProcessed) {
                (SubmitState { phase: SubmitPhase::Landed, ..*s }, SubmitAction::Finish)
            } else if matches!(class, SendErrorClass::EpochReset) {
                (
                    SubmitState { phase: SubmitPhase::Failed(SubmitError::EpochExpired), ..*s },
                    SubmitAction::Finish,
                )
            } else {
                (
                    SubmitState { phase: SubmitPhase::Failed(SubmitError::Client), ..*s },
                    SubmitAction::Finish,
                )
            }
        },
    }
}

/// The retry tail: another send if the attempt budget allows, else give up.
fn retry_send(s: &SubmitState, cfg: &SubmitConfig) -> (r: (SubmitState, SubmitAction))
    requires
        s.attempts <= cfg.max_attempts,
    ensures
        r == spec_retry_send(*s, *cfg),
{
    if s.attempts >= cfg.max_attempts {
        (
            SubmitState { phase: SubmitPhase::Failed(SubmitError::MaxRetries), ..*s },
            SubmitAction::Finish,
        )
    } else {
        (
            SubmitState {
                phase: SubmitPhase::ReadyToSend,
                attempts: s.attempts + 1,
                polls: 0,
            },
            SubmitAction::SendAfter { delay_ms: cfg.gateway_delay_ms },
        )
    }
}

} // verus!
