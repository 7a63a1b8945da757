//! The game engine: an event-sourced state machine.
//!
//! The engine owns the game's confidential state — the live secret, the
//! signing key and seed for the oracle transport, and the ledger cursor —
//! and drives the poll, decode, dispatch, checkpoint loop. It performs no
//! I/O itself: every call on the outside world is a [`Command`] the engine
//! hands out, and the surrounding process feeds the result back as an
//! [`Outcome`] through [`GuessAiEngine::step`]. Exactly one command is
//! outstanding at a time, so no event is ever processed concurrently with
//! another, and a guess is never checked against a half-rotated secret:
//! `step`'s contract states that the secret, key and seed change only
//! together, and only when a rotation's commitment has been published.
//!
//! Observations that need no reply — log points and notifications — come
//! back as [`Effect`]s beside the command.

use vstd::prelude::*;

use crate::cursor::Cursor;
use crate::cursor::copy_bytes;
use crate::events::NewGuessEvent;
use crate::events::PublishEvent;
use crate::events::SecretGuessingEvent;
use crate::events::SecretGuessingEventIdentifier;
use crate::events::TDXQuoteResubmittedEvent;
use crate::events::decode_new_guess_spec;
use crate::events::decode_publish_spec;
use crate::events::decode_resubmit_spec;
use crate::events::decode_rotate_spec;
use crate::events::identify_spec;
use crate::events::parse_event;
use crate::json::JsonObject;
use crate::oracle::InferenceRequest;
use crate::oracle::SigningKey;
use crate::oracle::check_guess_request;
use crate::oracle::fresh_seed;
use crate::oracle::fresh_signing_key;
use crate::oracle::guess_verdict_of;
use crate::oracle::hint_request;
use crate::oracle::parse_guess_response;
use crate::oracle::parse_hint_response;
use crate::oracle::parse_secret_response;
use crate::oracle::secret_request;
use crate::prompts::check_guess_system_prompt_spec;
use crate::prompts::check_guess_user_prompt_spec;
use crate::prompts::create_hint_prompt_spec;
use crate::prompts::create_secret_prompt_spec;

verus! {

/// A ledger account, as an opaque byte string.
pub struct Address {
    pub bytes: Vec<u8>,
}

impl Address {
    /// A copy of this address, byte for byte.
    pub fn duplicate(&self) -> (r: Address)
        ensures
            r.bytes@ == self.bytes@,
    {
        Address { bytes: copy_bytes(&self.bytes) }
    }
}

/// A raw ledger event, as delivered in page order: a type name, the sender,
/// and an untyped record.
pub struct RawEvent {
    pub kind_name: String,
    pub sender: Address,
    pub payload: JsonObject,
}

/// The not-yet-processed tail of a fetched page.
pub struct PageWork {
    pub events: Vec<RawEvent>,
    pub next: usize,
    pub has_more: bool,
}

impl PageWork {
    pub open spec fn wf(self) -> bool {
        self.next <= self.events@.len()
    }
}

/// A guess under evaluation: the event, its sender, and whether this guess
/// falls on the hint cadence.
pub struct GuessWork {
    pub event: NewGuessEvent,
    pub sender: Address,
    pub hint_due: bool,
}

/// A rotation in flight: the freshly generated key and the seed that will be
/// installed with the new secret, together or not at all.
pub struct PendingRotation {
    pub signing_key: SigningKey,
    pub random_seed: u64,
}

/// What the engine is waiting on.
pub enum Phase {
    /// Bootstrapping: the first secret has been requested from the oracle.
    InitSecret { pending: PendingRotation },
    /// Bootstrapping: the first secret's commitment is being published.
    InitPublish { pending: PendingRotation, secret: String },
    /// A page fetch (raced against the shutdown signal) is outstanding.
    AwaitPage,
    /// The oracle is checking a guess against the live secret.
    AwaitGuessVerdict { work: PageWork, guess: GuessWork },
    /// A treasury withdrawal for a correct guess is outstanding.
    AwaitWithdraw { work: PageWork, guess: GuessWork },
    /// The oracle is producing a hint.
    AwaitHint { work: PageWork },
    /// The oracle is producing a rotation's new secret.
    AwaitRotateSecret { work: PageWork, pending: PendingRotation },
    /// A rotation's commitment is being published.
    AwaitRotatePublish { work: PageWork, pending: PendingRotation, secret: String },
    /// The drained page's cursor is being persisted.
    AwaitPersist,
    /// The idle wait before the next poll.
    AwaitSleep,
    /// Shutdown was requested; the final cursor write is outstanding.
    Draining,
    /// The loop has exited.
    Terminated,
}

/// One call on the outside world. The surrounding process performs it and
/// hands the result back as an [`Outcome`].
pub enum Command {
    /// Fetch the next page of events after the engine's `cursor`, at most
    /// `limit` of them, in ledger order.
    FetchPage,
    /// Send a confidential chat completion under `key`.
    CallOracle { key: SigningKey, request: InferenceRequest },
    /// Withdraw the prize from the treasury pool to `recipient`.
    Withdraw { recipient: Address },
    /// Publish the commitment of a newly generated secret on the ledger.
    PublishCommitment { secret: String },
    /// Persist the engine's `cursor` in the durable store.
    PersistCursor,
    /// Idle briefly: the ledger had nothing new.
    Sleep,
    /// Stop: the loop is over.
    Halt,
}

/// The result of the outstanding command.
pub enum Outcome {
    /// A page arrived: its events, the position after them, and whether more
    /// pages are already available.
    PageFetched { events: Vec<RawEvent>, next_cursor: Option<Cursor>, has_more: bool },
    /// The page fetch failed; the engine retries at the same cursor.
    FetchFailed,
    /// The shutdown signal fired instead of the page.
    ShutdownRequested,
    /// The shutdown channel failed; treated as a missed signal.
    SignalError,
    /// The oracle answered with this message content.
    OracleReply { content: String },
    /// The oracle transport failed.
    OracleFailed,
    /// The withdrawal went through, with its transaction reference.
    WithdrawDone { tx_ref: String },
    /// The withdrawal failed.
    WithdrawFailed,
    /// The commitment was published.
    PublishDone,
    /// Publishing the commitment failed.
    PublishFailed,
    /// The persist or sleep completed.
    Done,
    /// The cursor store failed: fatal.
    PersistFailed,
}

/// A defined observation point.
#[derive(Debug)]
pub enum LogNote {
    /// Bootstrapping failed; the engine never starts.
    EngineStartFailed,
    /// A page fetch failed; retrying.
    PageFetchFailed,
    /// The shutdown channel failed; continuing.
    ShutdownSignalError,
    /// An event whose type name is not a known kind was skipped.
    UnknownEventSkipped { kind_name: String },
    /// An event whose record did not fit its kind was skipped.
    MalformedEventSkipped { kind_name: String },
    /// The contract's publish event was seen.
    PublishEventSeen { event: PublishEvent },
    /// A quote resubmission was seen.
    QuoteResubmittedSeen { event: TDXQuoteResubmittedEvent },
    /// A guess could not be evaluated; the guess is abandoned.
    GuessEvaluationFailed,
    /// The treasury withdrawal for a correct guess failed.
    WithdrawalFailed,
    /// A prize was paid, with its transaction reference.
    PayoutIssued { tx_ref: String },
    /// The oracle's hint was unusable.
    HintFailed,
    /// A requested rotation failed: the game runs on a stale secret.
    RotationFailed,
    /// A rotation was installed.
    RotationCompleted,
    /// The cursor store failed: the engine stops.
    CursorPersistFailed,
}

impl LogNote {
    /// Whether this note must be surfaced loudly, distinctly from routine
    /// per-event errors.
    pub open spec fn escalated_spec(self) -> bool {
        self is EngineStartFailed || self is RotationFailed || self is CursorPersistFailed
    }

    /// Whether this note must be surfaced loudly.
    pub fn is_escalated(&self) -> (r: bool)
        ensures
            r == self.escalated_spec(),
    {
        match self {
            LogNote::EngineStartFailed => true,
            LogNote::RotationFailed => true,
            LogNote::CursorPersistFailed => true,
            _ => false,
        }
    }
}

/// An observation that needs no reply: a log point, or a notification the
/// engine owes the notification sink.
pub enum Effect {
    Log(LogNote),
    /// Tell the sink who won and under which transaction.
    NotifyWinner { recipient: Address, tx_ref: String },
    /// Hand the sink a fresh hint.
    NotifyHint { hint: String },
}

/// What one step yields: observations, then the next outstanding command.
pub struct StepResult {
    pub effects: Vec<Effect>,
    pub command: Command,
}

/// Whether this event demands work (a decodable guess or rotation); all
/// other events are logged and skipped.
pub open spec fn is_actionable(e: RawEvent) -> bool {
    match identify_spec(e.kind_name@) {
        Some(SecretGuessingEventIdentifier::NewGuessEvent) => decode_new_guess_spec(e.payload@)
            is Some,
        Some(SecretGuessingEventIdentifier::RotateTdxQuoteEvent) => decode_rotate_spec(e.payload@)
            is Some,
        _ => false,
    }
}

/// The index of the first event at or after `i` that demands work.
pub open spec fn first_actionable(events: Seq<RawEvent>, i: int) -> Option<int>
    decreases events.len() - i,
{
    if i < 0 || i >= events.len() {
        None
    } else if is_actionable(events[i]) {
        Some(i)
    } else {
        first_actionable(events, i + 1)
    }
}

/// The log note owed for a skipped event.
pub open spec fn skip_note_matches(e: RawEvent, note: LogNote) -> bool {
    match identify_spec(e.kind_name@) {
        None => note matches LogNote::UnknownEventSkipped { kind_name } && kind_name@
            == e.kind_name@,
        Some(SecretGuessingEventIdentifier::PublishEvent) => match decode_publish_spec(e.payload@) {
            Some(p) => note matches LogNote::PublishEventSeen { event } && event.id@ == p.0
                && event.manager_id@ == p.1,
            None => note matches LogNote::MalformedEventSkipped { kind_name } && kind_name@
                == e.kind_name@,
        },
        Some(SecretGuessingEventIdentifier::TDXQuoteResubmittedEvent) => match decode_resubmit_spec(
            e.payload@,
        ) {
            Some(p) => note matches LogNote::QuoteResubmittedSeen { event } && event.epoch == p.0
                && event.tdx_quote_v4@ == p.1 && event.public_key_bytes@ == p.2,
            None => note matches LogNote::MalformedEventSkipped { kind_name } && kind_name@
                == e.kind_name@,
        },
        Some(_) => note matches LogNote::MalformedEventSkipped { kind_name } && kind_name@
            == e.kind_name@,
    }
}

/// The engine: the confidential game state, the poll configuration, and the
/// phase of the loop.
pub struct GuessAiEngine {
    /// The oracle model to run.
    pub model: String,
    /// Every how many guesses a hint is due.
    pub hint_wait_count: u64,
    /// The page size asked of the ledger.
    pub limit: Option<u64>,
    /// The secret players are trying to guess.
    pub secret: String,
    /// The ephemeral key for the oracle transport.
    pub signing_key: SigningKey,
    /// The seed for every inference request.
    pub random_seed: u64,
    /// The last processed ledger position.
    pub cursor: Option<Cursor>,
    /// What the engine is waiting on.
    pub phase: Phase,
}

pub open spec fn phase_wf(p: Phase) -> bool {
    match p {
        Phase::InitSecret { pending } => pending.signing_key.wf(),
        Phase::InitPublish { pending, secret } => pending.signing_key.wf() && secret@.len() > 0,
        Phase::AwaitPage => true,
        Phase::AwaitGuessVerdict { work, guess } => work.wf(),
        Phase::AwaitWithdraw { work, guess } => work.wf(),
        Phase::AwaitHint { work } => work.wf(),
        Phase::AwaitRotateSecret { work, pending } => work.wf() && pending.signing_key.wf(),
        Phase::AwaitRotatePublish { work, pending, secret } => work.wf() && pending.signing_key.wf()
            && secret@.len() > 0,
        Phase::AwaitPersist => true,
        Phase::AwaitSleep => true,
        Phase::Draining => true,
        Phase::Terminated => true,
    }
}

/// Which outcome answers which phase: the engine always has exactly one
/// outstanding command, and `step` consumes exactly its result.
pub open spec fn accepts(p: Phase, outcome: Outcome) -> bool {
    match p {
        Phase::InitSecret { .. } => outcome is OracleReply || outcome is OracleFailed,
        Phase::InitPublish { .. } => outcome is PublishDone || outcome is PublishFailed,
        Phase::AwaitPage => outcome is PageFetched || outcome is FetchFailed
            || outcome is ShutdownRequested || outcome is SignalError,
        Phase::AwaitGuessVerdict { .. } => outcome is OracleReply || outcome is OracleFailed,
        Phase::AwaitWithdraw { .. } => outcome is WithdrawDone || outcome is WithdrawFailed,
        Phase::AwaitHint { .. } => outcome is OracleReply || outcome is OracleFailed,
        Phase::AwaitRotateSecret { .. } => outcome is OracleReply || outcome is OracleFailed,
        Phase::AwaitRotatePublish { .. } => outcome is PublishDone || outcome is PublishFailed,
        Phase::AwaitPersist => outcome is Done || outcome is PersistFailed,
        Phase::AwaitSleep => outcome is Done,
        Phase::Draining => outcome is Done || outcome is PersistFailed,
        Phase::Terminated => false,
    }
}

impl GuessAiEngine {
    /// Phases in which the engine has started: bootstrapping is over and the
    /// loop has not failed to start.
    pub open spec fn running(self) -> bool {
        !(self.phase is InitSecret || self.phase is InitPublish || self.phase is Terminated)
    }

    /// The engine's invariant: a sensible cadence, a 32-byte key, a
    /// well-formed phase, and — whenever the engine runs — a non-empty
    /// secret.
    pub open spec fn wf(self) -> bool {
        &&& self.hint_wait_count >= 1
        &&& self.signing_key.wf()
        &&& phase_wf(self.phase)
        &&& (self.running() ==> self.secret@.len() > 0)
        &&& hint_flag_ok(self, self.hint_wait_count)
    }
}

/// The poll configuration never changes underneath the loop.
pub open spec fn same_config(pre: GuessAiEngine, post: GuessAiEngine) -> bool {
    &&& post.model@ == pre.model@
    &&& post.hint_wait_count == pre.hint_wait_count
    &&& post.limit == pre.limit
}

/// The confidential triple — secret, signing key, seed — is untouched.
pub open spec fn same_secret_material(pre: GuessAiEngine, post: GuessAiEngine) -> bool {
    &&& post.secret@ == pre.secret@
    &&& post.signing_key.bytes@ == pre.signing_key.bytes@
    &&& post.random_seed == pre.random_seed
}

/// The confidential triple is exactly the one rotation that was pending:
/// the new key, the new seed, and the new secret, all three from the same
/// rotation attempt.
pub open spec fn rotation_installed(pre: GuessAiEngine, post: GuessAiEngine) -> bool {
    match pre.phase {
        Phase::InitPublish { pending, secret } => post.secret@ == secret@
            && post.signing_key.bytes@ == pending.signing_key.bytes@ && post.random_seed
            == pending.random_seed,
        Phase::AwaitRotatePublish { work, pending, secret } => post.secret@ == secret@
            && post.signing_key.bytes@ == pending.signing_key.bytes@ && post.random_seed
            == pending.random_seed,
        _ => false,
    }
}

/// Whether this step must issue a withdrawal: the oracle just reported a
/// correct guess, and nothing else ever pays out.
pub open spec fn withdraw_expected(pre: GuessAiEngine, outcome: Outcome) -> bool {
    match (pre.phase, outcome) {
        (Phase::AwaitGuessVerdict { work, guess }, Outcome::OracleReply { content }) => match
            guess_verdict_of(content@) {
            Some(v) => v.0,
            None => false,
        },
        _ => false,
    }
}

/// A withdrawal, when issued, is addressed to the sender of the guess under
/// evaluation.
pub open spec fn withdraw_recipient_ok(pre: GuessAiEngine, r: StepResult) -> bool {
    match r.command {
        Command::Withdraw { recipient } => match pre.phase {
            Phase::AwaitGuessVerdict { work, guess } => recipient.bytes@ == guess.sender.bytes@,
            _ => false,
        },
        _ => true,
    }
}

/// Every guess awaiting its verdict carries the hint-cadence decision:
/// a hint is due exactly when `guess_count` is a multiple of the cadence.
pub open spec fn hint_flag_ok(post: GuessAiEngine, hint_wait_count: u64) -> bool {
    match post.phase {
        Phase::AwaitGuessVerdict { work, guess } => guess.hint_due == (guess.event.guess_count as int
            % hint_wait_count as int == 0),
        Phase::AwaitWithdraw { work, guess } => guess.hint_due == (guess.event.guess_count as int
            % hint_wait_count as int == 0),
        _ => true,
    }
}

/// A hint request goes out exactly when the guess whose cadence was due has
/// finished its correctness branch: after an incorrect verdict, or after a
/// completed payout. The request carries the live secret, key and seed.
pub open spec fn hint_entry_ok(
    pre: GuessAiEngine,
    outcome: Outcome,
    post: GuessAiEngine,
    r: StepResult,
) -> bool {
    &&& (post.phase is AwaitHint ==> {
        ||| (match (pre.phase, outcome) {
            (Phase::AwaitGuessVerdict { work, guess }, Outcome::OracleReply { content }) => {
                &&& guess.hint_due
                &&& match guess_verdict_of(content@) {
                    Some(v) => !v.0,
                    None => false,
                }
            },
            _ => false,
        })
        ||| (match (pre.phase, outcome) {
            (Phase::AwaitWithdraw { work, guess }, Outcome::WithdrawDone { tx_ref }) =>
                guess.hint_due,
            _ => false,
        })
    })
    &&& (post.phase is AwaitHint ==> match r.command {
        Command::CallOracle { key, request } => {
            &&& key.bytes@ == pre.signing_key.bytes@
            &&& request.model@ == pre.model@
            &&& request.seed == pre.random_seed
            &&& request.messages@.len() == 1
            &&& request.messages@[0].content@ == create_hint_prompt_spec(pre.secret@)
        },
        _ => false,
    })
    &&& (match (pre.phase, outcome) {
        (Phase::AwaitGuessVerdict { work, guess }, Outcome::OracleReply { content }) => (
        match guess_verdict_of(content@) {
            Some(v) => !v.0,
            None => false,
        } && guess.hint_due) ==> post.phase is AwaitHint,
        _ => true,
    })
    &&& (match (pre.phase, outcome) {
        (Phase::AwaitWithdraw { work, guess }, Outcome::WithdrawDone { tx_ref }) => guess.hint_due
            ==> post.phase is AwaitHint,
        _ => true,
    })
}

/// The page tail the engine keeps walking after this outcome, when the
/// outcome neither opens a new wait on this event nor leaves the page.
pub open spec fn continues_with_work(pre: GuessAiEngine, outcome: Outcome) -> Option<PageWork> {
    match (pre.phase, outcome) {
        (Phase::AwaitPage, Outcome::PageFetched { events, next_cursor, has_more }) => Some(
            PageWork { events, next: 0, has_more },
        ),
        (Phase::AwaitGuessVerdict { work, guess }, Outcome::OracleReply { content }) => match
            guess_verdict_of(content@) {
            Some(v) => if v.0 {
                None
            } else if guess.hint_due {
                None
            } else {
                Some(work)
            },
            None => Some(work),
        },
        (Phase::AwaitGuessVerdict { work, guess }, Outcome::OracleFailed) => Some(work),
        (Phase::AwaitWithdraw { work, guess }, Outcome::WithdrawDone { tx_ref }) => if guess.hint_due {
            None
        } else {
            Some(work)
        },
        (Phase::AwaitWithdraw { work, guess }, Outcome::WithdrawFailed) => Some(work),
        (Phase::AwaitHint { work }, Outcome::OracleReply { content }) => Some(work),
        (Phase::AwaitHint { work }, Outcome::OracleFailed) => Some(work),
        (Phase::AwaitRotateSecret { work, pending }, Outcome::OracleReply { content }) => if
        secret_of_response_nonempty(content@) {
            None
        } else {
            Some(work)
        },
        (Phase::AwaitRotateSecret { work, pending }, Outcome::OracleFailed) => Some(work),
        (Phase::AwaitRotatePublish { work, pending, secret }, Outcome::PublishDone) => Some(work),
        (Phase::AwaitRotatePublish { work, pending, secret }, Outcome::PublishFailed) => Some(work),
        _ => None,
    }
}

/// Whether the oracle's secret answer parsed to a usable (non-empty) secret.
pub open spec fn secret_of_response_nonempty(content: Seq<char>) -> bool {
    match crate::oracle::secret_of_response(content) {
        Some(t) => t.len() > 0,
        None => false,
    }
}

/// Where walking the page tail `work` must land: every event before the
/// first actionable one is skipped; a decodable guess opens its oracle
/// check, a decodable rotation opens its secret request; a finished page
/// fetches on (more data) or checkpoints the cursor (drained).
pub open spec fn dispatch_post(
    pre: GuessAiEngine,
    work: PageWork,
    post: GuessAiEngine,
    r: StepResult,
) -> bool {
    match first_actionable(work.events@, work.next as int) {
        None => if work.has_more {
            r.command is FetchPage && post.phase is AwaitPage
        } else {
            r.command is PersistCursor && post.phase is AwaitPersist
        },
        Some(j) => {
            let e = work.events@[j];
            match identify_spec(e.kind_name@) {
                Some(SecretGuessingEventIdentifier::NewGuessEvent) => match decode_new_guess_spec(
                    e.payload@,
                ) {
                    Some(p) => {
                        &&& post.phase matches Phase::AwaitGuessVerdict { work: w2, guess: g }
                            && w2.events@ == work.events@ && w2.next == j + 1 && w2.has_more
                            == work.has_more && g.event.fee == p.0 && g.event.guess@ == p.1
                            && g.event.guess_count == p.2 && g.event.treasury_pool_balance == p.3
                            && g.sender.bytes@ == e.sender.bytes@ && g.hint_due == (p.2 as int
                            % pre.hint_wait_count as int == 0)
                        &&& r.command matches Command::CallOracle { key, request } && key.bytes@
                            == pre.signing_key.bytes@ && request.model@ == pre.model@
                            && request.seed == pre.random_seed && request.messages@.len() == 2
                            && request.messages@[0].content@ == check_guess_system_prompt_spec()
                            && request.messages@[1].content@ == check_guess_user_prompt_spec(
                            p.1,
                            pre.secret@,
                        )
                    },
                    None => false,
                },
                Some(SecretGuessingEventIdentifier::RotateTdxQuoteEvent) => match decode_rotate_spec(
                    e.payload@,
                ) {
                    Some(p) => post.phase matches Phase::AwaitRotateSecret { work: w2, pending }
                        && w2.events@ == work.events@ && w2.next == j + 1 && w2.has_more
                        == work.has_more && pending.random_seed == p.1 && pending.signing_key.wf()
                        && (r.command matches Command::CallOracle { key, request } && key.bytes@
                        == pending.signing_key.bytes@ && request.model@ == pre.model@
                        && request.seed == p.1 && request.messages@.len() == 1
                        && request.messages@[0].content@ == create_secret_prompt_spec()),
                    None => false,
                },
                _ => false,
            }
        },
    }
}

/// The idle tail of the loop, pinned: a drained page's checkpoint is
/// followed by the idle wait and then the next poll; a fetch fault or a
/// noisy shutdown channel is logged and the poll retried at the same cursor;
/// a cursor-store fault stops the engine, loudly.
pub open spec fn loop_transitions_ok(
    pre: GuessAiEngine,
    outcome: Outcome,
    post: GuessAiEngine,
    r: StepResult,
) -> bool {
    match (pre.phase, outcome) {
        (Phase::AwaitPersist, Outcome::Done) => r.command is Sleep && post.phase is AwaitSleep,
        (Phase::AwaitSleep, Outcome::Done) => r.command is FetchPage && post.phase is AwaitPage,
        (Phase::AwaitPage, Outcome::FetchFailed) => r.command is FetchPage
            && post.phase is AwaitPage && r.effects@.len() >= 1 && r.effects@[0] == Effect::Log(
            LogNote::PageFetchFailed,
        ),
        (Phase::AwaitPage, Outcome::SignalError) => r.command is FetchPage
            && post.phase is AwaitPage && r.effects@.len() >= 1 && r.effects@[0] == Effect::Log(
            LogNote::ShutdownSignalError,
        ),
        (Phase::AwaitPersist, Outcome::PersistFailed) => r.command is Halt && r.effects@.len() >= 1
            && r.effects@[0] == Effect::Log(LogNote::CursorPersistFailed),
        _ => true,
    }
}

/// The rotation protocol, step by step: a usable (non-empty) secret from
/// the oracle is published before anything is installed; an unusable answer
/// aborts the attempt — fatally during bootstrap, loudly afterwards — and
/// installs nothing.
pub open spec fn rotation_steps_ok(
    pre: GuessAiEngine,
    outcome: Outcome,
    post: GuessAiEngine,
    r: StepResult,
) -> bool {
    match (pre.phase, outcome) {
        (Phase::InitSecret { pending }, Outcome::OracleReply { content }) => if
        secret_of_response_nonempty(content@) {
            post.phase matches Phase::InitPublish { pending: p2, secret }
                && p2.signing_key.bytes@ == pending.signing_key.bytes@ && p2.random_seed
                == pending.random_seed && Some(secret@) == crate::oracle::secret_of_response(
                content@,
            ) && (r.command matches Command::PublishCommitment { secret: s2 } && Some(s2@)
                == crate::oracle::secret_of_response(content@))
        } else {
            post.phase is Terminated && r.effects@.len() >= 1 && r.effects@[0] == Effect::Log(
                LogNote::EngineStartFailed,
            )
        },
        (Phase::InitSecret { pending }, Outcome::OracleFailed) => post.phase is Terminated
            && r.effects@.len() >= 1 && r.effects@[0] == Effect::Log(LogNote::EngineStartFailed),
        (Phase::AwaitRotateSecret { work, pending }, Outcome::OracleReply { content }) => if
        secret_of_response_nonempty(content@) {
            post.phase matches Phase::AwaitRotatePublish { work: w2, pending: p2, secret }
                && p2.signing_key.bytes@ == pending.signing_key.bytes@ && p2.random_seed
                == pending.random_seed && Some(secret@) == crate::oracle::secret_of_response(
                content@,
            ) && (r.command matches Command::PublishCommitment { secret: s2 } && Some(s2@)
                == crate::oracle::secret_of_response(content@))
        } else {
            r.effects@.len() >= 1 && r.effects@[0] == Effect::Log(LogNote::RotationFailed)
        },
        (Phase::AwaitRotateSecret { work, pending }, Outcome::OracleFailed) => r.effects@.len() >= 1
            && r.effects@[0] == Effect::Log(LogNote::RotationFailed),
        (Phase::AwaitRotatePublish { work, pending, secret }, Outcome::PublishFailed) => r.effects@.len()
            >= 1 && r.effects@[0] == Effect::Log(LogNote::RotationFailed),
        (Phase::AwaitRotatePublish { work, pending, secret }, Outcome::PublishDone) => r.effects@.len()
            >= 1 && r.effects@[0] == Effect::Log(LogNote::RotationCompleted),
        _ => true,
    }
}

impl GuessAiEngine {
    /// Builds the engine and begins bootstrapping: a fresh key and a locally
    /// random seed are chosen, and the first secret is requested from the
    /// oracle. The engine starts only if that rotation completes.
    pub fn new(model: String, hint_wait_count: u64, limit: Option<u64>, cursor: Option<Cursor>) -> (r: (
        GuessAiEngine,
        Command,
    ))
        requires
            hint_wait_count >= 1,
        ensures
            r.0.wf(),
            r.0.model@ == model@,
            r.0.hint_wait_count == hint_wait_count,
            r.0.limit == limit,
            r.0.cursor == cursor,
            r.0.phase matches Phase::InitSecret { pending } && pending.signing_key.bytes@
                == r.0.signing_key.bytes@ && pending.random_seed == r.0.random_seed,
            r.1 matches Command::CallOracle { key, request } && key.bytes@
                == r.0.signing_key.bytes@ && request.model@ == model@ && request.seed
                == r.0.random_seed && request.messages@.len() == 1
                && request.messages@[0].content@ == create_secret_prompt_spec(),
    {
        let signing_key = fresh_signing_key();
        let random_seed = fresh_seed();
        let request = secret_request(model.as_str(), random_seed);
        let command = Command::CallOracle { key: signing_key.duplicate(), request };
        let pending = PendingRotation { signing_key: signing_key.duplicate(), random_seed };
        let engine = GuessAiEngine {
            model,
            hint_wait_count,
            limit,
            secret: String::new(),
            signing_key,
            random_seed,
            cursor,
            phase: Phase::InitSecret { pending },
        };
        (engine, command)
    }

    /// Consumes the outstanding command's outcome and yields the next
    /// command. The contract carries the engine's laws: the confidential
    /// triple changes only wholesale when a pending rotation's commitment is
    /// published; a withdrawal is issued exactly when the oracle reported a
    /// correct guess, and only to that guess's sender; a hint request goes
    /// out exactly when the finished guess fell on the cadence; the cursor
    /// moves only to a fetched page's position; and page processing runs to
    /// the end of the page whatever each event's handler did. That last point
    /// is deliberate: an event whose handling failed is logged and skipped,
    /// never retried, and the checkpoint still advances past it.
    pub fn step(&mut self, outcome: Outcome) -> (r: StepResult)
        requires
            old(self).wf(),
            accepts(old(self).phase, outcome),
        ensures
            final(self).wf(),
            same_config(*old(self), *final(self)),
            same_secret_material(*old(self), *final(self)) || (outcome is PublishDone
                && rotation_installed(*old(self), *final(self))),
            final(self).cursor == old(self).cursor || (outcome matches Outcome::PageFetched {
                next_cursor,
                ..
            } && final(self).cursor == next_cursor),
            r.command is Withdraw <==> withdraw_expected(*old(self), outcome),
            withdraw_recipient_ok(*old(self), r),
            hint_flag_ok(*final(self), old(self).hint_wait_count),
            hint_entry_ok(*old(self), outcome, *final(self), r),
            match continues_with_work(*old(self), outcome) {
                Some(w) => dispatch_post(*final(self), w, *final(self), r),
                None => true,
            },
            final(self).phase is Draining <==> (old(self).phase is AwaitPage
                && outcome is ShutdownRequested),
            old(self).phase is AwaitPage && outcome is ShutdownRequested ==> r.command
                is PersistCursor,
            r.command is Halt <==> final(self).phase is Terminated,
            rotation_steps_ok(*old(self), outcome, *final(self), r),
            loop_transitions_ok(*old(self), outcome, *final(self), r),
            match (old(self).phase, outcome) {
                (Phase::AwaitGuessVerdict { work, guess }, Outcome::OracleFailed) => r.effects@.len()
                    >= 1 && r.effects@[0] == Effect::Log(LogNote::GuessEvaluationFailed),
                (Phase::AwaitWithdraw { work, guess }, Outcome::WithdrawFailed) => r.effects@.len()
                    >= 1 && r.effects@[0] == Effect::Log(LogNote::WithdrawalFailed),
                _ => true,
            },
            match (old(self).phase, outcome) {
                (Phase::AwaitWithdraw { work, guess }, Outcome::WithdrawDone { tx_ref }) => {
                    &&& r.effects@.len() >= 2
                    &&& r.effects@[0] matches Effect::Log(LogNote::PayoutIssued { tx_ref: t })
                        && t@ == tx_ref@
                    &&& r.effects@[1] matches Effect::NotifyWinner { recipient, tx_ref: t }
                        && recipient.bytes@ == guess.sender.bytes@ && t@ == tx_ref@
                },
                _ => true,
            },
            match (old(self).phase, outcome) {
                (Phase::AwaitHint { work }, Outcome::OracleReply { content }) => match crate::oracle::hint_of_response(
                    content@,
                ) {
                    Some(h) => r.effects@.len() >= 1 && (r.effects@[0] matches Effect::NotifyHint {
                        hint,
                    } && hint@ == h),
                    None => r.effects@.len() >= 1 && r.effects@[0] == Effect::Log(
                        LogNote::HintFailed,
                    ),
                },
                _ => true,
            },
    {
        let mut phase = Phase::Terminated;
        core::mem::swap(&mut phase, &mut self.phase);
        match (phase, outcome) {
            (Phase::InitSecret { pending }, Outcome::OracleReply { content }) => {
                match parse_secret_response(content.as_str()) {
                    Some(secret) => {
                        if secret.as_str().unicode_len() == 0 {
                            self.start_failed()
                        } else {
                            let command = Command::PublishCommitment { secret: secret.clone() };
                            self.phase = Phase::InitPublish { pending, secret };
                            StepResult { effects: Vec::new(), command }
                        }
                    },
                    None => self.start_failed(),
                }
            },
            (Phase::InitSecret { pending }, _) => self.start_failed(),
            (Phase::InitPublish { pending, secret }, Outcome::PublishDone) => {
                self.secret = secret;
                self.signing_key = pending.signing_key;
                self.random_seed = pending.random_seed;
                self.phase = Phase::AwaitPage;
                StepResult { effects: Vec::new(), command: Command::FetchPage }
            },
            (Phase::InitPublish { pending, secret }, _) => self.start_failed(),
            (Phase::AwaitPage, Outcome::PageFetched { events, next_cursor, has_more }) => {
                self.cursor = next_cursor;
                self.advance_page(PageWork { events, next: 0, has_more })
            },
            (Phase::AwaitPage, Outcome::ShutdownRequested) => {
                self.phase = Phase::Draining;
                StepResult { effects: Vec::new(), command: Command::PersistCursor }
            },
            (Phase::AwaitPage, Outcome::SignalError) => {
                let mut effects: Vec<Effect> = Vec::new();
                effects.push(Effect::Log(LogNote::ShutdownSignalError));
                self.phase = Phase::AwaitPage;
                StepResult { effects, command: Command::FetchPage }
            },
            (Phase::AwaitPage, _) => {
                let mut effects: Vec<Effect> = Vec::new();
                effects.push(Effect::Log(LogNote::PageFetchFailed));
                self.phase = Phase::AwaitPage;
                StepResult { effects, command: Command::FetchPage }
            },
            (Phase::AwaitGuessVerdict { work, guess }, Outcome::OracleReply { content }) => {
                match parse_guess_response(content.as_str()) {
                    Some(verdict) => {
                        if verdict.is_correct {
                            let recipient = guess.sender.duplicate();
                            self.phase = Phase::AwaitWithdraw { work, guess };
                            StepResult {
                                effects: Vec::new(),
                                command: Command::Withdraw { recipient },
                            }
                        } else {
                            self.after_guess(work, guess.hint_due)
                        }
                    },
                    None => {
                        let mut effects: Vec<Effect> = Vec::new();
                        effects.push(Effect::Log(LogNote::GuessEvaluationFailed));
                        let tail = self.advance_page(work);
                        with_prefix(effects, tail)
                    },
                }
            },
            (Phase::AwaitGuessVerdict { work, guess }, _) => {
                let mut effects: Vec<Effect> = Vec::new();
                effects.push(Effect::Log(LogNote::GuessEvaluationFailed));
                let tail = self.advance_page(work);
                with_prefix(effects, tail)
            },
            (Phase::AwaitWithdraw { work, guess }, Outcome::WithdrawDone { tx_ref }) => {
                let mut effects: Vec<Effect> = Vec::new();
                effects.push(Effect::Log(LogNote::PayoutIssued { tx_ref: tx_ref.clone() }));
                effects.push(
                    Effect::NotifyWinner { recipient: guess.sender.duplicate(), tx_ref },
                );
                let tail = self.after_guess(work, guess.hint_due);
                with_prefix(effects, tail)
            },
            (Phase::AwaitWithdraw { work, guess }, _) => {
                let mut effects: Vec<Effect> = Vec::new();
                effects.push(Effect::Log(LogNote::WithdrawalFailed));
                let tail = self.advance_page(work);
                with_prefix(effects, tail)
            },
            (Phase::AwaitHint { work }, Outcome::OracleReply { content }) => {
                let mut effects: Vec<Effect> = Vec::new();
                match parse_hint_response(content.as_str()) {
                    Some(hint) => effects.push(Effect::NotifyHint { hint }),
                    None => effects.push(Effect::Log(LogNote::HintFailed)),
                }
                let tail = self.advance_page(work);
                with_prefix(effects, tail)
            },
            (Phase::AwaitHint { work }, _) => {
                let mut effects: Vec<Effect> = Vec::new();
                effects.push(Effect::Log(LogNote::HintFailed));
                let tail = self.advance_page(work);
                with_prefix(effects, tail)
            },
            (Phase::AwaitRotateSecret { work, pending }, Outcome::OracleReply { content }) => {
                match parse_secret_response(content.as_str()) {
                    Some(secret) => {
                        if secret.as_str().unicode_len() == 0 {
                            let mut effects: Vec<Effect> = Vec::new();
                            effects.push(Effect::Log(LogNote::RotationFailed));
                            let tail = self.advance_page(work);
                            with_prefix(effects, tail)
                        } else {
                            let command = Command::PublishCommitment { secret: secret.clone() };
                            self.phase = Phase::AwaitRotatePublish { work, pending, secret };
                            StepResult { effects: Vec::new(), command }
                        }
                    },
                    None => {
                        let mut effects: Vec<Effect> = Vec::new();
                        effects.push(Effect::Log(LogNote::RotationFailed));
                        let tail = self.advance_page(work);
                        with_prefix(effects, tail)
                    },
                }
            },
            (Phase::AwaitRotateSecret { work, pending }, _) => {
                let mut effects: Vec<Effect> = Vec::new();
                effects.push(Effect::Log(LogNote::RotationFailed));
                let tail = self.advance_page(work);
                with_prefix(effects, tail)
            },
            (Phase::AwaitRotatePublish { work, pending, secret }, Outcome::PublishDone) => {
                self.secret = secret;
                self.signing_key = pending.signing_key;
                self.random_seed = pending.random_seed;
                let mut effects: Vec<Effect> = Vec::new();
                effects.push(Effect::Log(LogNote::RotationCompleted));
                let tail = self.advance_page(work);
                with_prefix(effects, tail)
            },
            (Phase::AwaitRotatePublish { work, pending, secret }, _) => {
                let mut effects: Vec<Effect> = Vec::new();
                effects.push(Effect::Log(LogNote::RotationFailed));
                let tail = self.advance_page(work);
                with_prefix(effects, tail)
            },
            (Phase::AwaitPersist, Outcome::Done) => {
                self.phase = Phase::AwaitSleep;
                StepResult { effects: Vec::new(), command: Command::Sleep }
            },
            (Phase::AwaitPersist, _) => {
                let mut effects: Vec<Effect> = Vec::new();
                effects.push(Effect::Log(LogNote::CursorPersistFailed));
                self.phase = Phase::Terminated;
                StepResult { effects, command: Command::Halt }
            },
            (Phase::AwaitSleep, _) => {
                self.phase = Phase::AwaitPage;
                StepResult { effects: Vec::new(), command: Command::FetchPage }
            },
            (Phase::Draining, _) => {
                self.phase = Phase::Terminated;
                StepResult { effects: Vec::new(), command: Command::Halt }
            },
            (Phase::Terminated, _) => {
                proof {
                    assert(false);
                }
                StepResult { effects: Vec::new(), command: Command::Halt }
            },
        }
    }

    /// Bootstrapping failed: the engine never starts.
    fn start_failed(&mut self) -> (r: StepResult)
        ensures
            *final(self) == (GuessAiEngine { phase: Phase::Terminated, ..*old(self) }),
            r.effects@.len() == 1 && r.effects@[0] == Effect::Log(LogNote::EngineStartFailed),
            r.command is Halt,
    {
        let mut effects: Vec<Effect> = Vec::new();
        effects.push(Effect::Log(LogNote::EngineStartFailed));
        self.phase = Phase::Terminated;
        StepResult { effects, command: Command::Halt }
    }

    /// A guess's correctness branch is over; if its cadence was due, ask the
    /// oracle for a hint, otherwise walk on through the page.
    fn after_guess(&mut self, work: PageWork, hint_due: bool) -> (r: StepResult)
        requires
            old(self).hint_wait_count >= 1,
            old(self).signing_key.wf(),
            old(self).secret@.len() > 0,
            work.wf(),
        ensures
            same_config(*old(self), *final(self)),
            same_secret_material(*old(self), *final(self)),
            final(self).cursor == old(self).cursor,
            final(self).wf(),
            final(self).phase is AwaitHint <==> hint_due,
            hint_due ==> {
                &&& final(self).phase matches Phase::AwaitHint { work: w2 } && w2.events@
                    == work.events@ && w2.next == work.next && w2.has_more == work.has_more
                &&& r.command matches Command::CallOracle { key, request } && key.bytes@
                    == old(self).signing_key.bytes@ && request.model@ == old(self).model@
                    && request.seed == old(self).random_seed && request.messages@.len() == 1
                    && request.messages@[0].content@ == create_hint_prompt_spec(old(self).secret@)
                &&& r.effects@ == Seq::<Effect>::empty()
            },
            !hint_due ==> dispatch_post(*old(self), work, *final(self), r) && page_skip_logs(
                work,
                r.effects@,
            ),
            !(r.command is Withdraw) && !(r.command is Halt) && !(r.command is PublishCommitment)
                && !(r.command is Sleep),
            !(final(self).phase is Draining) && !(final(self).phase is Terminated),
    {
        if hint_due {
            let request = hint_request(
                self.model.as_str(),
                self.random_seed,
                self.secret.as_str(),
            );
            let key = self.signing_key.duplicate();
            self.phase = Phase::AwaitHint { work };
            StepResult { effects: Vec::new(), command: Command::CallOracle { key, request } }
        } else {
            self.advance_page(work)
        }
    }

    /// Walks the page tail: skipped events are logged in order, the first
    /// decodable guess or rotation opens its oracle call, and a finished
    /// page fetches on or checkpoints.
    fn advance_page(&mut self, work: PageWork) -> (r: StepResult)
        requires
            old(self).hint_wait_count >= 1,
            old(self).signing_key.wf(),
            old(self).secret@.len() > 0,
            work.wf(),
        ensures
            same_config(*old(self), *final(self)),
            same_secret_material(*old(self), *final(self)),
            final(self).cursor == old(self).cursor,
            final(self).wf(),
            dispatch_post(*old(self), work, *final(self), r),
            page_skip_logs(work, r.effects@),
            !(r.command is Withdraw) && !(r.command is Halt) && !(r.command is PublishCommitment)
                && !(r.command is Sleep),
            !(final(self).phase is Draining),
            !(final(self).phase is Terminated),
            !(final(self).phase is AwaitHint),
    {
        let mut effects: Vec<Effect> = Vec::new();
        let mut next = work.next;
        let n = work.events.len();
        while next < n
            invariant
                n == work.events@.len(),
                work.next <= next <= n,
                old(self).hint_wait_count >= 1,
                old(self).signing_key.wf(),
                old(self).secret@.len() > 0,
                *self == *old(self),
                first_actionable(work.events@, work.next as int) == first_actionable(
                    work.events@,
                    next as int,
                ),
                effects@.len() == next - work.next,
                forall|k: int|
                    0 <= k < next - work.next ==> (#[trigger] effects@[k]
                        matches Effect::Log(note) && skip_note_matches(
                        work.events@[work.next + k],
                        note,
                    )),
            decreases n - next,
        {
            let kind = match SecretGuessingEventIdentifier::from_str(
                work.events[next].kind_name.as_str(),
            ) {
                Ok(kind) => kind,
                Err(_) => {
                    effects.push(
                        Effect::Log(
                            LogNote::UnknownEventSkipped {
                                kind_name: work.events[next].kind_name.clone(),
                            },
                        ),
                    );
                    next += 1;
                    continue ;
                },
            };
            match parse_event(kind, &work.events[next].payload) {
                Err(_) => {
                    effects.push(
                        Effect::Log(
                            LogNote::MalformedEventSkipped {
                                kind_name: work.events[next].kind_name.clone(),
                            },
                        ),
                    );
                    next += 1;
                },
                Ok(SecretGuessingEvent::PublishEvent(event)) => {
                    effects.push(Effect::Log(LogNote::PublishEventSeen { event }));
                    next += 1;
                },
                Ok(SecretGuessingEvent::TDXQuoteResubmittedEvent(event)) => {
                    effects.push(Effect::Log(LogNote::QuoteResubmittedSeen { event }));
                    next += 1;
                },
                Ok(SecretGuessingEvent::NewGuessEvent(event)) => {
                    proof {
                        assert(is_actionable(work.events@[next as int]));
                        assert(first_actionable(work.events@, next as int) == Some(next as int));
                    }
                    let hint_due = event.guess_count % self.hint_wait_count == 0;
                    let request = check_guess_request(
                        self.model.as_str(),
                        self.random_seed,
                        event.guess.as_str(),
                        self.secret.as_str(),
                    );
                    let key = self.signing_key.duplicate();
                    let sender = work.events[next].sender.duplicate();
                    self.phase = Phase::AwaitGuessVerdict {
                        work: PageWork {
                            events: work.events,
                            next: next + 1,
                            has_more: work.has_more,
                        },
                        guess: GuessWork { event, sender, hint_due },
                    };
                    return StepResult { effects, command: Command::CallOracle { key, request } };
                },
                Ok(SecretGuessingEvent::RotateTdxQuoteEvent(event)) => {
                    proof {
                        assert(is_actionable(work.events@[next as int]));
                        assert(first_actionable(work.events@, next as int) == Some(next as int));
                    }
                    let signing_key = fresh_signing_key();
                    let request = secret_request(self.model.as_str(), event.random_seed);
                    let key = signing_key.duplicate();
                    self.phase = Phase::AwaitRotateSecret {
                        work: PageWork {
                            events: work.events,
                            next: next + 1,
                            has_more: work.has_more,
                        },
                        pending: PendingRotation { signing_key, random_seed: event.random_seed },
                    };
                    return StepResult { effects, command: Command::CallOracle { key, request } };
                },
            }
        }
        if work.has_more {
            self.phase = Phase::AwaitPage;
            StepResult { effects, command: Command::FetchPage }
        } else {
            self.phase = Phase::AwaitPersist;
            StepResult { effects, command: Command::PersistCursor }
        }
    }
}

/// The owed effects, then the tail's effects, before the tail's command.
fn with_prefix(mut prefix: Vec<Effect>, tail: StepResult) -> (r: StepResult)
    ensures
        r.effects@ == prefix@ + tail.effects@,
        r.command == tail.command,
{
    let mut tail = tail;
    prefix.append(&mut tail.effects);
    StepResult { effects: prefix, command: tail.command }
}

/// The effects of walking a page tail: one log note per skipped event, in
/// page order.
pub open spec fn page_skip_logs(work: PageWork, logs: Seq<Effect>) -> bool {
    let end = match first_actionable(work.events@, work.next as int) {
        None => work.events@.len() as int,
        Some(j) => j,
    };
    &&& logs.len() == end - work.next
    &&& forall|k: int|
        0 <= k < end - work.next ==> (#[trigger] logs[k] matches Effect::Log(note)
            && skip_note_matches(work.events@[work.next + k], note))
}

} // verus!
