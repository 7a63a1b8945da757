use secret_guessing::Address;
use secret_guessing::Command;
use secret_guessing::Cursor;
use secret_guessing::Effect;
use secret_guessing::GuessAiEngine;
use secret_guessing::JsonField;
use secret_guessing::JsonObject;
use secret_guessing::LogNote;
use secret_guessing::Outcome;
use secret_guessing::RawEvent;
use secret_guessing::StepResult;
use secret_guessing::create_hint_prompt;

fn obj(fields: Vec<(&str, JsonField)>) -> JsonObject {
    JsonObject { fields: fields.into_iter().map(|(k, v)| (k.to_string(), v)).collect() }
}

fn new_guess_event(sender: Vec<u8>, guess: &str, fee: &str, count: &str, balance: u64) -> RawEvent {
    RawEvent {
        kind_name: "NewGuessEvent".to_string(),
        sender: Address { bytes: sender },
        payload: obj(vec![
            ("fee", JsonField::Str(fee.to_string())),
            ("guess", JsonField::Str(guess.to_string())),
            ("guess_count", JsonField::Str(count.to_string())),
            ("treasury_pool_balance", JsonField::UInt(balance)),
        ]),
    }
}

fn rotate_event(epoch: &str, seed: &str) -> RawEvent {
    RawEvent {
        kind_name: "RotateTdxQuoteEvent".to_string(),
        sender: Address { bytes: vec![9] },
        payload: obj(vec![
            ("epoch", JsonField::Str(epoch.to_string())),
            ("random_seed", JsonField::Str(seed.to_string())),
        ]),
    }
}

/// Runs the bootstrap rotation to completion: the engine starts with the
/// secret "kaleidoscope" and an outstanding page fetch.
fn booted_engine(hint_wait_count: u64) -> GuessAiEngine {
    let (mut engine, command) = GuessAiEngine::new("model-x".to_string(), hint_wait_count, None, None);
    match &command {
        Command::CallOracle { key, request } => {
            assert_eq!(key.bytes.len(), 32);
            assert_eq!(request.seed, engine.random_seed);
            assert_eq!(request.messages.len(), 1);
        }
        _ => panic!("bootstrapping must begin with an oracle call"),
    }
    let r = engine.step(Outcome::OracleReply {
        content: "{\"secret\": \"kaleidoscope\"}".to_string(),
    });
    match &r.command {
        Command::PublishCommitment { secret } => assert_eq!(secret, "kaleidoscope"),
        _ => panic!("a parsed secret must be published"),
    }
    let r = engine.step(Outcome::PublishDone);
    assert!(matches!(r.command, Command::FetchPage));
    assert_eq!(engine.secret, "kaleidoscope");
    engine
}

fn page(events: Vec<RawEvent>, next_cursor: Vec<u8>, has_more: bool) -> Outcome {
    Outcome::PageFetched { events, next_cursor: Some(Cursor { bytes: next_cursor }), has_more }
}

fn count_withdrawals(steps: &[StepResult]) -> usize {
    steps.iter().filter(|r| matches!(r.command, Command::Withdraw { .. })).count()
}

#[test]
fn bootstrap_failure_never_starts_the_engine() {
    let (mut engine, _) = GuessAiEngine::new("model-x".to_string(), 3, None, None);
    let r = engine.step(Outcome::OracleReply { content: "not json at all".to_string() });
    assert!(matches!(r.command, Command::Halt));
    match &r.effects[0] {
        Effect::Log(note) => {
            assert!(matches!(note, LogNote::EngineStartFailed));
            assert!(note.is_escalated());
        }
        _ => panic!("a failed bootstrap must be logged loudly"),
    }
}

#[test]
fn empty_bootstrap_secret_is_refused() {
    let (mut engine, _) = GuessAiEngine::new("model-x".to_string(), 3, None, None);
    let r = engine.step(Outcome::OracleReply { content: "{\"secret\": \"\"}".to_string() });
    assert!(matches!(r.command, Command::Halt));
}

#[test]
fn correct_guess_pays_exactly_once_to_the_sender() {
    let mut engine = booted_engine(3);
    let mut steps: Vec<StepResult> = Vec::new();
    steps.push(engine.step(page(
        vec![new_guess_event(vec![1, 2, 3], "kaleidoscope", "100", "7", 1000)],
        vec![0xaa],
        false,
    )));
    assert!(matches!(steps[0].command, Command::CallOracle { .. }));
    steps.push(engine.step(Outcome::OracleReply {
        content: "{\"is_correct\": true, \"explanation\": \"exact match\"}".to_string(),
    }));
    match &steps[1].command {
        Command::Withdraw { recipient } => assert_eq!(recipient.bytes, vec![1, 2, 3]),
        _ => panic!("a correct guess must trigger a withdrawal"),
    }
    steps.push(engine.step(Outcome::WithdrawDone { tx_ref: "0xfeed".to_string() }));
    match &steps[2].effects[0] {
        Effect::Log(LogNote::PayoutIssued { tx_ref }) => assert_eq!(tx_ref, "0xfeed"),
        _ => panic!("the payout must be logged"),
    }
    match &steps[2].effects[1] {
        Effect::NotifyWinner { recipient, tx_ref } => {
            assert_eq!(recipient.bytes, vec![1, 2, 3]);
            assert_eq!(tx_ref, "0xfeed");
        }
        _ => panic!("the sink must hear of the winner"),
    }
    // 7 is not a multiple of 3: no hint; the drained page is checkpointed.
    assert!(matches!(steps[2].command, Command::PersistCursor));
    assert_eq!(count_withdrawals(&steps), 1);
}

#[test]
fn incorrect_guess_pays_nothing() {
    let mut engine = booted_engine(3);
    let mut steps: Vec<StepResult> = Vec::new();
    steps.push(engine.step(page(
        vec![new_guess_event(vec![4], "sponge", "100", "7", 1000)],
        vec![0xaa],
        false,
    )));
    steps.push(engine.step(Outcome::OracleReply {
        content: "{\"is_correct\": false, \"explanation\": \"different concept\"}".to_string(),
    }));
    assert!(matches!(steps[1].command, Command::PersistCursor));
    assert_eq!(count_withdrawals(&steps), 0);
}

#[test]
fn hint_fires_exactly_once_when_count_hits_the_cadence() {
    // guess_count = 10, hint_wait_count = 5: the hint is due.
    let mut engine = booted_engine(5);
    let r = engine.step(page(
        vec![new_guess_event(vec![4], "sponge", "1", "10", 50)],
        vec![0xbb],
        false,
    ));
    assert!(matches!(r.command, Command::CallOracle { .. }));
    let r = engine.step(Outcome::OracleReply {
        content: "{\"is_correct\": false, \"explanation\": \"no\"}".to_string(),
    });
    match &r.command {
        Command::CallOracle { key, request } => {
            assert_eq!(key.bytes, engine.signing_key.bytes);
            assert_eq!(request.messages.len(), 1);
            assert_eq!(request.messages[0].content, create_hint_prompt(&engine.secret));
        }
        _ => panic!("the cadence was hit: a hint request is owed"),
    }
    let r = engine.step(Outcome::OracleReply { content: "{\"hint\": \"it shifts\"}".to_string() });
    match &r.effects[0] {
        Effect::NotifyHint { hint } => assert_eq!(hint, "it shifts"),
        _ => panic!("the sink must hear the hint"),
    }
    // Exactly once: the page then checkpoints, no second hint call.
    assert!(matches!(r.command, Command::PersistCursor));
}

#[test]
fn no_hint_off_the_cadence() {
    // guess_count = 10, hint_wait_count = 4: 10 mod 4 != 0.
    let mut engine = booted_engine(4);
    engine.step(page(vec![new_guess_event(vec![4], "sponge", "1", "10", 50)], vec![0xbb], false));
    let r = engine.step(Outcome::OracleReply {
        content: "{\"is_correct\": false, \"explanation\": \"no\"}".to_string(),
    });
    assert!(matches!(r.command, Command::PersistCursor));
}

#[test]
fn rotation_replaces_the_whole_triple_and_advances_the_cursor() {
    // The first poll finds two events: a wrong guess and a rotation request.
    let mut engine = booted_engine(3);
    let old_key = engine.signing_key.bytes.clone();
    let r = engine.step(page(
        vec![
            new_guess_event(vec![1], "kaleidoscope", "100", "5", 1000),
            rotate_event("1", "42"),
        ],
        vec![0xcc, 0xdd],
        false,
    ));
    assert!(matches!(r.command, Command::CallOracle { .. }));
    let r = engine.step(Outcome::OracleReply {
        content: "{\"is_correct\": false, \"explanation\": \"close but no\"}".to_string(),
    });
    // No withdrawal, no hint (5 mod 3 != 0): straight to the rotation.
    assert!(matches!(r.command, Command::CallOracle { .. }));
    let r = engine.step(Outcome::OracleReply { content: "{\"secret\": \"palimpsest\"}".to_string() });
    match &r.command {
        Command::PublishCommitment { secret } => assert_eq!(secret, "palimpsest"),
        _ => panic!("the new secret's commitment must be published"),
    }
    // State is untouched until the commitment is published.
    assert_eq!(engine.secret, "kaleidoscope");
    let r = engine.step(Outcome::PublishDone);
    assert!(matches!(r.effects[0], Effect::Log(LogNote::RotationCompleted)));
    assert_eq!(engine.secret, "palimpsest");
    assert_eq!(engine.random_seed, 42);
    assert_ne!(engine.signing_key.bytes, old_key);
    // The page is drained: the checkpoint carries the page's position.
    assert!(matches!(r.command, Command::PersistCursor));
    assert_eq!(engine.cursor.as_ref().expect("the cursor advanced").bytes, vec![0xcc, 0xdd]);
}

#[test]
fn failed_rotation_leaves_state_untouched_and_is_escalated() {
    let mut engine = booted_engine(3);
    let old_key = engine.signing_key.bytes.clone();
    let old_seed = engine.random_seed;
    engine.step(page(vec![rotate_event("1", "42")], vec![0xee], false));
    let r = engine.step(Outcome::OracleReply { content: "no json here".to_string() });
    match &r.effects[0] {
        Effect::Log(note) => assert!(note.is_escalated()),
        _ => panic!("a failed rotation must be logged loudly"),
    }
    assert_eq!(engine.secret, "kaleidoscope");
    assert_eq!(engine.signing_key.bytes, old_key);
    assert_eq!(engine.random_seed, old_seed);
    // The event is still handled at the page level: the page checkpoints.
    assert!(matches!(r.command, Command::PersistCursor));
}

#[test]
fn failure_on_the_last_event_does_not_block_the_checkpoint() {
    // A page of two guesses where the second one's evaluation fails: the
    // cursor still advances past both.
    let mut engine = booted_engine(3);
    engine.step(page(
        vec![
            new_guess_event(vec![1], "sponge", "1", "7", 50),
            new_guess_event(vec![2], "anvil", "1", "8", 50),
        ],
        vec![0x11, 0x22],
        false,
    ));
    engine.step(Outcome::OracleReply {
        content: "{\"is_correct\": false, \"explanation\": \"no\"}".to_string(),
    });
    let r = engine.step(Outcome::OracleFailed);
    assert!(matches!(r.effects[0], Effect::Log(LogNote::GuessEvaluationFailed)));
    assert!(matches!(r.command, Command::PersistCursor));
    assert_eq!(engine.cursor.as_ref().expect("the cursor advanced").bytes, vec![0x11, 0x22]);
}

#[test]
fn unknown_and_malformed_events_are_skipped_not_fatal() {
    let mut engine = booted_engine(3);
    let unknown = RawEvent {
        kind_name: "SomeFutureEvent".to_string(),
        sender: Address { bytes: vec![7] },
        payload: obj(vec![]),
    };
    let malformed = RawEvent {
        kind_name: "NewGuessEvent".to_string(),
        sender: Address { bytes: vec![8] },
        payload: obj(vec![("guess", JsonField::Bool(true))]),
    };
    let r = engine.step(page(vec![unknown, malformed], vec![0x33], false));
    match &r.effects[0] {
        Effect::Log(LogNote::UnknownEventSkipped { kind_name }) => {
            assert_eq!(kind_name, "SomeFutureEvent")
        }
        _ => panic!("an unknown kind is logged and skipped"),
    }
    match &r.effects[1] {
        Effect::Log(LogNote::MalformedEventSkipped { kind_name }) => {
            assert_eq!(kind_name, "NewGuessEvent")
        }
        _ => panic!("a malformed record is logged and skipped"),
    }
    assert!(matches!(r.command, Command::PersistCursor));
}

#[test]
fn fetch_failure_retries_at_the_same_cursor() {
    let mut engine = booted_engine(3);
    let before = engine.cursor.is_none();
    let r = engine.step(Outcome::FetchFailed);
    assert!(before && engine.cursor.is_none());
    assert!(matches!(r.effects[0], Effect::Log(LogNote::PageFetchFailed)));
    assert!(matches!(r.command, Command::FetchPage));
}

#[test]
fn pages_with_more_data_fetch_on_without_a_checkpoint() {
    let mut engine = booted_engine(3);
    let r = engine.step(page(vec![], vec![0x44], true));
    assert!(matches!(r.command, Command::FetchPage));
    let r = engine.step(page(vec![], vec![0x55], false));
    assert!(matches!(r.command, Command::PersistCursor));
    let r = engine.step(Outcome::Done);
    assert!(matches!(r.command, Command::Sleep));
    let r = engine.step(Outcome::Done);
    assert!(matches!(r.command, Command::FetchPage));
}

#[test]
fn shutdown_flushes_the_cursor_and_halts() {
    let mut engine = booted_engine(3);
    engine.step(page(vec![], vec![0x66], false));
    engine.step(Outcome::Done);
    engine.step(Outcome::Done);
    let r = engine.step(Outcome::ShutdownRequested);
    assert!(matches!(r.command, Command::PersistCursor));
    let r = engine.step(Outcome::Done);
    assert!(matches!(r.command, Command::Halt));
}

#[test]
fn a_failing_cursor_store_is_fatal() {
    let mut engine = booted_engine(3);
    engine.step(page(vec![], vec![0x77], false));
    let r = engine.step(Outcome::PersistFailed);
    assert!(matches!(r.effects[0], Effect::Log(LogNote::CursorPersistFailed)));
    assert!(matches!(r.command, Command::Halt));
}

#[test]
fn signal_noise_is_a_missed_signal_not_a_shutdown() {
    let mut engine = booted_engine(3);
    let r = engine.step(Outcome::SignalError);
    assert!(matches!(r.effects[0], Effect::Log(LogNote::ShutdownSignalError)));
    assert!(matches!(r.command, Command::FetchPage));
}

#[test]
fn malformed_oracle_hint_is_logged_and_lost() {
    let mut engine = booted_engine(5);
    engine.step(page(vec![new_guess_event(vec![4], "sponge", "1", "10", 50)], vec![0x88], false));
    engine.step(Outcome::OracleReply {
        content: "{\"is_correct\": false, \"explanation\": \"no\"}".to_string(),
    });
    let r = engine.step(Outcome::OracleReply { content: "{\"nonsense\": 1}".to_string() });
    assert!(matches!(r.effects[0], Effect::Log(LogNote::HintFailed)));
    assert!(matches!(r.command, Command::PersistCursor));
}

#[test]
fn withdrawal_failure_drops_the_hint_and_moves_on() {
    let mut engine = booted_engine(5);
    engine.step(page(vec![new_guess_event(vec![4], "kaleidoscope", "1", "10", 50)], vec![0x99], false));
    engine.step(Outcome::OracleReply {
        content: "{\"is_correct\": true, \"explanation\": \"yes\"}".to_string(),
    });
    let r = engine.step(Outcome::WithdrawFailed);
    assert!(matches!(r.effects[0], Effect::Log(LogNote::WithdrawalFailed)));
    assert!(matches!(r.command, Command::PersistCursor));
}
