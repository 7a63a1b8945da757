//! The control engine for an on-chain guessing game.
//!
//! A ledger emits game events — guesses, rotation requests, attestation
//! resubmissions. The engine consumes them in order: it keeps a durable
//! cursor over the ledger's history, decodes each raw event into a typed
//! one, asks a confidential inference oracle to judge guesses and to mint
//! secrets and hints, pays the treasury prize out on a correct guess, and
//! checkpoints the cursor once a page is fully handled.
//!
//! The engine itself performs no I/O: it is a state machine that hands out
//! commands and consumes their outcomes (see [`GuessAiEngine::step`]), so
//! all of its rules — atomic secret rotation, payout and hint cadence,
//! checkpoint-after-processing — are stated in contracts and verified.

mod cursor;
mod engine;
mod errors;
mod events;
mod json;
mod oracle;
mod prompts;

pub use cursor::Cursor;
pub use cursor::cursor_file_bytes;
pub use cursor::hex_decode;
pub use cursor::hex_encode;
pub use cursor::lemma_cursor_round_trip;
pub use cursor::read_cursor;
pub use engine::Address;
pub use engine::Command;
pub use engine::Effect;
pub use engine::GuessAiEngine;
pub use engine::GuessWork;
pub use engine::LogNote;
pub use engine::Outcome;
pub use engine::PageWork;
pub use engine::PendingRotation;
pub use engine::Phase;
pub use engine::RawEvent;
pub use engine::StepResult;
pub use errors::SuiEventSubscriberError;
pub use events::NewGuessEvent;
pub use events::PublishEvent;
pub use events::RotateTdxQuoteEvent;
pub use events::SecretGuessingEvent;
pub use events::SecretGuessingEventIdentifier;
pub use events::TDXQuoteResubmittedEvent;
pub use events::parse_event;
pub use json::JsonField;
pub use json::JsonObject;
pub use json::parse_u64;
pub use oracle::ChatMessage;
pub use oracle::GuessVerdict;
pub use oracle::InferenceRequest;
pub use oracle::SigningKey;
pub use oracle::check_guess_request;
pub use oracle::fresh_seed;
pub use oracle::fresh_signing_key;
pub use oracle::hint_request;
pub use oracle::parse_guess_response;
pub use oracle::parse_hint_response;
pub use oracle::parse_secret_response;
pub use oracle::secret_request;
pub use prompts::check_guess_prompt;
pub use prompts::create_hint_prompt;
pub use prompts::create_secret_prompt;
pub use prompts::interact_with_social_media_prompt;
