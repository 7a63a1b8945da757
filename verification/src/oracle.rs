//! Requests to, and replies from, the confidential inference oracle.
//!
//! The engine talks to the oracle over an encrypted session keyed by an
//! ephemeral signing key. This module builds the request values — model,
//! messages and seed, pinned to the character — and reads the oracle's
//! strict-JSON replies. The replies are parsed by an outside JSON library
//! behind trusted wrappers; everything the engine decides from a reply is
//! then a verified function of the parsed value.

use vstd::prelude::*;

use crate::cursor::copy_bytes;
use crate::prompts::check_guess_prompt;
use crate::prompts::check_guess_system_prompt_spec;
use crate::prompts::check_guess_user_prompt_spec;
use crate::prompts::create_hint_prompt;
use crate::prompts::create_hint_prompt_spec;
use crate::prompts::create_secret_prompt;
use crate::prompts::create_secret_prompt_spec;

verus! {

/// An ephemeral private key for the oracle's encrypted transport.
pub struct SigningKey {
    pub bytes: Vec<u8>,
}

impl SigningKey {
    /// A signing key is exactly 32 bytes.
    pub open spec fn wf(self) -> bool {
        self.bytes@.len() == 32
    }

    /// A copy of this key, byte for byte.
    pub fn duplicate(&self) -> (r: SigningKey)
        ensures
            r.bytes@ == self.bytes@,
    {
        SigningKey { bytes: copy_bytes(&self.bytes) }
    }
}

/// Relies on `x25519_dalek::StaticSecret::random_from_rng` with
/// `rand::thread_rng`: a fresh 32-byte private key drawn from the thread's
/// cryptographically secure generator. The draw is random, so nothing is
/// promised of the bytes beyond their count.
#[verifier::external_body]
pub fn fresh_signing_key() -> (r: SigningKey)
    ensures
        r.wf(),
{
    let secret = x25519_dalek::StaticSecret::random_from_rng(rand::thread_rng());
    SigningKey { bytes: secret.to_bytes().to_vec() }
}

/// Relies on `rand::random`: a seed drawn from the thread's generator.
/// Nothing can be promised of a random value.
#[verifier::external_body]
pub fn fresh_seed() -> u64 {
    rand::random()
}

/// One chat message of an inference request.
pub struct ChatMessage {
    pub role: String,
    pub content: String,
}

/// A confidential chat-completion request: the model to run, the messages to
/// send, and the seed the oracle must use.
pub struct InferenceRequest {
    pub model: String,
    pub messages: Vec<ChatMessage>,
    pub seed: u64,
}

/// The oracle's answer to a guess check.
pub struct GuessVerdict {
    /// Whether the guess names the secret, exactly or semantically.
    pub is_correct: bool,
    /// The oracle's reasons.
    pub explanation: String,
}

/// The request that checks one guess against the live secret: the fixed role
/// instruction, then the question naming both.
pub fn check_guess_request(model: &str, seed: u64, guess: &str, secret: &str) -> (r:
    InferenceRequest)
    ensures
        r.model@ == model@,
        r.seed == seed,
        r.messages@.len() == 2,
        r.messages@[0].role@ == "system"@,
        r.messages@[0].content@ == check_guess_system_prompt_spec(),
        r.messages@[1].role@ == "user"@,
        r.messages@[1].content@ == check_guess_user_prompt_spec(guess@, secret@),
{
    let prompts = check_guess_prompt(guess, secret);
    let mut messages: Vec<ChatMessage> = Vec::new();
    messages.push(ChatMessage { role: String::from_str("system"), content: prompts.0 });
    messages.push(ChatMessage { role: String::from_str("user"), content: prompts.1 });
    InferenceRequest { model: model.to_owned(), messages, seed }
}

/// The request that asks the oracle for a fresh secret.
pub fn secret_request(model: &str, seed: u64) -> (r: InferenceRequest)
    ensures
        r.model@ == model@,
        r.seed == seed,
        r.messages@.len() == 1,
        r.messages@[0].role@ == "system"@,
        r.messages@[0].content@ == create_secret_prompt_spec(),
{
    let mut messages: Vec<ChatMessage> = Vec::new();
    messages.push(ChatMessage { role: String::from_str("system"), content: create_secret_prompt() });
    InferenceRequest { model: model.to_owned(), messages, seed }
}

/// The request that asks the oracle for a hint about the live secret.
pub fn hint_request(model: &str, seed: u64, secret: &str) -> (r: InferenceRequest)
    ensures
        r.model@ == model@,
        r.seed == seed,
        r.messages@.len() == 1,
        r.messages@[0].role@ == "system"@,
        r.messages@[0].content@ == create_hint_prompt_spec(secret@),
{
    let mut messages: Vec<ChatMessage> = Vec::new();
    messages.push(
        ChatMessage { role: String::from_str("system"), content: create_hint_prompt(secret) },
    );
    InferenceRequest { model: model.to_owned(), messages, seed }
}

/// What the oracle's guess answer holds, when it is a strict-JSON record
/// with an `is_correct` boolean and an `explanation` string. The answer is a
/// function of the text alone; this name stands for it.
pub uninterp spec fn guess_verdict_of(s: Seq<char>) -> Option<(bool, Seq<char>)>;

/// Relies on `serde_json::from_str` and `serde_json::Value`'s `get`,
/// `as_bool` and `as_str`: reads the oracle's guess answer. `guess_verdict_of`
/// names the outcome.
#[verifier::external_body]
pub fn parse_guess_response(s: &str) -> (r: Option<GuessVerdict>)
    ensures
        match guess_verdict_of(s@) {
            Some(v) => r matches Some(g) && g.is_correct == v.0 && g.explanation@ == v.1,
            None => r is None,
        },
{
    let value: serde_json::Value = match serde_json::from_str(s) {
        Ok(v) => v,
        Err(_) => return None,
    };
    let is_correct = match value.get("is_correct").and_then(|f| f.as_bool()) {
        Some(b) => b,
        None => return None,
    };
    let explanation = match value.get("explanation").and_then(|f| f.as_str()) {
        Some(t) => t.to_string(),
        None => return None,
    };
    Some(GuessVerdict { is_correct, explanation })
}

/// What the oracle's secret answer holds, when it is a strict-JSON record
/// with a `secret` string. A function of the text alone; this name stands
/// for it.
pub uninterp spec fn secret_of_response(s: Seq<char>) -> Option<Seq<char>>;

/// Relies on `serde_json::from_str` and `serde_json::Value`'s `get` and
/// `as_str`: reads the oracle's secret answer. `secret_of_response` names
/// the outcome.
#[verifier::external_body]
pub fn parse_secret_response(s: &str) -> (r: Option<String>)
    ensures
        match secret_of_response(s@) {
            Some(t) => r matches Some(x) && x@ == t,
            None => r is None,
        },
{
    let value: serde_json::Value = match serde_json::from_str(s) {
        Ok(v) => v,
        Err(_) => return None,
    };
    value.get("secret").and_then(|f| f.as_str()).map(|t| t.to_string())
}

/// What the oracle's hint answer holds, when it is a strict-JSON record with
/// a `hint` string. A function of the text alone; this name stands for it.
pub uninterp spec fn hint_of_response(s: Seq<char>) -> Option<Seq<char>>;

/// Relies on `serde_json::from_str` and `serde_json::Value`'s `get` and
/// `as_str`: reads the oracle's hint answer. `hint_of_response` names the
/// outcome.
#[verifier::external_body]
pub fn parse_hint_response(s: &str) -> (r: Option<String>)
    ensures
        match hint_of_response(s@) {
            Some(t) => r matches Some(x) && x@ == t,
            None => r is None,
        },
{
    let value: serde_json::Value = match serde_json::from_str(s) {
        Ok(v) => v,
        Err(_) => return None,
    };
    value.get("hint").and_then(|f| f.as_str()).map(|t| t.to_string())
}

} // verus!
