//! The typed events of the secret-guessing contract, and their decoder.
//!
//! The ledger delivers raw events as a type name plus an untyped record.
//! `SecretGuessingEventIdentifier::from_str` maps the name to a known kind;
//! `parse_event` turns the record into the matching typed event or rejects
//! it. Numeric fields other than the treasury balance arrive as decimal
//! strings and are converted explicitly. An unknown name or a malformed
//! record is an error value, never a panic: the caller skips such events.

use vstd::prelude::*;

use crate::errors::SuiEventSubscriberError;
use crate::json::JsonField;
use crate::json::JsonObject;
use crate::json::lookup_field;
use crate::json::parse_u64;
use crate::json::parse_u64_spec;
use crate::json::str_eq;

verus! {

/// The known event kinds of the secret-guessing contract.
#[derive(Clone, Copy, PartialEq, Eq, Structural, Debug)]
pub enum SecretGuessingEventIdentifier {
    PublishEvent,
    NewGuessEvent,
    RotateTdxQuoteEvent,
    TDXQuoteResubmittedEvent,
}

/// Emitted once when the contract is published. Informational only.
#[derive(Debug)]
pub struct PublishEvent {
    /// The shared object underlying the contract.
    pub id: String,
    /// The manager that published it.
    pub manager_id: String,
}

/// Emitted when a player submits a guess.
pub struct NewGuessEvent {
    /// The fee paid for the guess.
    pub fee: u64,
    /// The guessed word or phrase.
    pub guess: String,
    /// How many guesses have been made so far.
    pub guess_count: u64,
    /// The treasury pool balance at the time of the guess.
    pub treasury_pool_balance: u64,
}

/// Emitted when the attestation quote rotates; triggers a secret rotation.
pub struct RotateTdxQuoteEvent {
    /// The epoch of the rotation.
    pub epoch: u64,
    /// The seed to use for inference requests from now on.
    pub random_seed: u64,
}

/// Emitted when an attestation quote is resubmitted. Informational only.
#[derive(Debug)]
pub struct TDXQuoteResubmittedEvent {
    /// The epoch of the resubmission.
    pub epoch: u64,
    /// The resubmitted quote.
    pub tdx_quote_v4: Vec<u8>,
    /// The submitter's public key, for shared-secret encryption.
    pub public_key_bytes: Vec<u8>,
}

/// A decoded contract event.
pub enum SecretGuessingEvent {
    PublishEvent(PublishEvent),
    NewGuessEvent(NewGuessEvent),
    RotateTdxQuoteEvent(RotateTdxQuoteEvent),
    TDXQuoteResubmittedEvent(TDXQuoteResubmittedEvent),
}

/// The kind a type name stands for, if it is a known one.
pub open spec fn identify_spec(s: Seq<char>) -> Option<SecretGuessingEventIdentifier> {
    if s == "PublishEvent"@ {
        Some(SecretGuessingEventIdentifier::PublishEvent)
    } else if s == "NewGuessEvent"@ {
        Some(SecretGuessingEventIdentifier::NewGuessEvent)
    } else if s == "RotateTdxQuoteEvent"@ {
        Some(SecretGuessingEventIdentifier::RotateTdxQuoteEvent)
    } else if s == "TDXQuoteResubmittedEvent"@ {
        Some(SecretGuessingEventIdentifier::TDXQuoteResubmittedEvent)
    } else {
        None
    }
}

impl SecretGuessingEventIdentifier {
    /// Maps an event type name to its kind; any other name is rejected with
    /// the name it could not place.
    pub fn from_str(s: &str) -> (r: Result<
        SecretGuessingEventIdentifier,
        SuiEventSubscriberError,
    >)
        ensures
            match identify_spec(s@) {
                Some(k) => r matches Ok(k2) && k2 == k,
                None => r matches Err(e) && e matches SuiEventSubscriberError::InvalidEvent(t)
                    && t@ == s@,
            },
    {
        if str_eq(s, "PublishEvent") {
            Ok(SecretGuessingEventIdentifier::PublishEvent)
        } else if str_eq(s, "NewGuessEvent") {
            Ok(SecretGuessingEventIdentifier::NewGuessEvent)
        } else if str_eq(s, "RotateTdxQuoteEvent") {
            Ok(SecretGuessingEventIdentifier::RotateTdxQuoteEvent)
        } else if str_eq(s, "TDXQuoteResubmittedEvent") {
            Ok(SecretGuessingEventIdentifier::TDXQuoteResubmittedEvent)
        } else {
            Err(SuiEventSubscriberError::InvalidEvent(s.to_owned()))
        }
    }
}

/// Whether every element fits in a byte.
pub open spec fn all_bytes(xs: Seq<u64>) -> bool {
    forall|i: int| 0 <= i < xs.len() ==> xs[i] < 256
}

/// The elements narrowed to bytes.
pub open spec fn as_bytes(xs: Seq<u64>) -> Seq<u8> {
    xs.map_values(|x: u64| x as u8)
}

/// What a well-formed `PublishEvent` record holds: its two string fields.
pub open spec fn decode_publish_spec(fields: Seq<(String, JsonField)>) -> Option<
    (Seq<char>, Seq<char>),
> {
    match (lookup_field(fields, "id"@), lookup_field(fields, "manager_id"@)) {
        (Some(JsonField::Str(id)), Some(JsonField::Str(manager))) => Some((id@, manager@)),
        _ => None,
    }
}

/// What a well-formed `NewGuessEvent` record holds: fee, guess, guess count
/// and treasury balance, the fee and count read from decimal strings.
pub open spec fn decode_new_guess_spec(fields: Seq<(String, JsonField)>) -> Option<
    (u64, Seq<char>, u64, u64),
> {
    match (lookup_field(fields, "fee"@), lookup_field(fields, "guess"@), lookup_field(
        fields,
        "guess_count"@,
    ), lookup_field(fields, "treasury_pool_balance"@)) {
        (
            Some(JsonField::Str(fee)),
            Some(JsonField::Str(guess)),
            Some(JsonField::Str(count)),
            Some(JsonField::UInt(balance)),
        ) => match (parse_u64_spec(fee@), parse_u64_spec(count@)) {
            (Some(fee_v), Some(count_v)) => Some((fee_v, guess@, count_v, balance)),
            _ => None,
        },
        _ => None,
    }
}

/// What a well-formed `RotateTdxQuoteEvent` record holds: epoch and seed,
/// both read from decimal strings.
pub open spec fn decode_rotate_spec(fields: Seq<(String, JsonField)>) -> Option<(u64, u64)> {
    match (lookup_field(fields, "epoch"@), lookup_field(fields, "random_seed"@)) {
        (Some(JsonField::Str(epoch)), Some(JsonField::Str(seed))) => match (
            parse_u64_spec(epoch@),
            parse_u64_spec(seed@),
        ) {
            (Some(epoch_v), Some(seed_v)) => Some((epoch_v, seed_v)),
            _ => None,
        },
        _ => None,
    }
}

/// What a well-formed `TDXQuoteResubmittedEvent` record holds: a numeric
/// epoch and two byte arrays.
pub open spec fn decode_resubmit_spec(fields: Seq<(String, JsonField)>) -> Option<
    (u64, Seq<u8>, Seq<u8>),
> {
    match (lookup_field(fields, "epoch"@), lookup_field(fields, "tdx_quote_v4"@), lookup_field(
        fields,
        "public_key_bytes"@,
    )) {
        (
            Some(JsonField::UInt(epoch)),
            Some(JsonField::UIntArray(quote)),
            Some(JsonField::UIntArray(key)),
        ) => if all_bytes(quote@) && all_bytes(key@) {
            Some((epoch, as_bytes(quote@), as_bytes(key@)))
        } else {
            None
        },
        _ => None,
    }
}

/// Narrows an array of numbers to bytes, rejecting any element over 255.
fn narrow_to_bytes(xs: &Vec<u64>) -> (r: Option<Vec<u8>>)
    ensures
        match r {
            Some(bs) => all_bytes(xs@) && bs@ == as_bytes(xs@),
            None => !all_bytes(xs@),
        },
{
    let mut r: Vec<u8> = Vec::new();
    let n = xs.len();
    let mut i: usize = 0;
    while i < n
        invariant
            n == xs@.len(),
            i <= n,
            forall|j: int| 0 <= j < i ==> xs@[j] < 256,
            r@ == as_bytes(xs@.take(i as int)),
        decreases n - i,
    {
        if xs[i] > 255 {
            return None;
        }
        r.push(xs[i] as u8);
        proof {
            assert(as_bytes(xs@.take(i as int + 1)) =~= as_bytes(xs@.take(i as int)).push(
                (xs@[i as int] as u8),
            ));
        }
        i += 1;
    }
    proof {
        assert(xs@.take(n as int) =~= xs@);
        assert(r@ =~= as_bytes(xs@));
    }
    Some(r)
}

/// Decodes a raw record into the typed event its kind demands, or rejects
/// it. Total: for every kind, a record of the right shape decodes to the
/// matching variant with every field preserved and the decimal strings
/// converted; any other record yields `DeserializeError`.
pub fn parse_event(kind: SecretGuessingEventIdentifier, payload: &JsonObject) -> (r: Result<
    SecretGuessingEvent,
    SuiEventSubscriberError,
>)
    ensures
        match kind {
            SecretGuessingEventIdentifier::PublishEvent => match decode_publish_spec(payload@) {
                Some(p) => r matches Ok(SecretGuessingEvent::PublishEvent(e)) && e.id@ == p.0
                    && e.manager_id@ == p.1,
                None => r matches Err(e) && e == SuiEventSubscriberError::DeserializeError,
            },
            SecretGuessingEventIdentifier::NewGuessEvent => match decode_new_guess_spec(payload@) {
                Some(p) => r matches Ok(SecretGuessingEvent::NewGuessEvent(e)) && e.fee == p.0
                    && e.guess@ == p.1 && e.guess_count == p.2 && e.treasury_pool_balance == p.3,
                None => r matches Err(e) && e == SuiEventSubscriberError::DeserializeError,
            },
            SecretGuessingEventIdentifier::RotateTdxQuoteEvent => match decode_rotate_spec(
                payload@,
            ) {
                Some(p) => r matches Ok(SecretGuessingEvent::RotateTdxQuoteEvent(e)) && e.epoch
                    == p.0 && e.random_seed == p.1,
                None => r matches Err(e) && e == SuiEventSubscriberError::DeserializeError,
            },
            SecretGuessingEventIdentifier::TDXQuoteResubmittedEvent => match decode_resubmit_spec(
                payload@,
            ) {
                Some(p) => r matches Ok(SecretGuessingEvent::TDXQuoteResubmittedEvent(e)) && e.epoch
                    == p.0 && e.tdx_quote_v4@ == p.1 && e.public_key_bytes@ == p.2,
                None => r matches Err(e) && e == SuiEventSubscriberError::DeserializeError,
            },
        },
{
    match kind {
        SecretGuessingEventIdentifier::PublishEvent => {
            let id = payload.get_field("id");
            let manager = payload.get_field("manager_id");
            match (id, manager) {
                (Some(JsonField::Str(id)), Some(JsonField::Str(manager))) => Ok(
                    SecretGuessingEvent::PublishEvent(
                        PublishEvent { id: id.clone(), manager_id: manager.clone() },
                    ),
                ),
                _ => Err(SuiEventSubscriberError::DeserializeError),
            }
        },
        SecretGuessingEventIdentifier::NewGuessEvent => {
            let fee = payload.get_field("fee");
            let guess = payload.get_field("guess");
            let count = payload.get_field("guess_count");
            let balance = payload.get_field("treasury_pool_balance");
            match (fee, guess, count, balance) {
                (
                    Some(JsonField::Str(fee)),
                    Some(JsonField::Str(guess)),
                    Some(JsonField::Str(count)),
                    Some(JsonField::UInt(balance)),
                ) => match (parse_u64(fee.as_str()), parse_u64(count.as_str())) {
                    (Some(fee_v), Some(count_v)) => Ok(
                        SecretGuessingEvent::NewGuessEvent(
                            NewGuessEvent {
                                fee: fee_v,
                                guess: guess.clone(),
                                guess_count: count_v,
                                treasury_pool_balance: *balance,
                            },
                        ),
                    ),
                    _ => Err(SuiEventSubscriberError::DeserializeError),
                },
                _ => Err(SuiEventSubscriberError::DeserializeError),
            }
        },
        SecretGuessingEventIdentifier::RotateTdxQuoteEvent => {
            let epoch = payload.get_field("epoch");
            let seed = payload.get_field("random_seed");
            match (epoch, seed) {
                (Some(JsonField::Str(epoch)), Some(JsonField::Str(seed))) => match (
                    parse_u64(epoch.as_str()),
                    parse_u64(seed.as_str()),
                ) {
                    (Some(epoch_v), Some(seed_v)) => Ok(
                        SecretGuessingEvent::RotateTdxQuoteEvent(
                            RotateTdxQuoteEvent { epoch: epoch_v, random_seed: seed_v },
                        ),
                    ),
                    _ => Err(SuiEventSubscriberError::DeserializeError),
                },
                _ => Err(SuiEventSubscriberError::DeserializeError),
            }
        },
        SecretGuessingEventIdentifier::TDXQuoteResubmittedEvent => {
            let epoch = payload.get_field("epoch");
            let quote = payload.get_field("tdx_quote_v4");
            let key = payload.get_field("public_key_bytes");
            match (epoch, quote, key) {
                (
                    Some(JsonField::UInt(epoch)),
                    Some(JsonField::UIntArray(quote)),
                    Some(JsonField::UIntArray(key)),
                ) => match (narrow_to_bytes(quote), narrow_to_bytes(key)) {
                    (Some(quote_bytes), Some(key_bytes)) => Ok(
                        SecretGuessingEvent::TDXQuoteResubmittedEvent(
                            TDXQuoteResubmittedEvent {
                                epoch: *epoch,
                                tdx_quote_v4: quote_bytes,
                                public_key_bytes: key_bytes,
                            },
                        ),
                    ),
                    _ => Err(SuiEventSubscriberError::DeserializeError),
                },
                _ => Err(SuiEventSubscriberError::DeserializeError),
            }
        },
    }
}

} // verus!
