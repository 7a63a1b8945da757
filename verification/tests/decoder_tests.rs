use secret_guessing::JsonField;
use secret_guessing::JsonObject;
use secret_guessing::SecretGuessingEvent;
use secret_guessing::SecretGuessingEventIdentifier;
use secret_guessing::SuiEventSubscriberError;
use secret_guessing::parse_event;
use secret_guessing::parse_u64;

fn obj(fields: Vec<(&str, JsonField)>) -> JsonObject {
    JsonObject { fields: fields.into_iter().map(|(k, v)| (k.to_string(), v)).collect() }
}

#[test]
fn known_kind_names_identify() {
    assert_eq!(
        SecretGuessingEventIdentifier::from_str("PublishEvent").unwrap(),
        SecretGuessingEventIdentifier::PublishEvent
    );
    assert_eq!(
        SecretGuessingEventIdentifier::from_str("NewGuessEvent").unwrap(),
        SecretGuessingEventIdentifier::NewGuessEvent
    );
    assert_eq!(
        SecretGuessingEventIdentifier::from_str("RotateTdxQuoteEvent").unwrap(),
        SecretGuessingEventIdentifier::RotateTdxQuoteEvent
    );
    assert_eq!(
        SecretGuessingEventIdentifier::from_str("TDXQuoteResubmittedEvent").unwrap(),
        SecretGuessingEventIdentifier::TDXQuoteResubmittedEvent
    );
}

#[test]
fn unknown_kind_name_is_rejected_with_the_name() {
    let r = SecretGuessingEventIdentifier::from_str("SomeFutureEvent");
    match r {
        Err(SuiEventSubscriberError::InvalidEvent(name)) => assert_eq!(name, "SomeFutureEvent"),
        _ => panic!("an unknown name must be rejected"),
    }
}

#[test]
fn well_formed_publish_event_decodes() {
    let payload = obj(vec![
        ("id", JsonField::Str("0x1".to_string())),
        ("manager_id", JsonField::Str("0x2".to_string())),
    ]);
    match parse_event(SecretGuessingEventIdentifier::PublishEvent, &payload) {
        Ok(SecretGuessingEvent::PublishEvent(e)) => {
            assert_eq!(e.id, "0x1");
            assert_eq!(e.manager_id, "0x2");
        }
        _ => panic!("a well-formed publish record must decode"),
    }
}

#[test]
fn well_formed_new_guess_event_decodes_with_numeric_strings_converted() {
    let payload = obj(vec![
        ("fee", JsonField::Str("100".to_string())),
        ("guess", JsonField::Str("kaleidoscope".to_string())),
        ("guess_count", JsonField::Str("5".to_string())),
        ("treasury_pool_balance", JsonField::UInt(1000)),
    ]);
    match parse_event(SecretGuessingEventIdentifier::NewGuessEvent, &payload) {
        Ok(SecretGuessingEvent::NewGuessEvent(e)) => {
            assert_eq!(e.fee, 100u64);
            assert_eq!(e.guess, "kaleidoscope");
            assert_eq!(e.guess_count, 5u64);
            assert_eq!(e.treasury_pool_balance, 1000u64);
        }
        _ => panic!("a well-formed guess record must decode"),
    }
}

#[test]
fn well_formed_rotate_event_decodes() {
    let payload = obj(vec![
        ("epoch", JsonField::Str("1".to_string())),
        ("random_seed", JsonField::Str("42".to_string())),
    ]);
    match parse_event(SecretGuessingEventIdentifier::RotateTdxQuoteEvent, &payload) {
        Ok(SecretGuessingEvent::RotateTdxQuoteEvent(e)) => {
            assert_eq!(e.epoch, 1u64);
            assert_eq!(e.random_seed, 42u64);
        }
        _ => panic!("a well-formed rotation record must decode"),
    }
}

#[test]
fn well_formed_resubmit_event_decodes_with_bytes_narrowed() {
    let payload = obj(vec![
        ("epoch", JsonField::UInt(7)),
        ("tdx_quote_v4", JsonField::UIntArray(vec![1, 2, 255])),
        ("public_key_bytes", JsonField::UIntArray(vec![0, 16])),
    ]);
    match parse_event(SecretGuessingEventIdentifier::TDXQuoteResubmittedEvent, &payload) {
        Ok(SecretGuessingEvent::TDXQuoteResubmittedEvent(e)) => {
            assert_eq!(e.epoch, 7u64);
            assert_eq!(e.tdx_quote_v4, vec![1u8, 2, 255]);
            assert_eq!(e.public_key_bytes, vec![0u8, 16]);
        }
        _ => panic!("a well-formed resubmission record must decode"),
    }
}

#[test]
fn missing_field_is_a_decode_error() {
    let payload = obj(vec![("guess", JsonField::Str("x".to_string()))]);
    let r = parse_event(SecretGuessingEventIdentifier::NewGuessEvent, &payload);
    assert!(matches!(r, Err(SuiEventSubscriberError::DeserializeError)));
}

#[test]
fn unparsable_numeric_string_is_a_decode_error() {
    let payload = obj(vec![
        ("fee", JsonField::Str("not-a-number".to_string())),
        ("guess", JsonField::Str("x".to_string())),
        ("guess_count", JsonField::Str("5".to_string())),
        ("treasury_pool_balance", JsonField::UInt(0)),
    ]);
    let r = parse_event(SecretGuessingEventIdentifier::NewGuessEvent, &payload);
    assert!(matches!(r, Err(SuiEventSubscriberError::DeserializeError)));
}

#[test]
fn wrong_field_shape_is_a_decode_error() {
    let payload = obj(vec![
        ("fee", JsonField::Str("1".to_string())),
        ("guess", JsonField::Str("x".to_string())),
        ("guess_count", JsonField::Str("5".to_string())),
        ("treasury_pool_balance", JsonField::Str("1000".to_string())),
    ]);
    let r = parse_event(SecretGuessingEventIdentifier::NewGuessEvent, &payload);
    assert!(matches!(r, Err(SuiEventSubscriberError::DeserializeError)));
}

#[test]
fn byte_array_element_over_255_is_a_decode_error() {
    let payload = obj(vec![
        ("epoch", JsonField::UInt(7)),
        ("tdx_quote_v4", JsonField::UIntArray(vec![256])),
        ("public_key_bytes", JsonField::UIntArray(vec![])),
    ]);
    let r = parse_event(SecretGuessingEventIdentifier::TDXQuoteResubmittedEvent, &payload);
    assert!(matches!(r, Err(SuiEventSubscriberError::DeserializeError)));
}

#[test]
fn extra_fields_are_tolerated() {
    let payload = obj(vec![
        ("something_else", JsonField::Bool(true)),
        ("epoch", JsonField::Str("1".to_string())),
        ("random_seed", JsonField::Str("42".to_string())),
    ]);
    assert!(parse_event(SecretGuessingEventIdentifier::RotateTdxQuoteEvent, &payload).is_ok());
}

#[test]
fn decimal_parsing_is_exact() {
    assert_eq!(parse_u64("0"), Some(0));
    assert_eq!(parse_u64("5"), Some(5));
    assert_eq!(parse_u64("007"), Some(7));
    assert_eq!(parse_u64("18446744073709551615"), Some(u64::MAX));
    assert_eq!(parse_u64("18446744073709551616"), None);
    assert_eq!(parse_u64(""), None);
    assert_eq!(parse_u64("12a"), None);
    assert_eq!(parse_u64("-1"), None);
}
