//! The top-level type detector: classification by discriminator alone, and
//! the generic decode entry point.
use rtdlib::AuthorizationState;
use rtdlib::DecodeError;
use rtdlib::RObject;
use rtdlib::TdCategory;
use rtdlib::TdType;
use rtdlib::Update;
use rtdlib::detect_td_type;
use rtdlib::detect_td_type_and_extra;
use rtdlib::decode_generic;

const UPDATE_EXAMPLE: &str = r#"{"@type": "updateAuthorizationState", "@extra": "abc-123", "authorization_state": {"@type": "authorizationStateWaitPhoneNumber"}}"#;

#[test]
fn update_is_classified_as_update() {
    let cat = detect_td_type(UPDATE_EXAMPLE).unwrap();
    assert_eq!(cat, TdCategory::Update);
}

#[test]
fn full_decode_of_update_reaches_the_nested_alternative() {
    match decode_generic(UPDATE_EXAMPLE).unwrap() {
        TdType::Update(Update::AuthorizationState(upd)) => {
            assert!(upd.authorization_state().is_wait_phone_number());
            assert_eq!(upd.extra(), Some("abc-123".to_string()));
        },
        other => panic!("expected an update, got {:?}", other),
    }
}

#[test]
fn detector_extracts_the_token_without_full_decode() {
    let (cat, extra) = detect_td_type_and_extra(UPDATE_EXAMPLE).unwrap();
    assert_eq!(cat, TdCategory::Update);
    assert_eq!(extra, Some("abc-123".to_string()));

    let (cat, extra) =
        detect_td_type_and_extra(r#"{"@type":"authorizationStateReady"}"#).unwrap();
    assert_eq!(cat, TdCategory::AuthorizationState);
    assert_eq!(extra, None);
}

#[test]
fn detector_classifies_errors_and_plain_types() {
    let json = r#"{"@type":"error","code":404,"message":"not found"}"#;
    assert_eq!(detect_td_type(json).unwrap(), TdCategory::Error);
    match decode_generic(json).unwrap() {
        TdType::Error(e) => {
            assert_eq!(e.code(), 404);
            assert_eq!(e.message(), "not found");
        },
        other => panic!("expected an error value, got {:?}", other),
    }
    let json = r#"{"@type":"authorizationStateClosed"}"#;
    assert_eq!(detect_td_type(json).unwrap(), TdCategory::AuthorizationState);
    match decode_generic(json).unwrap() {
        TdType::AuthorizationState(s) => assert!(s.is_closed()),
        other => panic!("expected an authorization state, got {:?}", other),
    }
}

#[test]
fn detector_rejects_unknown_and_malformed() {
    match detect_td_type(r#"{"@type":"totallyUnknownType123"}"#) {
        Err(DecodeError::UnrecognizedVariant(tag)) => assert_eq!(tag, "totallyUnknownType123"),
        other => panic!("{:?}", other),
    }
    match detect_td_type("") {
        Err(DecodeError::Malformed) => {},
        other => panic!("{:?}", other),
    }
    match detect_td_type(r#"{"no_tag": true}"#) {
        Err(DecodeError::Malformed) => {},
        other => panic!("{:?}", other),
    }
    match decode_generic(r#"{"@type":"totallyUnknownType123"}"#) {
        Err(DecodeError::UnrecognizedVariant(_)) => {},
        other => panic!("{:?}", other),
    }
}

#[test]
fn update_round_trips_through_wire_text() {
    let inner = AuthorizationState::from_json(r#"{"@type":"authorizationStateWaitPhoneNumber"}"#)
        .unwrap();
    let mut b = rtdlib::UpdateAuthorizationState::builder();
    b.authorization_state(inner);
    let v = b.build();
    let text = v.to_json().unwrap();
    let w = rtdlib::UpdateAuthorizationState::from_json(&text).unwrap();
    assert_eq!(v, w);
}
