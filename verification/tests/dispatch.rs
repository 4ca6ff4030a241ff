//! The variant dispatcher: every known tag reaches its alternative, unknown
//! tags and malformed text fail loudly.
use rtdlib::AuthorizationState;
use rtdlib::ChatAction;
use rtdlib::DecodeError;
use rtdlib::MaskPoint;
use rtdlib::RObject;
use rtdlib::UserType;

#[test]
fn every_authorization_state_tag_dispatches() {
    let cases: Vec<(&str, &str)> = vec![
        ("authorizationStateClosed", r#"{"@type":"authorizationStateClosed"}"#),
        ("authorizationStateClosing", r#"{"@type":"authorizationStateClosing"}"#),
        ("authorizationStateLoggingOut", r#"{"@type":"authorizationStateLoggingOut"}"#),
        ("authorizationStateReady", r#"{"@type":"authorizationStateReady"}"#),
        ("authorizationStateWaitCode", r#"{"@type":"authorizationStateWaitCode"}"#),
        (
            "authorizationStateWaitEncryptionKey",
            r#"{"@type":"authorizationStateWaitEncryptionKey","is_encrypted":true}"#,
        ),
        (
            "authorizationStateWaitOtherDeviceConfirmation",
            r#"{"@type":"authorizationStateWaitOtherDeviceConfirmation","link":"tg://login"}"#,
        ),
        (
            "authorizationStateWaitPassword",
            r#"{"@type":"authorizationStateWaitPassword","password_hint":"h","has_recovery_email_address":true,"recovery_email_address_pattern":"a@b"}"#,
        ),
        ("authorizationStateWaitPhoneNumber", r#"{"@type":"authorizationStateWaitPhoneNumber"}"#),
        ("authorizationStateWaitRegistration", r#"{"@type":"authorizationStateWaitRegistration"}"#),
        (
            "authorizationStateWaitTdlibParameters",
            r#"{"@type":"authorizationStateWaitTdlibParameters"}"#,
        ),
    ];
    for (tag, json) in cases {
        let v = AuthorizationState::from_json(json).unwrap();
        // the decoded alternative is never the reserved default one
        assert!(!v._is_default());
        // and it carries exactly the tag that selected it
        assert_eq!(v.td_name(), tag);
    }
}

#[test]
fn dispatch_yields_the_matching_alternative() {
    let v = AuthorizationState::from_json(r#"{"@type":"authorizationStateReady"}"#).unwrap();
    assert!(v.is_ready());
    assert!(!v.is_closed());
    assert!(v.as_ready().is_some());
    assert!(v.as_closed().is_none());

    let m = MaskPoint::from_json(r#"{"@type":"maskPointChin"}"#).unwrap();
    assert!(m.is_chin());
    let m = MaskPoint::from_json(r#"{"@type":"maskPointEyes"}"#).unwrap();
    assert!(m.is_eyes());
    let m = MaskPoint::from_json(r#"{"@type":"maskPointForehead"}"#).unwrap();
    assert!(m.is_forehead());
    let m = MaskPoint::from_json(r#"{"@type":"maskPointMouth"}"#).unwrap();
    assert!(m.is_mouth());

    let u = UserType::from_json(
        r#"{"@type":"userTypeBot","can_join_groups":true,"can_read_all_group_messages":false,"is_inline":false,"inline_query_placeholder":"","need_location":false}"#,
    )
    .unwrap();
    assert!(u.is_bot());
}

#[test]
fn unknown_tag_is_unrecognized_variant() {
    let json = r#"{"@type": "totallyUnknownType123"}"#;
    match AuthorizationState::from_json(json) {
        Err(DecodeError::UnrecognizedVariant(tag)) => {
            assert_eq!(tag, "totallyUnknownType123");
        },
        other => panic!("expected UnrecognizedVariant, got {:?}", other),
    }
    match ChatAction::from_json(json) {
        Err(DecodeError::UnrecognizedVariant(tag)) => {
            assert_eq!(tag, "totallyUnknownType123");
        },
        other => panic!("expected UnrecognizedVariant, got {:?}", other),
    }
    match MaskPoint::from_json(json) {
        Err(DecodeError::UnrecognizedVariant(tag)) => {
            assert_eq!(tag, "totallyUnknownType123");
        },
        other => panic!("expected UnrecognizedVariant, got {:?}", other),
    }
}

#[test]
fn malformed_input_is_malformed() {
    for bad in ["", "garbage", "{", "[1, 2", "nul", r#"{"a": 1}"#, r#"[1, 2]"#, "42 x"] {
        match AuthorizationState::from_json(bad) {
            Err(DecodeError::Malformed) => {},
            other => panic!("{:?} on {:?}", other, bad),
        }
        match rtdlib::CountryInfo::from_json(bad) {
            Err(DecodeError::Malformed) => {},
            other => panic!("{:?} on {:?}", other, bad),
        }
    }
}

#[test]
fn field_shape_mismatch_names_the_field() {
    // a recognized type whose field has the wrong shape reports tag and field
    let json = r#"{"@type":"countryInfo","country_code":7}"#;
    match rtdlib::CountryInfo::from_json(json) {
        Err(DecodeError::FieldShapeMismatch(tag, field)) => {
            assert_eq!(tag, "countryInfo");
            assert_eq!(field, "country_code");
        },
        other => panic!("expected FieldShapeMismatch, got {:?}", other),
    }
    // a missing required field is reported the same way
    let json = r#"{"@type":"countryInfo","country_code":"DE","name":"D","english_name":"G","is_hidden":false}"#;
    match rtdlib::CountryInfo::from_json(json) {
        Err(DecodeError::FieldShapeMismatch(tag, field)) => {
            assert_eq!(tag, "countryInfo");
            assert_eq!(field, "calling_codes");
        },
        other => panic!("expected FieldShapeMismatch, got {:?}", other),
    }
}

#[test]
fn wire_text_tolerates_whitespace_and_unknown_fields() {
    let json = " { \"@type\" : \"authorizationStateReady\" , \"future_field\" : [ 1 , 2.5e3 , null ] } ";
    let v = AuthorizationState::from_json(json).unwrap();
    assert!(v.is_ready());
}

#[test]
fn unicode_escapes_decode() {
    let json = r#"{"@type":"countryInfo","country_code":"\u0044\u0045","name":"\uD83D\uDE00","english_name":"x\/y\n","is_hidden":false,"calling_codes":[]}"#;
    let v = rtdlib::CountryInfo::from_json(json).unwrap();
    assert_eq!(v.country_code(), "DE");
    assert_eq!(v.name(), "\u{1F600}");
    assert_eq!(v.english_name(), "x/y\n");
}

#[test]
fn encoding_the_default_alternative_fails() {
    let v = AuthorizationState::_Default(());
    match v.to_json() {
        Err(rtdlib::EncodeError::Unrepresentable) => {},
        other => panic!("expected Unrepresentable, got {:?}", other),
    }
}

#[test]
fn oversized_numbers_are_rejected() {
    let json = r#"{"@type":"sticker","set_id":0,"width":9223372036854775808,"height":0,"emoji":"","is_animated":false,"is_mask":false}"#;
    match rtdlib::Sticker::from_json(json) {
        Err(DecodeError::FieldShapeMismatch(_, field)) => {
            assert_eq!(field, "width");
        },
        other => panic!("expected FieldShapeMismatch, got {:?}", other),
    }
}
