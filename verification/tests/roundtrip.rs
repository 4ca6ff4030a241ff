//! Round trips through wire text: encode then decode gives the value back.
use rtdlib::CountryInfo;
use rtdlib::PhoneNumberInfo;
use rtdlib::RObject;
use rtdlib::Sticker;

#[test]
fn country_info_round_trip() {
    let mut b = CountryInfo::builder();
    b.country_code("DE".to_string())
        .name("Deutschland".to_string())
        .english_name("Germany".to_string())
        .is_hidden(true)
        .calling_codes(vec!["49".to_string(), "0049".to_string()]);
    let v = b.build();
    let text = v.to_json().unwrap();
    let w = CountryInfo::from_json(&text).unwrap();
    assert_eq!(v, w);
}

#[test]
fn round_trip_with_empty_values() {
    // empty strings, false, and an empty collection survive the trip
    let v = CountryInfo::builder().build();
    let text = v.to_json().unwrap();
    let w = CountryInfo::from_json(&text).unwrap();
    assert_eq!(v, w);
    assert_eq!(w.country_code(), "");
    assert!(w.calling_codes().is_empty());
}

#[test]
fn sticker_round_trip_with_zero_and_extremes() {
    let mut b = Sticker::builder();
    b.set_id(0).width(i64::MAX).height(i64::MIN).emoji(String::new());
    let v = b.build();
    let text = v.to_json().unwrap();
    let w = Sticker::from_json(&text).unwrap();
    assert_eq!(v, w);
    assert_eq!(w.width(), i64::MAX);
    assert_eq!(w.height(), i64::MIN);
}

#[test]
fn nested_optional_value_round_trip() {
    let mut cb = CountryInfo::builder();
    cb.country_code("FR".to_string()).name("France".to_string());
    let country = cb.build();
    let mut b = PhoneNumberInfo::builder();
    b.country(country.clone())
        .country_calling_code("33".to_string())
        .formatted_phone_number("01 23 45 67 89".to_string());
    let v = b.build();
    let text = v.to_json().unwrap();
    let w = PhoneNumberInfo::from_json(&text).unwrap();
    assert_eq!(v, w);
    assert_eq!(w.country().as_ref().unwrap().name(), "France");
}

#[test]
fn tag_is_fixed_regardless_of_contents() {
    // the discriminator is owned by the type, not by the field values
    let a = CountryInfo::builder().build();
    let mut bb = CountryInfo::builder();
    bb.name("x".to_string()).is_hidden(true);
    let b = bb.build();
    assert_eq!(a.td_name(), "countryInfo");
    assert_eq!(b.td_name(), "countryInfo");
    let mut sb = Sticker::builder();
    sb.width(7);
    assert_eq!(sb.build().td_name(), "sticker");
}

#[test]
fn token_survives_the_round_trip() {
    let b = CountryInfo::builder();
    let v1 = b.build();
    let v2 = b.build();
    // building twice gives identical snapshots
    assert_eq!(v1, v2);
    let text = v1.to_json().unwrap();
    let w = CountryInfo::from_json(&text).unwrap();
    assert_eq!(w.extra(), v1.extra());
    assert!(w.extra().is_some());
}

#[test]
fn numeric_field_decodes_from_number_or_string() {
    // a large identifier decodes identically from a bare number and a string
    let with_number = r#"{"@type":"sticker","set_id":123456789012345,"width":1,"height":2,"emoji":"e","is_animated":false,"is_mask":true}"#;
    let with_string = r#"{"@type":"sticker","set_id":"123456789012345","width":"1","height":2,"emoji":"e","is_animated":false,"is_mask":true}"#;
    let a = Sticker::from_json(with_number).unwrap();
    let b = Sticker::from_json(with_string).unwrap();
    assert_eq!(a, b);
    assert_eq!(a.set_id(), 123456789012345);
    assert_eq!(a.width(), 1);
}

#[test]
fn string_escapes_round_trip() {
    let mut b = CountryInfo::builder();
    b.name("a\"b\\c\nd\te\u{8}f\u{c}g\rh\u{1}i😀𝄞".to_string());
    let v = b.build();
    let text = v.to_json().unwrap();
    let w = CountryInfo::from_json(&text).unwrap();
    assert_eq!(v, w);
}

#[test]
fn builder_setters_overwrite() {
    let mut b = CountryInfo::builder();
    b.name("first".to_string());
    b.name("second".to_string());
    assert_eq!(b.build().name(), "second");
}
