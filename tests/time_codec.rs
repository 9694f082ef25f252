use asn1time::civil::UtcDateTime;
use asn1time::error::DecodeError;
use asn1time::generalized_time::GeneralizedTime;
use asn1time::time::{TagClass, TagId, Time};
use asn1time::utc_time::UtcTime;

fn utc(s: &str) -> Result<UtcTime, DecodeError> {
    UtcTime::from_primitive(s.as_bytes())
}

fn gen(s: &str) -> Result<GeneralizedTime, DecodeError> {
    GeneralizedTime::from_primitive(s.as_bytes())
}

fn fields(t: &UtcDateTime) -> (i32, u32, u32, u32, u32, u32) {
    (t.year(), t.month(), t.day(), t.hour(), t.minute(), t.second())
}

#[test]
fn utc_time_round_trip() {
    for s in ["230615143000Z", "000229000000Z", "991231235959Z", "500101000000Z", "491231235959Z"] {
        let t = utc(s).unwrap();
        assert_eq!(t.encoded_content(), s.as_bytes().to_vec());
        assert_eq!(t.to_string(), s);
    }
}

#[test]
fn utc_time_fields_are_read() {
    let t = utc("230615143059Z").unwrap();
    assert_eq!(fields(t.instant()), (2023, 6, 15, 14, 30, 59));
}

#[test]
fn utc_time_century() {
    assert_eq!(utc("490101000000Z").unwrap().instant().year(), 2049);
    assert_eq!(utc("500101000000Z").unwrap().instant().year(), 1950);
    assert_eq!(utc("000101000000Z").unwrap().instant().year(), 2000);
    assert_eq!(utc("990101000000Z").unwrap().instant().year(), 1999);
}

#[test]
fn utc_time_length_violations() {
    assert_eq!(utc("230615143000"), Err(DecodeError::Malformed));
    assert_eq!(utc("23061514300Z"), Err(DecodeError::Malformed));
    assert_eq!(utc("2306151430000Z"), Err(DecodeError::Malformed));
    assert_eq!(utc(""), Err(DecodeError::Malformed));
}

#[test]
fn generalized_time_missing_zulu_is_refused() {
    assert_eq!(gen("20230615143000"), Err(DecodeError::Malformed));
    assert_eq!(gen("2023061514300Z"), Err(DecodeError::Malformed));
}

#[test]
fn invalid_calendar_values_are_refused() {
    assert_eq!(utc("230230123000Z"), Err(DecodeError::Malformed));
    assert_eq!(gen("20230230123000Z"), Err(DecodeError::Malformed));
    assert_eq!(utc("230229000000Z"), Err(DecodeError::Malformed));
    assert_eq!(gen("21000229000000Z"), Err(DecodeError::Malformed));
    assert_eq!(utc("231301000000Z"), Err(DecodeError::Malformed));
    assert_eq!(utc("230001000000Z"), Err(DecodeError::Malformed));
    assert_eq!(utc("230100000000Z"), Err(DecodeError::Malformed));
    assert_eq!(utc("230431000000Z"), Err(DecodeError::Malformed));
    assert!(gen("20240229000000Z").is_ok());
    assert!(gen("20000229000000Z").is_ok());
}

#[test]
fn invalid_times_of_day_are_refused() {
    assert_eq!(utc("230615240000Z"), Err(DecodeError::Malformed));
    assert_eq!(utc("230615236000Z"), Err(DecodeError::Malformed));
    assert_eq!(utc("230615235960Z"), Err(DecodeError::Malformed));
    assert_eq!(gen("20230615235960Z"), Err(DecodeError::Malformed));
    assert!(utc("230615235959Z").is_ok());
}

#[test]
fn non_zulu_suffix_is_refused() {
    assert_eq!(utc("230615143000X"), Err(DecodeError::Malformed));
    assert_eq!(utc("230615143000z"), Err(DecodeError::Malformed));
    assert_eq!(gen("20230615143000+"), Err(DecodeError::Malformed));
    assert_eq!(gen("20230615143000.123456789X"), Err(DecodeError::Malformed));
    assert_eq!(gen("202306151430000"), Err(DecodeError::Malformed));
}

#[test]
fn non_digits_are_refused() {
    assert_eq!(utc("2306151430a0Z"), Err(DecodeError::Malformed));
    assert_eq!(utc("+30615143000Z"), Err(DecodeError::Malformed));
    assert_eq!(utc(" 30615143000Z"), Err(DecodeError::Malformed));
    assert_eq!(gen("2023-615143000Z"), Err(DecodeError::Malformed));
    assert_eq!(gen("20230615143000.12a4Z"), Err(DecodeError::Malformed));
    assert_eq!(gen("20230615143000,123Z"), Err(DecodeError::Malformed));
    assert_eq!(gen("20230615143000.Z"), Err(DecodeError::Malformed));
    assert_eq!(gen("2023061514300012Z"), Err(DecodeError::Malformed));
}

#[test]
fn generalized_time_round_trip() {
    for s in ["20230615143000Z", "00000101000000Z", "99991231235959Z", "19500101000000Z"] {
        let t = gen(s).unwrap();
        assert_eq!(t.encoded_content(), s.as_bytes().to_vec());
        assert_eq!(t.to_string(), s);
    }
}

#[test]
fn generalized_time_fraction_is_dropped() {
    let t = gen("20230615143000.123456789Z").unwrap();
    assert_eq!(t.to_string(), "20230615143000Z");
    assert_eq!(fields(t.instant()), (2023, 6, 15, 14, 30, 0));
    assert_eq!(gen("20230615143000.5Z").unwrap(), gen("20230615143000Z").unwrap());
    let long = gen("20230615143000.1234567890123Z").unwrap();
    assert_eq!(long.encoded_content(), b"20230615143000Z".to_vec());
}

#[test]
fn dispatch_by_tag() {
    let g = TagId::generalized_time();
    let u = TagId::utc_time();
    assert_eq!(Time::from_primitive(g, b"230615143000Z"), Err(DecodeError::Malformed));
    let t = Time::from_primitive(u, b"230615143000Z").unwrap();
    assert!(matches!(t, Time::UtcTime(_)));
    assert_eq!(t.tag(), u);
    assert_eq!(t.encode_ref(), b"230615143000Z".to_vec());
    let t = Time::from_primitive(g, b"20230615143000Z").unwrap();
    assert!(matches!(t, Time::GeneralTime(_)));
    assert_eq!(t.tag(), g);
    assert_eq!(t.encode_ref(), b"20230615143000Z".to_vec());
    assert_eq!(Time::from_primitive(u, b"20230615143000Z"), Err(DecodeError::Malformed));
}

#[test]
fn other_tags_are_refused() {
    let octets = TagId { class: TagClass::Universal, number: 4 };
    let ctx = TagId { class: TagClass::ContextSpecific, number: 23 };
    assert_eq!(Time::from_primitive(octets, b"230615143000Z"), Err(DecodeError::Malformed));
    assert_eq!(Time::from_primitive(ctx, b"230615143000Z"), Err(DecodeError::Malformed));
}

#[test]
fn both_forms_give_the_same_instant() {
    let a = Time::from_primitive(TagId::utc_time(), b"230615143000Z").unwrap();
    let b = Time::from_primitive(TagId::generalized_time(), b"20230615143000.25Z").unwrap();
    assert_eq!(a.instant(), b.instant());
    assert_ne!(a, b);
}

#[test]
fn instant_constructor_checks_fields() {
    assert!(UtcDateTime::new(2023, 6, 15, 14, 30, 0).is_some());
    assert!(UtcDateTime::new(2023, 2, 29, 0, 0, 0).is_none());
    assert!(UtcDateTime::new(2024, 2, 29, 0, 0, 0).is_some());
    assert!(UtcDateTime::new(2023, 6, 15, 24, 0, 0).is_none());
    assert!(UtcDateTime::new(2023, 6, 15, 0, 0, 60).is_none());
    assert!(UtcDateTime::new(10000, 1, 1, 0, 0, 0).is_none());
    assert!(UtcDateTime::new(-1, 1, 1, 0, 0, 0).is_none());
}

#[test]
fn time_from_instant_is_utc_time() {
    let i = UtcDateTime::new(2030, 1, 2, 3, 4, 5).unwrap();
    let t = Time::from(i);
    assert!(matches!(t, Time::UtcTime(_)));
    assert_eq!(*t.instant(), i);
    assert_eq!(t.encode_ref(), b"300102030405Z".to_vec());
}

#[test]
fn utc_time_encoding_is_year_modulo_100() {
    let i = UtcDateTime::new(2075, 12, 31, 23, 59, 59).unwrap();
    let t = UtcTime::from_instant(i);
    assert_eq!(t.to_string(), "751231235959Z");
    assert_eq!(t.encoded_len(), 13);
    let i = UtcDateTime::new(1905, 1, 1, 0, 0, 0).unwrap();
    assert_eq!(UtcTime::from_instant(i).to_string(), "050101000000Z");
}

#[test]
fn encoded_lengths() {
    assert_eq!(utc("230615143000Z").unwrap().encoded_len(), 13);
    assert_eq!(gen("20230615143000.1Z").unwrap().encoded_len(), 15);
}

#[test]
fn now_is_a_valid_utc_time() {
    let t = Time::now();
    assert!(matches!(t, Time::UtcTime(_)));
    let i = *t.instant();
    assert!(i.year() >= 2000);
    assert!((1..=12).contains(&i.month()));
    assert!((1..=31).contains(&i.day()));
    assert!(i.hour() < 24 && i.minute() < 60 && i.second() < 60);
    let u = UtcTime::now();
    assert_eq!(u.encoded_content().len(), 13);
}
