use py_cert_store::cert_context::{Answer, CertContext, Query};
use py_cert_store::error::{CertError, Property};
use py_cert_store::native::{
    CalendarTime, CertExtention, KeyHandle, KeyKind, NameAttribute, Reply, Request, BAD_KEY_STATE,
    ERROR_INVALID_PARAMETER, FRIENDLY_NAME_PROPERTY,
};

fn wide(text: &str) -> Vec<u16> {
    text.encode_utf16().chain(Some(0)).collect()
}

fn cert() -> CertContext {
    CertContext::from_inner(0x100).expect("a handle that is not null")
}

fn flag(question: Query) -> Result<bool, CertError> {
    match question.answer().expect("an answered question") {
        Ok(Answer::Flag(flag)) => Ok(flag),
        Ok(other) => panic!("a flag was asked for, not {:?}", other),
        Err(error) => Err(error),
    }
}

fn text(question: Query) -> Result<String, CertError> {
    match question.answer().expect("an answered question") {
        Ok(Answer::Text(text)) => Ok(text),
        Ok(other) => panic!("a text was asked for, not {:?}", other),
        Err(error) => Err(error),
    }
}

fn bytes(question: Query) -> Result<Vec<u8>, CertError> {
    match question.answer().expect("an answered question") {
        Ok(Answer::Bytes(bytes)) => Ok(bytes),
        Ok(other) => panic!("bytes were asked for, not {:?}", other),
        Err(error) => Err(error),
    }
}

fn size_in_bytes(text: &str) -> u32 {
    2 * wide(text).len() as u32
}

/// Answers a question that reads one text: first its size, then the text.
fn read(question: Query, text: &str) -> Query {
    let question = question.advance(Reply::Size(Some(size_in_bytes(text))));
    question.advance(Reply::Wide(Some(wide(text))))
}

fn key_usage() -> CertExtention {
    CertExtention { oid: "2.5.29.15".to_string(), critical: true, value: vec![3, 2, 5, 160] }
}

fn modern_key(caller_frees: bool) -> KeyHandle {
    KeyHandle { handle: 0x900, key_spec: 0xFFFF_FFFF, caller_frees }
}

fn date(year: u16, month: u16, day: u16, hour: u16, minute: u16, second: u16) -> CalendarTime {
    CalendarTime { year, month, day, hour, minute, second }
}

#[test]
fn null_handle_is_no_certificate() {
    assert!(CertContext::from_inner(0).is_none());
    assert_eq!(cert().as_inner(), 0x100);
}

#[test]
fn close_frees_the_certificate() {
    assert!(matches!(cert().close(), Request::FreeCertificate { cert: 0x100 }));
    assert!(matches!(cert().duplicate(), Request::DuplicateCertificate { cert: 0x100 }));
}

#[test]
fn time_validity_follows_the_verdict() {
    let question = cert().is_time_valid();
    assert!(matches!(question.request(), Some(Request::VerifyTimeValidity { cert: 0x100 })));
    assert_eq!(flag(question.advance(Reply::Verdict(Some(0)))), Ok(true));
    assert_eq!(flag(cert().is_time_valid().advance(Reply::Verdict(Some(1)))), Ok(false));
    assert_eq!(flag(cert().is_time_valid().advance(Reply::Verdict(Some(-1)))), Ok(false));
}

#[test]
fn time_validity_without_a_verdict_is_a_failure() {
    let failed = cert().is_time_valid().advance(Reply::Verdict(None));
    assert_eq!(flag(failed), Err(CertError::TimeValidityCheck));
    let odd = cert().is_time_valid().advance(Reply::Done);
    assert_eq!(flag(odd), Err(CertError::TimeValidityCheck));
}

#[test]
fn absent_extension_is_a_no_and_no_failure() {
    let plain = cert().has_extension_with_property("2.5.29.15", None);
    assert!(matches!(
        plain.request(),
        Some(Request::FindExtension { cert: 0x100, ref oid }) if oid == "2.5.29.15"
    ));
    assert_eq!(flag(plain.advance(Reply::Extension(None))), Ok(false));
    let valued = cert().has_extension_with_property("2.5.29.15", Some("Digital Signature"));
    assert_eq!(flag(valued.advance(Reply::Extension(None))), Ok(false));
}

#[test]
fn present_extension_suffices_where_no_value_is_asked() {
    let question = cert().has_extension_with_property("2.5.29.15", None);
    let question = question.advance(Reply::Extension(Some(key_usage())));
    assert!(question.request().is_none());
    assert_eq!(flag(question), Ok(true));
}

#[test]
fn extension_value_is_searched_in_the_display_text() {
    let question = cert().has_extension_with_property("2.5.29.15", Some("Key Encipherment"));
    let question = question.advance(Reply::Extension(Some(key_usage())));
    match question.request() {
        Some(Request::FormatExtension { extension, units }) => {
            assert_eq!(extension.oid, "2.5.29.15");
            assert_eq!(extension.value, vec![3, 2, 5, 160]);
            assert!(extension.critical);
            assert_eq!(units, 0);
        }
        other => panic!("the extension is to be sized, not {:?}", other),
    }
    let display = "Digital Signature, Key Encipherment (a0)";
    let question = question.advance(Reply::Size(Some(82)));
    assert!(matches!(question.request(), Some(Request::FormatExtension { units: 41, .. })));
    assert_eq!(flag(question.advance(Reply::Wide(Some(wide(display))))), Ok(true));
}

#[test]
fn extension_value_is_matched_literally() {
    for (value, expected) in [
        ("Digital", true),
        ("(a0)", true),
        ("", true),
        ("digital", false),
        ("Key  Encipherment", false),
        ("Digital Signature, Key Encipherment (a0) ", false),
    ] {
        let question = cert().has_extension_with_property("2.5.29.15", Some(value));
        let question = question.advance(Reply::Extension(Some(key_usage())));
        let question = read(question, "Digital Signature, Key Encipherment (a0)");
        assert_eq!(flag(question), Ok(expected), "{value:?}");
    }
}

#[test]
fn extension_that_cannot_be_rendered_is_a_decoding_failure() {
    for sizing in [Reply::Size(None), Reply::Size(Some(0)), Reply::Size(Some(1)), Reply::Done] {
        let question = cert().has_extension_with_property("2.5.29.15", Some("Digital"));
        let question = question.advance(Reply::Extension(Some(key_usage())));
        let question = question.advance(sizing);
        assert!(question.request().is_none());
        assert_eq!(flag(question), Err(CertError::ExtensionDecode));
    }
    for text in [Reply::Wide(None), Reply::Wide(Some(vec![])), Reply::Size(Some(8))] {
        let question = cert().has_extension_with_property("2.5.29.15", Some("Digital"));
        let question = question.advance(Reply::Extension(Some(key_usage())));
        let question = question.advance(Reply::Size(Some(16)));
        assert_eq!(flag(question.advance(text)), Err(CertError::ExtensionDecode));
    }
}

#[test]
fn friendly_name_is_decoded_without_its_terminator() {
    let question = cert().friendly_name();
    assert!(matches!(
        question.request(),
        Some(Request::ReadProperty { cert: 0x100, property: FRIENDLY_NAME_PROPERTY, units: 0 })
    ));
    let question = question.advance(Reply::Size(Some(16)));
    assert!(matches!(
        question.request(),
        Some(Request::ReadProperty { cert: 0x100, property: FRIENDLY_NAME_PROPERTY, units: 8 })
    ));
    assert_eq!(wide("Büro 𝄞").len(), 8);
    assert_eq!(text(question.advance(Reply::Wide(Some(wide("Büro 𝄞"))))), Ok("Büro 𝄞".to_string()));
}

#[test]
fn lone_surrogate_is_replaced() {
    let units = vec![0x0041, 0xD834, 0x0042, 0xDD1E, 0];
    let question = cert().friendly_name().advance(Reply::Size(Some(10)));
    let question = question.advance(Reply::Wide(Some(units)));
    assert_eq!(text(question), Ok("A\u{FFFD}B\u{FFFD}".to_string()));
}

#[test]
fn missing_friendly_name_is_named_in_the_failure() {
    let missing = CertError::PropertyUnavailable(Property::FriendlyName);
    for sizing in [Reply::Size(None), Reply::Size(Some(0)), Reply::Size(Some(1)), Reply::Wide(None)] {
        assert_eq!(text(cert().friendly_name().advance(sizing)), Err(missing));
    }
    for reply in [Reply::Wide(None), Reply::Wide(Some(vec![])), Reply::Done] {
        let question = cert().friendly_name().advance(Reply::Size(Some(8)));
        assert_eq!(text(question.advance(reply)), Err(missing));
    }
    assert_eq!(text(read(cert().friendly_name(), "")), Ok(String::new()));
}

fn name_of(mut question: Query, values: [Option<&str>; 6]) -> (String, Vec<NameAttribute>) {
    let mut asked = Vec::new();
    for value in values {
        match question.request() {
            Some(Request::ReadNameAttribute { cert, attribute, units, .. }) => {
                assert_eq!(cert, 0x100);
                assert_eq!(units, 0);
                asked.push(attribute);
            }
            other => panic!("an attribute is to be sized, not {:?}", other),
        }
        let Some(value) = value else {
            question = question.advance(Reply::Size(Some(0)));
            continue;
        };
        let units = wide(value).len() as u32;
        question = question.advance(Reply::Size(Some(units)));
        assert!(matches!(
            question.request(),
            Some(Request::ReadNameAttribute { units: asked, .. }) if asked == units
        ));
        question = question.advance(Reply::Wide(Some(wide(value))));
    }
    (text(question).expect("a name never fails"), asked)
}

#[test]
fn name_shows_its_attributes_in_their_order() {
    let values = [
        Some("US"),
        Some("Washington"),
        Some("Redmond"),
        Some("Contoso"),
        Some("IT"),
        Some("example.com"),
    ];
    let (name, asked) = name_of(cert().name(), values);
    assert_eq!(name, "C=US, S=Washington, L=Redmond, O=Contoso, OU=IT, CN=example.com");
    assert_eq!(
        asked,
        vec![
            NameAttribute::Country,
            NameAttribute::State,
            NameAttribute::Locality,
            NameAttribute::Organization,
            NameAttribute::OrganizationalUnit,
            NameAttribute::CommonName,
        ]
    );
}

#[test]
fn name_omits_what_the_certificate_does_not_have() {
    let (name, _) = name_of(cert().issuer(), [None, Some(""), None, Some("Contoso"), None, Some("CA")]);
    assert_eq!(name, "O=Contoso, CN=CA");
    let (name, _) = name_of(cert().name(), [None, None, None, None, None, Some("alone")]);
    assert_eq!(name, "CN=alone");
    let (name, _) = name_of(cert().name(), [None; 6]);
    assert_eq!(name, "");
}

#[test]
fn attribute_that_cannot_be_read_is_left_out() {
    let mut question = cert().name();
    for _ in 0..5 {
        question = question.advance(Reply::Size(Some(0)));
    }
    let question = question.advance(Reply::Size(Some(3)));
    assert_eq!(text(question.advance(Reply::Wide(None))), Ok(String::new()));
    let mut question = cert().name();
    for _ in 0..5 {
        question = question.advance(Reply::Size(None));
    }
    assert_eq!(text(read_attribute(question, "x")), Ok("CN=x".to_string()));
}

fn read_attribute(question: Query, value: &str) -> Query {
    let question = question.advance(Reply::Size(Some(wide(value).len() as u32)));
    question.advance(Reply::Wide(Some(wide(value))))
}

#[test]
fn issuer_is_asked_for_as_issuer() {
    assert!(matches!(
        cert().issuer().request(),
        Some(Request::ReadNameAttribute { issuer: true, attribute: NameAttribute::Country, .. })
    ));
    assert!(matches!(
        cert().name().request(),
        Some(Request::ReadNameAttribute { issuer: false, attribute: NameAttribute::Country, .. })
    ));
}

#[test]
fn attribute_identifiers_and_prefixes() {
    assert_eq!(NameAttribute::Country.oid(), "2.5.4.6");
    assert_eq!(NameAttribute::State.oid(), "2.5.4.8");
    assert_eq!(NameAttribute::Locality.oid(), "2.5.4.7");
    assert_eq!(NameAttribute::Organization.oid(), "2.5.4.10");
    assert_eq!(NameAttribute::OrganizationalUnit.oid(), "2.5.4.11");
    assert_eq!(NameAttribute::CommonName.oid(), "2.5.4.3");
    assert_eq!(NameAttribute::OrganizationalUnit.prefix(), "OU=");
    assert_eq!(NameAttribute::CommonName.next(), None);
}

#[test]
fn validity_dates_are_written_in_utc() {
    let from = cert().valid_from();
    assert!(matches!(from.request(), Some(Request::ReadValidity { cert: 0x100, end: false })));
    let from = from.advance(Reply::Time(Some(date(2015, 9, 5, 23, 56, 4))));
    assert_eq!(text(from), Ok("2015-09-05T23:56:04Z".to_string()));
    let to = cert().valid_to();
    assert!(matches!(to.request(), Some(Request::ReadValidity { cert: 0x100, end: true })));
    let to = to.advance(Reply::Time(Some(date(2040, 12, 31, 0, 0, 59))));
    assert_eq!(text(to), Ok("2040-12-31T00:00:59Z".to_string()));
}

#[test]
fn years_are_padded_or_signed() {
    let early = cert().valid_from().advance(Reply::Time(Some(date(987, 1, 2, 3, 4, 5))));
    assert_eq!(text(early), Ok("0987-01-02T03:04:05Z".to_string()));
    let late = cert().valid_to().advance(Reply::Time(Some(date(30827, 10, 11, 12, 13, 14))));
    assert_eq!(text(late), Ok("+30827-10-11T12:13:14Z".to_string()));
    let edge = cert().valid_to().advance(Reply::Time(Some(date(10000, 1, 1, 0, 0, 0))));
    assert_eq!(text(edge), Ok("+10000-01-01T00:00:00Z".to_string()));
}

#[test]
fn leap_days_exist_in_leap_years_only() {
    let leap = cert().valid_from().advance(Reply::Time(Some(date(2024, 2, 29, 0, 0, 0))));
    assert_eq!(text(leap), Ok("2024-02-29T00:00:00Z".to_string()));
    let century = cert().valid_from().advance(Reply::Time(Some(date(2000, 2, 29, 0, 0, 0))));
    assert_eq!(text(century), Ok("2000-02-29T00:00:00Z".to_string()));
    let missing = CertError::PropertyUnavailable(Property::ValidFrom);
    let common = cert().valid_from().advance(Reply::Time(Some(date(2023, 2, 29, 0, 0, 0))));
    assert_eq!(text(common), Err(missing));
    let odd = cert().valid_from().advance(Reply::Time(Some(date(2100, 2, 29, 0, 0, 0))));
    assert_eq!(text(odd), Err(missing));
}

#[test]
fn instants_outside_the_calendar_are_failures() {
    let from = CertError::PropertyUnavailable(Property::ValidFrom);
    let to = CertError::PropertyUnavailable(Property::ValidTo);
    for bad in [
        date(2023, 0, 1, 0, 0, 0),
        date(2023, 13, 1, 0, 0, 0),
        date(2023, 4, 31, 0, 0, 0),
        date(2023, 4, 0, 0, 0, 0),
        date(2023, 4, 1, 24, 0, 0),
        date(2023, 4, 1, 0, 60, 0),
        date(2023, 4, 1, 0, 0, 60),
    ] {
        assert_eq!(text(cert().valid_from().advance(Reply::Time(Some(bad)))), Err(from));
        assert_eq!(text(cert().valid_to().advance(Reply::Time(Some(bad)))), Err(to));
    }
    assert_eq!(text(cert().valid_to().advance(Reply::Time(None))), Err(to));
}

#[test]
fn modern_key_that_exports_is_exportable() {
    let question = cert().is_exportable();
    assert!(matches!(
        question.request(),
        Some(Request::AcquireKey { cert: 0x100, modern_only: true })
    ));
    let question = question.advance(Reply::Key(Some(modern_key(true))));
    assert!(matches!(
        question.request(),
        Some(Request::ProbeExport { kind: KeyKind::Modern, key }) if key == modern_key(true)
    ));
    let question = question.advance(Reply::Status { succeeded: true, code: 0 });
    assert!(matches!(
        question.request(),
        Some(Request::FreeKey { kind: KeyKind::Modern, key }) if key == modern_key(true)
    ));
    assert!(!question.is_answered());
    assert_eq!(flag(question.advance(Reply::Done)), Ok(true));
}

#[test]
fn modern_key_in_a_bad_state_is_not_exportable() {
    let question = cert().is_exportable().advance(Reply::Key(Some(modern_key(false))));
    let question = question.advance(Reply::Status { succeeded: false, code: BAD_KEY_STATE });
    assert!(question.request().is_none());
    assert_eq!(flag(question), Ok(false));
}

#[test]
fn bad_key_state_is_the_status_of_that_name() {
    assert_eq!(BAD_KEY_STATE, -2146893813);
    assert_eq!(BAD_KEY_STATE as u32, 0x8009_000B);
    assert_eq!(ERROR_INVALID_PARAMETER, 87);
    let question = cert().is_exportable().advance(Reply::Key(Some(modern_key(false))));
    let question = question.advance(Reply::Status { succeeded: false, code: -2146893813 });
    assert_eq!(flag(question), Ok(false));
}

#[test]
fn status_that_the_call_is_not_supported_is_a_failure() {
    let question = cert().is_exportable().advance(Reply::Key(Some(modern_key(false))));
    let question = question.advance(Reply::Status { succeeded: false, code: -2146893783 });
    assert_eq!(flag(question), Err(CertError::KeyExport));
    assert_eq!(-2146893783_i32 as u32, 0x8009_0029);
}

#[test]
fn legacy_refusal_is_the_invalid_parameter_code() {
    let legacy = KeyHandle { handle: 0x901, key_spec: 1, caller_frees: false };
    let question = cert().is_exportable().advance(Reply::Key(None));
    let question = question.advance(Reply::Key(Some(legacy)));
    assert_eq!(flag(question.advance(Reply::Status { succeeded: false, code: 87 })), Ok(false));
    let question = cert().is_exportable().advance(Reply::Key(None));
    let question = question.advance(Reply::Key(Some(legacy)));
    let other = Reply::Status { succeeded: false, code: -2146893813 };
    assert_eq!(flag(question.advance(other)), Err(CertError::KeyExport));
}

#[test]
fn other_probe_status_is_a_failure() {
    let question = cert().is_exportable().advance(Reply::Key(Some(modern_key(true))));
    let question = question.advance(Reply::Status { succeeded: false, code: ERROR_INVALID_PARAMETER });
    assert!(matches!(question.request(), Some(Request::FreeKey { .. })));
    assert_eq!(flag(question.advance(Reply::Done)), Err(CertError::KeyExport));
}

#[test]
fn legacy_key_is_probed_after_the_modern_acquisition_fails() {
    let legacy = KeyHandle { handle: 0x901, key_spec: 1, caller_frees: true };
    let question = cert().is_exportable().advance(Reply::Key(None));
    assert!(matches!(
        question.request(),
        Some(Request::AcquireKey { cert: 0x100, modern_only: false })
    ));
    let question = question.advance(Reply::Key(Some(legacy)));
    assert!(matches!(
        question.request(),
        Some(Request::ProbeExport { kind: KeyKind::Legacy, key }) if key == legacy
    ));
    let refused = Reply::Status { succeeded: false, code: ERROR_INVALID_PARAMETER };
    let question = question.advance(refused);
    assert!(matches!(question.request(), Some(Request::FreeKey { kind: KeyKind::Legacy, .. })));
    assert_eq!(flag(question.advance(Reply::Done)), Ok(false));
}

#[test]
fn legacy_key_that_exports_is_exportable() {
    let legacy = KeyHandle { handle: 0x901, key_spec: 2, caller_frees: false };
    let question = cert().is_exportable().advance(Reply::Key(None));
    let question = question.advance(Reply::Key(Some(legacy)));
    assert_eq!(flag(question.advance(Reply::Status { succeeded: true, code: 0 })), Ok(true));
    let question = cert().is_exportable().advance(Reply::Key(None));
    let question = question.advance(Reply::Key(Some(legacy)));
    let odd = Reply::Status { succeeded: false, code: BAD_KEY_STATE };
    assert_eq!(flag(question.advance(odd)), Err(CertError::KeyExport));
}

#[test]
fn missing_key_is_not_a_no() {
    let question = cert().is_exportable().advance(Reply::Key(None)).advance(Reply::Key(None));
    assert!(question.request().is_none());
    assert_eq!(flag(question), Err(CertError::PrivateKeyUnavailable));
}

#[test]
fn modern_acquisition_of_a_legacy_key_is_not_exportable() {
    let odd = KeyHandle { handle: 0x902, key_spec: 1, caller_frees: true };
    let question = cert().is_exportable().advance(Reply::Key(Some(odd)));
    assert!(matches!(question.request(), Some(Request::FreeKey { key, .. }) if key == odd));
    assert_eq!(flag(question.advance(Reply::Done)), Ok(false));
}

#[test]
fn key_spec_tells_the_subsystems_apart() {
    assert_eq!(modern_key(true).kind(), KeyKind::Modern);
    assert_eq!(KeyHandle { handle: 1, key_spec: 0, caller_frees: false }.kind(), KeyKind::Modern);
    assert_eq!(KeyHandle { handle: 1, key_spec: 1, caller_frees: false }.kind(), KeyKind::Legacy);
    assert_eq!(KeyHandle { handle: 1, key_spec: 2, caller_frees: false }.kind(), KeyKind::Legacy);
}

#[test]
fn exportability_is_the_same_when_asked_again() {
    let ask = || {
        let question = cert().is_exportable().advance(Reply::Key(Some(modern_key(true))));
        let question = question.advance(Reply::Status { succeeded: false, code: BAD_KEY_STATE });
        flag(question.advance(Reply::Done))
    };
    assert_eq!(ask(), Ok(false));
    assert_eq!(ask(), ask());
}

#[test]
fn private_key_is_exported_and_the_handle_freed() {
    let question = cert().private_key();
    assert!(matches!(
        question.request(),
        Some(Request::AcquireKey { cert: 0x100, modern_only: true })
    ));
    let question = question.advance(Reply::Key(Some(modern_key(true))));
    assert!(matches!(question.request(), Some(Request::ProbeExport { .. })));
    let question = question.advance(Reply::Status { succeeded: true, code: 0 });
    assert!(matches!(
        question.request(),
        Some(Request::ExportKey { kind: KeyKind::Modern, key, len: 0 }) if key == modern_key(true)
    ));
    let question = question.advance(Reply::Size(Some(3)));
    assert!(matches!(
        question.request(),
        Some(Request::ExportKey { kind: KeyKind::Modern, key, len: 3 }) if key == modern_key(true)
    ));
    let question = question.advance(Reply::Bytes(Some(vec![1, 2, 3])));
    assert!(matches!(question.request(), Some(Request::FreeKey { .. })));
    assert_eq!(bytes(question.advance(Reply::Done)), Ok(vec![1, 2, 3]));
}

#[test]
fn private_key_of_a_key_that_is_not_exportable_fails() {
    let question = cert().private_key().advance(Reply::Key(Some(modern_key(true))));
    let question = question.advance(Reply::Status { succeeded: false, code: BAD_KEY_STATE });
    assert!(matches!(question.request(), Some(Request::FreeKey { .. })));
    assert_eq!(bytes(question.advance(Reply::Done)), Err(CertError::KeyExport));
}

#[test]
fn private_key_without_bytes_fails() {
    for reply in [Reply::Bytes(Some(vec![])), Reply::Bytes(None), Reply::Done] {
        let question = cert().private_key().advance(Reply::Key(Some(modern_key(false))));
        let question = question.advance(Reply::Status { succeeded: true, code: 0 });
        let question = question.advance(Reply::Size(Some(4)));
        assert_eq!(bytes(question.advance(reply)), Err(CertError::KeyExport));
    }
    for sizing in [Reply::Size(Some(0)), Reply::Size(None), Reply::Bytes(Some(vec![1]))] {
        let question = cert().private_key().advance(Reply::Key(Some(modern_key(true))));
        let question = question.advance(Reply::Status { succeeded: true, code: 0 });
        let question = question.advance(sizing);
        assert!(matches!(question.request(), Some(Request::FreeKey { .. })));
        assert_eq!(bytes(question.advance(Reply::Done)), Err(CertError::KeyExport));
    }
}

#[test]
fn private_key_without_a_key_is_unavailable() {
    let question = cert().private_key().advance(Reply::Key(None)).advance(Reply::Key(None));
    assert_eq!(bytes(question), Err(CertError::PrivateKeyUnavailable));
}

#[test]
fn question_on_a_platform_without_a_store() {
    assert_eq!(
        flag(cert().is_time_valid().advance(Reply::Unsupported)),
        Err(CertError::UnsupportedPlatform)
    );
    assert_eq!(
        flag(cert().is_exportable().advance(Reply::Unsupported)),
        Err(CertError::UnsupportedPlatform)
    );
    assert_eq!(
        text(cert().name().advance(Reply::Unsupported)),
        Err(CertError::UnsupportedPlatform)
    );
}

#[test]
fn answered_question_takes_no_more_replies() {
    let question = cert().is_time_valid().advance(Reply::Verdict(Some(0)));
    let question = question.advance(Reply::Verdict(Some(1)));
    assert!(question.is_answered());
    assert_eq!(flag(question), Ok(true));
    assert!(cert().is_time_valid().answer().is_none());
}
