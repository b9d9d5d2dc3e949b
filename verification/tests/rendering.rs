use syslog2::rfc5424::write_structured_data_elements;
use syslog2::rfc5424::sequence_id::id_of;
use syslog2::rfc5424::OwnedSequenceId;
use syslog2::rfc5424::SdNameError;
use syslog2::rfc5424::SequenceId;
use syslog2::rfc5424::StructuredData;
use syslog2::rfc5424::StructuredDataElement;
use syslog2::rfc5424::StructuredDataParameter;
use syslog2::rfc5424::TruncatedUsAsciiPrintableString;
use syslog2::rfc5424::WriteTruncatedUsAsciiPrintableString;
use syslog2::syslogSenders::Rfc3164Facility;
use syslog2::BrokenDownTime;
use syslog2::Process;
use syslog2::Severity;
use syslog2::SyslogRfc;
use syslog2::SyslogRfcConstructor;
use syslog2::Timestamp;
use syslog2::VecU8PushStr;

fn process() -> Process {
    Process {
        hostName: "macpro.example.com".to_owned(),
        hostNameWithoutDomain: "macpro".to_owned(),
        programName: "myprogram".to_owned(),
        pid: 5,
    }
}

fn time() -> Timestamp {
    Timestamp::new(2016, 5, 8, 14, 23, 19, 854377).unwrap()
}

fn rendered(element: &StructuredDataElement) -> Vec<u8> {
    let mut writer: Vec<u8> = Vec::new();
    element.write(&mut writer);
    writer
}

fn parameter(name: &str, value: &str) -> Vec<u8> {
    let name = TruncatedUsAsciiPrintableString::new_sd_name(name).unwrap();
    let mut writer: Vec<u8> = Vec::new();
    name.parameter(value.to_owned()).write(&mut writer);
    writer
}

#[test]
fn truncated_string_replaces_what_is_not_us_ascii() {
    let truncated = TruncatedUsAsciiPrintableString::new("h\u{e9}llo", 10);
    assert_eq!(truncated.as_bytes(), b"h?llo");
    assert_eq!(truncated.len(), 5);
}

#[test]
fn truncated_string_cuts_off_at_the_maximum_length() {
    assert_eq!(TruncatedUsAsciiPrintableString::new("0123456789abcdef", 10).as_bytes(), b"0123456789");
    assert_eq!(TruncatedUsAsciiPrintableString::new("h\u{e9}llo w\u{f6}rld", 8).as_bytes(), b"h?llo w?");
    assert_eq!(TruncatedUsAsciiPrintableString::new("abc", 0).as_bytes(), b"");
    assert_eq!(TruncatedUsAsciiPrintableString::new("", 10).as_bytes(), b"");
    assert_eq!(TruncatedUsAsciiPrintableString::new("abc", 3).as_bytes(), b"abc");
}

#[test]
fn truncated_string_replaces_control_codes_and_keeps_the_printable_range() {
    assert_eq!(
        TruncatedUsAsciiPrintableString::new("a\tb\nc\u{7f}d\u{0}e", 20).as_bytes(),
        b"a?b?c?d?e"
    );
    assert_eq!(TruncatedUsAsciiPrintableString::new(" ~", 20).as_bytes(), b" ~");
    assert_eq!(TruncatedUsAsciiPrintableString::new("\u{1f}\u{80}", 20).as_bytes(), b"??");
    assert_eq!(
        TruncatedUsAsciiPrintableString::new("\u{20ac}\u{1f600}x", 20).as_bytes(),
        b"??x"
    );
}

#[test]
fn truncated_strings_are_equal_where_their_bytes_are() {
    let left = TruncatedUsAsciiPrintableString::new("abc", 10);
    assert!(left == TruncatedUsAsciiPrintableString::new("abcdef", 3));
    assert!(left != TruncatedUsAsciiPrintableString::new("abd", 10));
    assert!(left != TruncatedUsAsciiPrintableString::new("ab", 10));
    assert!(left == left.clone());
}

#[test]
fn sd_name_is_refused_for_what_cannot_stand_in_a_name() {
    for name in ["time quality", "a\"b", "a\\b", "a]b", "a\u{7}b", "\u{0}", " ", "a\u{7f}"] {
        assert_eq!(
            TruncatedUsAsciiPrintableString::new_sd_name(name).err(),
            Some(SdNameError::ForbiddenCharacter)
        );
    }
    for name in ["h\u{e9}llo", "\u{80}", "a\u{1f600}"] {
        assert_eq!(
            TruncatedUsAsciiPrintableString::new_sd_name(name).err(),
            Some(SdNameError::NotUsAscii)
        );
    }
    assert_eq!(
        TruncatedUsAsciiPrintableString::new_sd_name("\u{e9} ").err(),
        Some(SdNameError::NotUsAscii)
    );
    assert_eq!(
        TruncatedUsAsciiPrintableString::new_sd_name(" \u{e9}").err(),
        Some(SdNameError::ForbiddenCharacter)
    );
}

#[test]
fn sd_name_is_made_of_visible_us_ascii() {
    let name = TruncatedUsAsciiPrintableString::new_sd_name("timeQuality").unwrap();
    assert_eq!(name.as_bytes(), b"timeQuality");
    let long = TruncatedUsAsciiPrintableString::new_sd_name("a123456789b123456789c123456789d123456789")
        .unwrap();
    assert_eq!(long.as_bytes(), b"a123456789b123456789c123456789d1");
    assert_eq!(TruncatedUsAsciiPrintableString::new_sd_name("!#[~=").unwrap().as_bytes(), b"!#[~=");
    assert_eq!(TruncatedUsAsciiPrintableString::new_sd_name("").unwrap().as_bytes(), b"");
}

#[test]
fn parameter_value_is_escaped() {
    assert_eq!(parameter("k", "a\"b\\c]d"), b" k=\"a\\\"b\\\\c\\[d\"".to_vec());
    assert_eq!(parameter("k", "\"\\]"), b" k=\"\\\"\\\\\\[\"".to_vec());
}

#[test]
fn parameter_value_without_special_characters_is_unchanged() {
    assert_eq!(parameter("key", "plain value [1]="), b" key=\"plain value [1\\[=\"".to_vec());
    assert_eq!(parameter("key", "plain value (1)="), b" key=\"plain value (1)=\"".to_vec());
    assert_eq!(parameter("key", ""), b" key=\"\"".to_vec());
}

#[test]
fn parameter_value_passes_through_as_utf8() {
    let value = "z\u{e9}\u{20ac}\u{1f600}\u{7ff}\u{800}\u{ffff}\u{10000}\u{10ffff}\u{7f}\u{80}";
    let mut expected = b" n=\"".to_vec();
    expected.extend_from_slice(value.as_bytes());
    expected.push(b'"');
    assert_eq!(parameter("n", value), expected);
}

#[test]
fn parameter_new_keeps_name_and_value() {
    let name = TruncatedUsAsciiPrintableString::new_sd_name("ip").unwrap();
    let mut writer: Vec<u8> = b"x".to_vec();
    StructuredDataParameter::new(name, "::1".to_owned()).write(&mut writer);
    assert_eq!(writer, b"x ip=\"::1\"".to_vec());
}

#[test]
fn writers_append() {
    let mut writer: Vec<u8> = b"a".to_vec();
    writer.push_str("b\u{e9}");
    writer.write_truncated(&TruncatedUsAsciiPrintableString::new("c\u{e9}", 5));
    assert_eq!(writer, vec![b'a', b'b', 0xc3, 0xa9, b'c', b'?']);
}

#[test]
fn time_quality_element() {
    assert_eq!(
        rendered(&StructuredDataElement::timeQuality(true, true, 60000)),
        b"[timeQuality tzKnown=\"1\" isSynced=\"1\" syncAccuracy=\"60000\"]".to_vec()
    );
    assert_eq!(
        rendered(&StructuredDataElement::timeQuality(false, false, 0)),
        b"[timeQuality tzKnown=\"0\" isSynced=\"0\" syncAccuracy=\"0\"]".to_vec()
    );
    assert_eq!(
        rendered(&StructuredDataElement::timeQuality(false, true, u64::MAX)),
        b"[timeQuality tzKnown=\"0\" isSynced=\"1\" syncAccuracy=\"18446744073709551615\"]".to_vec()
    );
}

#[test]
fn origin_element() {
    let addresses = vec!["192.0.2.1".to_owned(), "2001:db8::1".to_owned()];
    assert_eq!(
        rendered(&StructuredDataElement::origin(38188, "syslog2", "1.0", &addresses)),
        b"[origin enterpriseId=\"1.3.6.1.4.1.38188\" software=\"syslog2\" softwareVersion=\"1.0\" ip=\"192.0.2.1\" ip=\"2001:db8::1\"]"
            .to_vec()
    );
    assert_eq!(
        rendered(&StructuredDataElement::origin(0, "", "", &Vec::new())),
        b"[origin enterpriseId=\"1.3.6.1.4.1.0\" software=\"\" softwareVersion=\"\"]".to_vec()
    );
    assert_eq!(
        rendered(&StructuredDataElement::origin(u32::MAX, "a]", "b", &Vec::new())),
        b"[origin enterpriseId=\"1.3.6.1.4.1.4294967295\" software=\"a\\[\" softwareVersion=\"b\"]"
            .to_vec()
    );
}

#[test]
fn meta_element_with_a_given_sequence_id() {
    assert_eq!(
        rendered(&StructuredDataElement::meta_with_sequence_id(1, None)),
        b"[meta sequenceId=\"1\" language=\"en\"]".to_vec()
    );
    assert_eq!(
        rendered(&StructuredDataElement::meta_with_sequence_id(2147483647, Some(123456789))),
        b"[meta sequenceId=\"2147483647\" sysUpTime=\"12345\" language=\"en\"]".to_vec()
    );
    assert_eq!(
        rendered(&StructuredDataElement::meta_with_sequence_id(7, Some(-5))),
        b"[meta sequenceId=\"7\" sysUpTime=\"0\" language=\"en\"]".to_vec()
    );
    assert_eq!(
        rendered(&StructuredDataElement::meta_with_sequence_id(7, Some(9999))),
        b"[meta sequenceId=\"7\" sysUpTime=\"0\" language=\"en\"]".to_vec()
    );
    assert_eq!(
        rendered(&StructuredDataElement::meta_with_sequence_id(7, Some(i64::MAX))),
        b"[meta sequenceId=\"7\" sysUpTime=\"922337203685477\" language=\"en\"]".to_vec()
    );
}

#[test]
fn meta_elements_take_their_ids_in_turn() {
    let sequence = SequenceId::new();
    assert_eq!(
        rendered(&StructuredDataElement::meta(&sequence, None)),
        b"[meta sequenceId=\"1\" language=\"en\"]".to_vec()
    );
    assert_eq!(
        rendered(&StructuredDataElement::meta(&sequence, Some(20000))),
        b"[meta sequenceId=\"2\" sysUpTime=\"2\" language=\"en\"]".to_vec()
    );
    assert_eq!(sequence.take(), 3);
}

#[test]
fn sequence_id_after_the_largest_is_one() {
    let sequence = SequenceId::starting_at(2147483647).unwrap();
    assert_eq!(
        rendered(&StructuredDataElement::meta(&sequence, None)),
        b"[meta sequenceId=\"2147483647\" language=\"en\"]".to_vec()
    );
    assert_eq!(
        rendered(&StructuredDataElement::meta(&sequence, None)),
        b"[meta sequenceId=\"1\" language=\"en\"]".to_vec()
    );
    assert_eq!(sequence.take(), 2);
    assert_eq!(syslog2::rfc5424::next_sequence_id(2147483647), 1);
    assert_eq!(syslog2::rfc5424::next_sequence_id(1), 2);
    assert_eq!(syslog2::rfc5424::next_sequence_id(2147483646), 2147483647);
}

#[test]
fn sequence_starts_at_a_positive_number_only() {
    assert!(SequenceId::starting_at(0).is_none());
    assert!(SequenceId::starting_at(-1).is_none());
    assert!(SequenceId::starting_at(i32::MIN).is_none());
    assert_eq!(SequenceId::starting_at(41).unwrap().take(), 41);
    assert_eq!(SequenceId::starting_at(1).unwrap().take(), 1);
}

#[test]
fn sequence_resumes_after_the_last_id() {
    assert!(SequenceId::resuming_after(0).is_none());
    assert!(SequenceId::resuming_after(-7).is_none());
    assert_eq!(SequenceId::resuming_after(41).unwrap().take(), 42);
    let sequence = SequenceId::resuming_after(2147483647).unwrap();
    assert_eq!(
        rendered(&StructuredDataElement::meta(&sequence, None)),
        b"[meta sequenceId=\"1\" language=\"en\"]".to_vec()
    );
    assert_eq!(sequence.take(), 2);
}

#[test]
fn element_of_any_id_and_parameters() {
    let id = TruncatedUsAsciiPrintableString::new_sd_name("exampleSDID@32473").unwrap();
    let iut = TruncatedUsAsciiPrintableString::new_sd_name("iut").unwrap();
    let source = TruncatedUsAsciiPrintableString::new_sd_name("eventSource").unwrap();
    let element = StructuredDataElement::new(
        id,
        vec![iut.parameter("3".to_owned()), source.parameter("App \"one\"".to_owned())],
    );
    assert_eq!(
        rendered(&element),
        b"[exampleSDID@32473 iut=\"3\" eventSource=\"App \\\"one\\\"\"]".to_vec()
    );
    let empty = StructuredDataElement::new(
        TruncatedUsAsciiPrintableString::new_sd_name("x").unwrap(),
        Vec::new(),
    );
    assert_eq!(rendered(&empty), b"[x]".to_vec());
}

#[test]
fn owned_counter_hands_out_the_id_that_is_up() {
    let mut counter = OwnedSequenceId::new();
    assert_eq!(counter.take(), 1);
    assert_eq!(counter.take(), 2);
    assert_eq!(counter.take(), 3);
    assert!(OwnedSequenceId::starting_at(0).is_none());
    assert!(OwnedSequenceId::starting_at(-1).is_none());
    assert!(OwnedSequenceId::resuming_after(0).is_none());
    assert_eq!(OwnedSequenceId::starting_at(41).unwrap().take(), 41);
    assert_eq!(OwnedSequenceId::resuming_after(41).unwrap().take(), 42);
}

#[test]
fn owned_counter_at_the_largest_id_goes_on_with_one() {
    let mut counter = OwnedSequenceId::starting_at(2147483647).unwrap();
    assert_eq!(counter.take(), 2147483647);
    assert_eq!(counter.take(), 1);
    assert_eq!(counter.take(), 2);
    let mut forced = OwnedSequenceId::resuming_after(2147483647).unwrap();
    assert_eq!(
        rendered(&StructuredDataElement::meta_with_owned_sequence(&mut forced, None)),
        b"[meta sequenceId=\"1\" language=\"en\"]".to_vec()
    );
    assert_eq!(
        rendered(&StructuredDataElement::meta_with_owned_sequence(&mut forced, Some(30000))),
        b"[meta sequenceId=\"2\" sysUpTime=\"3\" language=\"en\"]".to_vec()
    );
    let mut last = OwnedSequenceId::starting_at(2147483646).unwrap();
    assert_eq!(
        rendered(&StructuredDataElement::meta_with_owned_sequence(&mut last, None)),
        b"[meta sequenceId=\"2147483646\" language=\"en\"]".to_vec()
    );
    assert_eq!(
        rendered(&StructuredDataElement::meta_with_owned_sequence(&mut last, None)),
        b"[meta sequenceId=\"2147483647\" language=\"en\"]".to_vec()
    );
    assert_eq!(
        rendered(&StructuredDataElement::meta_with_owned_sequence(&mut last, None)),
        b"[meta sequenceId=\"1\" language=\"en\"]".to_vec()
    );
}

#[test]
fn shared_counter_goes_on_where_the_owned_one_stood() {
    let mut counter = OwnedSequenceId::new();
    assert_eq!(counter.take(), 1);
    assert_eq!(counter.take(), 2);
    let shared = counter.share();
    assert_eq!(shared.take(), 3);
    assert_eq!(shared.take(), 4);
    let at_max = OwnedSequenceId::starting_at(2147483647).unwrap().share();
    assert_eq!(at_max.take(), 2147483647);
    assert_eq!(at_max.take(), 1);
}

#[test]
fn counter_that_holds_no_sequence_id_hands_out_one() {
    assert_eq!(id_of(1), 1);
    assert_eq!(id_of(2147483647), 2147483647);
    assert_eq!(id_of(0), 1);
    assert_eq!(id_of(-1), 1);
    assert_eq!(id_of(i32::MIN), 1);
}

#[test]
fn sequence_ids_are_handed_out_once_each() {
    let sequence = SequenceId::new();
    let taken: Vec<i32> = (0..1000).map(|_| sequence.take()).collect();
    let expected: Vec<i32> = (1..=1000).collect();
    assert_eq!(taken, expected);
}

#[test]
fn structured_data_keeps_one_element_of_each_id() {
    let mut structured_data = StructuredData::new();
    assert!(structured_data.is_empty());
    assert!(structured_data.insert(StructuredDataElement::timeQuality(true, true, 1)));
    assert!(structured_data.insert(StructuredDataElement::meta_with_sequence_id(9, None)));
    assert!(!structured_data.insert(StructuredDataElement::timeQuality(false, false, 0)));
    assert_eq!(structured_data.len(), 2);
    assert!(!structured_data.is_empty());
    assert!(structured_data.contains(&StructuredDataElement::timeQuality(false, false, 0)));
    assert!(!structured_data.contains(&StructuredDataElement::origin(1, "a", "b", &Vec::new())));
    let mut writer: Vec<u8> = Vec::new();
    write_structured_data_elements(&mut writer, &structured_data);
    assert_eq!(
        writer,
        b"[timeQuality tzKnown=\"1\" isSynced=\"1\" syncAccuracy=\"1\"][meta sequenceId=\"9\" language=\"en\"]"
            .to_vec()
    );
}

#[test]
fn elements_are_equal_where_their_ids_are() {
    assert!(
        StructuredDataElement::timeQuality(true, true, 1)
            == StructuredDataElement::timeQuality(false, false, 0)
    );
    assert!(
        StructuredDataElement::timeQuality(true, true, 1)
            != StructuredDataElement::meta_with_sequence_id(1, None)
    );
}

#[test]
fn empty_structured_data_is_a_hyphen() {
    let mut writer: Vec<u8> = b"x".to_vec();
    write_structured_data_elements(&mut writer, &StructuredData::new());
    assert_eq!(writer, b"x-".to_vec());
}

#[test]
fn legacy_format_of_a_fixed_message() {
    let rfc = SyslogRfcConstructor::Rfc3164.new(&process(), "");
    let bytes = rfc.write(
        time(),
        Rfc3164Facility::user,
        Severity::LOG_ERR,
        &StructuredData::new(),
        "HelloWorld",
    );
    assert_eq!(
        String::from_utf8(bytes).unwrap(),
        "<11>May 08 14:23:19 macpro myprogram[5]: HelloWorld"
    );
}

#[test]
fn legacy_format_leaves_structured_data_out() {
    let rfc = SyslogRfcConstructor::Rfc3164.new(&process(), "ID47");
    let mut structured_data = StructuredData::new();
    structured_data.insert(StructuredDataElement::timeQuality(true, true, 1));
    let bytes = rfc.write(
        Timestamp::new(1999, 12, 31, 23, 59, 59, 0).unwrap(),
        Rfc3164Facility::local7,
        Severity::LOG_DEBUG,
        &structured_data,
        "",
    );
    assert_eq!(String::from_utf8(bytes).unwrap(), "<191>Dec 31 23:59:59 macpro myprogram[5]: ");
}

#[test]
fn structured_format_with_empty_structured_data() {
    let rfc = SyslogRfcConstructor::Rfc5424.new(&process(), "ID47");
    let bytes = rfc.write(
        time(),
        Rfc3164Facility::user,
        Severity::LOG_ERR,
        &StructuredData::new(),
        "HelloWorld",
    );
    let mut expected =
        b"<11>1 2016-05-08T14:23:19.854377Z macpro.example.com myprogram 5 ID47 - ".to_vec();
    expected.extend_from_slice(&[0xef, 0xbb, 0xbf]);
    expected.extend_from_slice(b"HelloWorld");
    assert_eq!(bytes, expected);
}

#[test]
fn structured_format_with_structured_data() {
    let rfc = SyslogRfcConstructor::Rfc5424.new(&process(), "");
    let mut structured_data = StructuredData::new();
    structured_data.insert(StructuredDataElement::timeQuality(true, false, 0));
    structured_data.insert(StructuredDataElement::meta_with_sequence_id(3, Some(1_000_000)));
    let bytes = rfc.write(
        Timestamp::new(7, 1, 2, 3, 4, 5, 6).unwrap(),
        Rfc3164Facility::local0,
        Severity::LOG_EMERG,
        &structured_data,
        "gr\u{fc}\u{df}e",
    );
    let mut expected = b"<128>1 0007-01-02T03:04:05.000006Z macpro.example.com myprogram 5 - [timeQuality tzKnown=\"1\" isSynced=\"0\" syncAccuracy=\"0\"][meta sequenceId=\"3\" sysUpTime=\"100\" language=\"en\"] ".to_vec();
    expected.extend_from_slice(&[0xef, 0xbb, 0xbf]);
    expected.extend_from_slice("gr\u{fc}\u{df}e".as_bytes());
    assert_eq!(bytes, expected);
}

#[test]
fn every_month_has_its_name() {
    let rfc = SyslogRfcConstructor::Rfc3164.new(&process(), "");
    let names = ["Jan", "Feb", "Mar", "Apr", "May", "Jun", "Jul", "Aug", "Sep", "Oct", "Nov", "Dec"];
    for (index, name) in names.iter().enumerate() {
        let time = Timestamp::new(2020, (index + 1) as u8, 1, 0, 0, 0, 0).unwrap();
        let bytes =
            rfc.write(time, Rfc3164Facility::kern, Severity::LOG_EMERG, &StructuredData::new(), "m");
        assert_eq!(
            String::from_utf8(bytes).unwrap(),
            format!("<0>{} 01 00:00:00 macpro myprogram[5]: m", name)
        );
    }
}

#[test]
fn unknown_names_are_written_as_nil() {
    let unknown = Process {
        hostName: String::new(),
        hostNameWithoutDomain: String::new(),
        programName: String::new(),
        pid: -17,
    };
    let legacy = SyslogRfcConstructor::Rfc3164.new(&unknown, "");
    let bytes = legacy.write(
        time(),
        Rfc3164Facility::daemon,
        Severity::LOG_INFO,
        &StructuredData::new(),
        "x",
    );
    assert_eq!(String::from_utf8(bytes).unwrap(), "<30>May 08 14:23:19 - -[-17]: x");
    let structured = SyslogRfcConstructor::Rfc5424.new(&unknown, "");
    let bytes = structured.write(
        time(),
        Rfc3164Facility::daemon,
        Severity::LOG_INFO,
        &StructuredData::new(),
        "",
    );
    let mut expected = b"<30>1 2016-05-08T14:23:19.854377Z - - -17 - - ".to_vec();
    expected.extend_from_slice(&[0xef, 0xbb, 0xbf]);
    assert_eq!(bytes, expected);
}

#[test]
fn names_are_cut_off_at_the_length_that_their_format_allows() {
    let long = "0123456789".repeat(30);
    let process = Process {
        hostName: long.clone(),
        hostNameWithoutDomain: long.clone(),
        programName: long.clone(),
        pid: i32::MIN,
    };
    match SyslogRfcConstructor::Rfc3164.new(&process, &long) {
        SyslogRfc::Rfc3164 { hostNameWithoutDomain, appName, processId } => {
            assert_eq!(hostNameWithoutDomain.as_bytes(), long[..255].as_bytes());
            assert_eq!(appName.as_bytes(), long[..32].as_bytes());
            assert_eq!(processId.as_bytes(), b"-2147483648");
        },
        SyslogRfc::Rfc5424 { .. } => panic!("the legacy format was asked for"),
    }
    match SyslogRfcConstructor::Rfc5424.new(&process, &long) {
        SyslogRfc::Rfc5424 { hostName, appName, processId, messageId } => {
            assert_eq!(hostName.as_bytes(), long[..255].as_bytes());
            assert_eq!(appName.as_bytes(), long[..48].as_bytes());
            assert_eq!(processId.as_bytes(), b"-2147483648");
            assert_eq!(messageId.as_bytes(), long[..32].as_bytes());
        },
        SyslogRfc::Rfc3164 { .. } => panic!("the structured format was asked for"),
    }
    assert_eq!(SyslogRfcConstructor::Rfc3164.maximum_app_name_length(), 32);
    assert_eq!(SyslogRfcConstructor::Rfc5424.maximum_app_name_length(), 48);
}

#[test]
fn timestamp_refuses_what_is_out_of_range() {
    assert!(Timestamp::new(2016, 5, 8, 14, 23, 19, 854377).is_some());
    assert!(Timestamp::new(0, 1, 1, 0, 0, 0, 0).is_some());
    assert!(Timestamp::new(9999, 12, 31, 23, 59, 59, 999_999).is_some());
    assert!(Timestamp::new(10000, 1, 1, 0, 0, 0, 0).is_none());
    assert!(Timestamp::new(2016, 0, 1, 0, 0, 0, 0).is_none());
    assert!(Timestamp::new(2016, 13, 1, 0, 0, 0, 0).is_none());
    assert!(Timestamp::new(2016, 1, 0, 0, 0, 0, 0).is_none());
    assert!(Timestamp::new(2016, 1, 32, 0, 0, 0, 0).is_none());
    assert!(Timestamp::new(2016, 1, 1, 24, 0, 0, 0).is_none());
    assert!(Timestamp::new(2016, 1, 1, 0, 60, 0, 0).is_none());
    assert!(Timestamp::new(2016, 1, 1, 0, 0, 60, 0).is_none());
    assert!(Timestamp::new(2016, 1, 1, 0, 0, 0, 1_000_000).is_none());
}

fn broken_down() -> BrokenDownTime {
    BrokenDownTime {
        tm_sec: 19,
        tm_min: 23,
        tm_hour: 14,
        tm_mday: 8,
        tm_mon: 4,
        tm_year: 116,
        tm_nsec: 854377999,
    }
}

#[test]
fn broken_down_time_counts_months_from_zero_and_years_from_1900() {
    assert_eq!(Timestamp::from_broken_down_time(&broken_down()), Some(time()));
    let mut writer: Vec<u8> = Vec::new();
    Timestamp::from_broken_down_time(&broken_down()).unwrap().write_structured(&mut writer);
    assert_eq!(String::from_utf8(writer).unwrap(), "2016-05-08T14:23:19.854377Z");
    let mut writer: Vec<u8> = Vec::new();
    Timestamp::from_broken_down_time(&broken_down()).unwrap().write_legacy(&mut writer);
    assert_eq!(String::from_utf8(writer).unwrap(), "May 08 14:23:19");
}

#[test]
fn leap_second_is_written_as_the_second_before() {
    let mut tm = broken_down();
    tm.tm_sec = 60;
    assert_eq!(
        Timestamp::from_broken_down_time(&tm),
        Timestamp::new(2016, 5, 8, 14, 23, 59, 854377)
    );
    tm.tm_sec = 61;
    assert_eq!(Timestamp::from_broken_down_time(&tm), None);
}

#[test]
fn broken_down_time_out_of_range_is_refused() {
    let mut tm = broken_down();
    tm.tm_mon = 12;
    assert_eq!(Timestamp::from_broken_down_time(&tm), None);
    let mut tm = broken_down();
    tm.tm_mon = -1;
    assert_eq!(Timestamp::from_broken_down_time(&tm), None);
    let mut tm = broken_down();
    tm.tm_year = 8100;
    assert_eq!(Timestamp::from_broken_down_time(&tm), None);
    let mut tm = broken_down();
    tm.tm_year = 8099;
    assert_eq!(Timestamp::from_broken_down_time(&tm), Timestamp::new(9999, 5, 8, 14, 23, 19, 854377));
    let mut tm = broken_down();
    tm.tm_year = -1900;
    assert_eq!(Timestamp::from_broken_down_time(&tm), Timestamp::new(0, 5, 8, 14, 23, 19, 854377));
    let mut tm = broken_down();
    tm.tm_year = -1901;
    assert_eq!(Timestamp::from_broken_down_time(&tm), None);
    let mut tm = broken_down();
    tm.tm_nsec = 1_000_000_000;
    assert_eq!(Timestamp::from_broken_down_time(&tm), None);
    let mut tm = broken_down();
    tm.tm_mday = 0;
    assert_eq!(Timestamp::from_broken_down_time(&tm), None);
    let mut tm = broken_down();
    tm.tm_hour = 24;
    assert_eq!(Timestamp::from_broken_down_time(&tm), None);
    let mut tm = broken_down();
    tm.tm_min = -1;
    assert_eq!(Timestamp::from_broken_down_time(&tm), None);
}

#[test]
fn the_clock_gives_a_time_of_message() {
    let now = Timestamp::now().unwrap();
    let mut writer: Vec<u8> = Vec::new();
    now.write_structured(&mut writer);
    let text = String::from_utf8(writer).unwrap();
    assert_eq!(text.len(), 27);
    assert!(text.as_str() > "2024-01-01T00:00:00.000000Z");
    assert!(text.ends_with('Z'));
}

#[test]
fn message_of_now_differs_from_one_of_a_fixed_time_in_its_time_only() {
    let rfc = SyslogRfcConstructor::Rfc5424.new(&process(), "ID47");
    let bytes = rfc
        .write_now(Rfc3164Facility::user, Severity::LOG_ERR, &StructuredData::new(), "HelloWorld")
        .unwrap();
    let fixed = rfc.write(
        time(),
        Rfc3164Facility::user,
        Severity::LOG_ERR,
        &StructuredData::new(),
        "HelloWorld",
    );
    assert_eq!(bytes.len(), fixed.len());
    assert_eq!(bytes[..6], fixed[..6]);
    assert_eq!(bytes[6 + 27..], fixed[6 + 27..]);
    assert_ne!(bytes[6..6 + 27], fixed[6..6 + 27]);
}
