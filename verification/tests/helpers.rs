use syslog2::chosen_facility;
use syslog2::decimal::decimal_string;
use syslog2::decimal::push_decimal;
use syslog2::decimal::push_decimal_digits;
use syslog2::decimal::push_zero_padded;
use syslog2::decimal::unsigned_decimal_string;
use syslog2::standard_error_line;
use syslog2::syslogSenders::bytes_before_nul;
use syslog2::utf8::push_utf8;
use syslog2::Facility;
use syslog2::Platform;
use syslog2::Process;
use syslog2::SyslogRfcConstructor;
use syslog2::Timestamp;

fn digits(n: u64) -> String {
    let mut writer: Vec<u8> = Vec::new();
    push_decimal_digits(&mut writer, n);
    String::from_utf8(writer).unwrap()
}

fn signed(v: i64) -> String {
    let mut writer: Vec<u8> = Vec::new();
    push_decimal(&mut writer, v);
    String::from_utf8(writer).unwrap()
}

fn padded(n: u32, width: usize) -> String {
    let mut writer: Vec<u8> = b">".to_vec();
    push_zero_padded(&mut writer, n, width);
    String::from_utf8(writer).unwrap()
}

#[test]
fn decimal_digits_of_numbers() {
    assert_eq!(digits(0), "0");
    assert_eq!(digits(7), "7");
    assert_eq!(digits(10), "10");
    assert_eq!(digits(191), "191");
    assert_eq!(digits(1_000_000), "1000000");
    assert_eq!(digits(u64::MAX), "18446744073709551615");
}

#[test]
fn decimal_of_signed_numbers() {
    assert_eq!(signed(0), "0");
    assert_eq!(signed(-1), "-1");
    assert_eq!(signed(42), "42");
    assert_eq!(signed(i64::MAX), "9223372036854775807");
    assert_eq!(signed(i64::MIN), "-9223372036854775808");
    assert_eq!(decimal_string(0), "0");
    assert_eq!(decimal_string(-905), "-905");
    assert_eq!(decimal_string(i64::MIN), "-9223372036854775808");
    assert_eq!(decimal_string(i64::MAX), "9223372036854775807");
    assert_eq!(unsigned_decimal_string(0), "0");
    assert_eq!(unsigned_decimal_string(9_223_372_036_854_775_807), "9223372036854775807");
    assert_eq!(unsigned_decimal_string(9_223_372_036_854_775_808), "9223372036854775808");
    assert_eq!(unsigned_decimal_string(u64::MAX), "18446744073709551615");
}

#[test]
fn zero_padding_fills_the_width() {
    assert_eq!(padded(8, 2), ">08");
    assert_eq!(padded(0, 2), ">00");
    assert_eq!(padded(14, 2), ">14");
    assert_eq!(padded(2016, 4), ">2016");
    assert_eq!(padded(7, 4), ">0007");
    assert_eq!(padded(854377, 6), ">854377");
    assert_eq!(padded(6, 6), ">000006");
    assert_eq!(padded(123, 2), ">123");
    assert_eq!(padded(5, 0), ">5");
    assert_eq!(padded(u32::MAX, 3), ">4294967295");
}

#[test]
fn characters_in_utf8() {
    for c in [
        '\u{0}', 'a', '\u{7f}', '\u{80}', '\u{e9}', '\u{7ff}', '\u{800}', '\u{20ac}', '\u{d7ff}',
        '\u{e000}', '\u{ffff}', '\u{10000}', '\u{1f600}', '\u{10ffff}',
    ] {
        let mut writer: Vec<u8> = vec![1];
        push_utf8(&mut writer, c);
        let mut expected: Vec<u8> = vec![1];
        let mut buffer = [0u8; 4];
        expected.extend_from_slice(c.encode_utf8(&mut buffer).as_bytes());
        assert_eq!(writer, expected);
    }
}

#[test]
fn every_character_in_utf8() {
    let mut buffer = [0u8; 4];
    for code in (0u32..0x11_0000).step_by(7) {
        if let Some(c) = char::from_u32(code) {
            let mut writer: Vec<u8> = Vec::new();
            push_utf8(&mut writer, c);
            assert_eq!(writer.as_slice(), c.encode_utf8(&mut buffer).as_bytes());
        }
    }
}

#[test]
fn message_is_taken_up_to_its_first_zero_byte() {
    assert_eq!(bytes_before_nul(b""), 0);
    assert_eq!(bytes_before_nul(b"abc"), 3);
    assert_eq!(bytes_before_nul(b"abc\0"), 3);
    assert_eq!(bytes_before_nul(b"ab\0c\0"), 2);
    assert_eq!(bytes_before_nul(b"\0abc"), 0);
}

#[test]
fn standard_error_facility_is_the_default_for_the_kernel() {
    let common = Platform::Common;
    assert_eq!(chosen_facility(3, Facility::LOG_MAIL, common), Facility::LOG_MAIL);
    assert_eq!(chosen_facility(11, Facility::LOG_MAIL, common), Facility::LOG_USER);
    assert_eq!(chosen_facility(0, Facility::LOG_KERN, common), Facility::LOG_KERN);
    assert_eq!(chosen_facility((12 << 3) | 1, Facility::LOG_LOCAL2, common), Facility::LOG_LOCAL2);
    assert_eq!(chosen_facility((12 << 3) | 1, Facility::LOG_LOCAL2, Platform::MacOs), Facility::LOG_NETINFO);
    assert_eq!(chosen_facility((10 << 3) | 1, Facility::LOG_LOCAL2, Platform::Solaris), Facility::LOG_LOCAL2);
    assert_eq!(chosen_facility(191, Facility::LOG_MAIL, common), Facility::LOG_LOCAL7);
}

#[test]
fn standard_error_line_ends_the_line() {
    let process = Process {
        hostName: "macpro.example.com".to_owned(),
        hostNameWithoutDomain: "macpro".to_owned(),
        programName: "myprogram".to_owned(),
        pid: 5,
    };
    let rfc = SyslogRfcConstructor::Rfc3164.new(&process, "");
    let time = Timestamp::new(2016, 5, 8, 14, 23, 19, 0).unwrap();
    assert_eq!(
        String::from_utf8(standard_error_line(
            &rfc,
            time,
            2,
            Facility::LOG_DAEMON,
            Platform::Common,
            "Panic:hello"
        ))
            .unwrap(),
        "<26>May 08 14:23:19 macpro myprogram[5]: Panic:hello\r\n"
    );
    assert_eq!(
        String::from_utf8(standard_error_line(
            &rfc,
            time,
            72,
            Facility::LOG_DAEMON,
            Platform::Solaris,
            ""
        ))
        .unwrap(),
        "<72>May 08 14:23:19 macpro myprogram[5]: \r\n"
    );
    let structured = SyslogRfcConstructor::Rfc5424.new(&process, "");
    let mut expected = b"<26>1 2016-05-08T14:23:19.000000Z macpro.example.com myprogram 5 - - ".to_vec();
    expected.extend_from_slice(&[0xef, 0xbb, 0xbf]);
    expected.extend_from_slice(b"x\r\n");
    assert_eq!(
        standard_error_line(&structured, time, 2, Facility::LOG_DAEMON, Platform::Common, "x"),
        expected
    );
    assert_eq!(
        String::from_utf8(standard_error_line(
            &rfc,
            time,
            (13 << 3) | 4,
            Facility::LOG_USER,
            Platform::FreeBsd,
            "x"
        ))
        .unwrap(),
        "<84>May 08 14:23:19 macpro myprogram[5]: x\r\n"
    );
}
