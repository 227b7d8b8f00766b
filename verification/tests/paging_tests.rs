use std::ops::Deref;

use base64::{engine::general_purpose, Engine as _};
use tokend::util::decimal::{decimal_string, parse_i64};
use tokend::util::left_pad;
use tokend::util::misc::{eq_ignore_ascii_case, pad_text, same_text};
use tokend::util::paging::position_of_payload;
use tokend::util::{IntCursor, PageInfos, Paging};

#[test]
fn left_pad_nominal_case() {
    assert_eq!(left_pad("HOG", 8, '_'), "_____HOG".to_string());
}

#[test]
fn left_pad_nominal_empty_case() {
    assert_eq!(left_pad("", 8, '_'), "________".to_string());
}

#[test]
fn left_pad_value_already_too_long() {
    assert_eq!(left_pad("HOGWARD", 4, '_'), "HOGWARD".to_string());
}

#[test]
fn left_pad_of_a_number() {
    assert_eq!(left_pad(37_i64, 4, '0'), "0037");
    assert_eq!(left_pad(-37_i64, 6, ' '), "   -37");
}

#[test]
fn pad_text_counts_bytes_and_pads_with_characters() {
    assert_eq!(pad_text("é", 4, 'ü'), "üüé");
    assert_eq!(pad_text("abcd", 4, '_'), "abcd");
    assert_eq!(pad_text("abc", 0, '_'), "abc");
}

#[test]
fn texts_compare_exactly_or_without_ascii_case() {
    assert!(same_text("root", "root"));
    assert!(!same_text("root", "Root"));
    assert!(!same_text("root", "roots"));
    assert!(eq_ignore_ascii_case("Tenants_Code_KEY", "tenants_code_key"));
    assert!(!eq_ignore_ascii_case("tenants_code_key", "tenants_code_ke"));
    assert!(!eq_ignore_ascii_case("É", "é"));
    assert!(!eq_ignore_ascii_case("@", "`"));
}

#[test]
fn decimal_string_writes_every_kind_of_number() {
    assert_eq!(decimal_string(0), "0");
    assert_eq!(decimal_string(7), "7");
    assert_eq!(decimal_string(10), "10");
    assert_eq!(decimal_string(-1), "-1");
    assert_eq!(decimal_string(1234567890), "1234567890");
    assert_eq!(decimal_string(i64::MAX), "9223372036854775807");
    assert_eq!(decimal_string(i64::MIN), "-9223372036854775808");
}

#[test]
fn parse_i64_reads_what_the_standard_parser_reads() {
    for text in vec![
        "0", "17", "+17", "-17", "-0", "+0", "0017", "9223372036854775807",
        "-9223372036854775808", "9223372036854775808", "-9223372036854775809",
        "00000000000000000000000000000000000000000042", "99999999999999999999999999", "", "+",
        "-", "--1", "+-1", "1-", "1 ", " 1", "1.0", "0x10", "1e3", "١٢", "12a",
    ] {
        assert_eq!(parse_i64(text.as_bytes()), text.parse::<i64>().ok());
    }
    assert_eq!(parse_i64(b"+17"), Some(17));
    assert_eq!(parse_i64(b"-9223372036854775808"), Some(i64::MIN));
    assert_eq!(parse_i64(b"9223372036854775808"), None);
}

#[test]
fn parse_i64_reads_back_what_decimal_string_wrote() {
    for v in vec![0, 1, -1, 9, 10, 99, 100, -100, 487, i64::MAX, i64::MIN, i64::MIN + 1] {
        assert_eq!(parse_i64(decimal_string(v).as_bytes()), Some(v));
    }
}

#[test]
fn page_infos_should_encode_after_cursor_case_1() {
    let page_infos = PageInfos::page_after(17, true);

    assert_eq!(&page_infos.has_next_page(), &true);
    assert_eq!(&page_infos.after(), &Some("MTc=".to_string()));
}

#[test]
fn page_infos_should_encode_after_cursor_case_2() {
    let page_infos = PageInfos::page_after(23, false);

    assert_eq!(&page_infos.has_next_page(), &false);
    assert_eq!(&page_infos.after(), &Some("MjM=".to_string()));
}

#[test]
fn no_page_after() {
    let page_infos = PageInfos::no_page_after();

    assert_eq!(&page_infos.has_next_page(), &false);
    assert_eq!(&page_infos.after(), &None);
}

#[test]
fn int_cursor_roundtrip_from_page_to_paging_to_cursor() {
    let page_infos = PageInfos::page_after(17, true);
    let paging = Paging::new(5, page_infos.after);
    let cursor: IntCursor = paging.into();

    assert_eq!(cursor.deref(), &17_i64);
}

#[test]
fn int_cursor_roundtrip_for_many_positions() {
    for v in vec![0, 1, -1, 9, 10, 487, -487, i64::MAX, i64::MIN] {
        let page_infos = PageInfos::page_after(v, true);
        let cursor = IntCursor::after(&page_infos.after());
        assert_eq!(*cursor, v);
    }
}

#[test]
fn int_cursor_from_paging_with_none_as_cursor() {
    let paging = Paging::new(5, None);
    let cursor: IntCursor = paging.into();

    assert_eq!(cursor.deref(), &0_i64);
}

#[test]
fn int_cursor_from_paging_with_invalid_base64() {
    let paging = Paging::new(5, Some("yuk".to_string()));
    let cursor: IntCursor = paging.into();

    assert_eq!(cursor.deref(), &0_i64);
}

#[test]
fn int_cursor_from_paging_with_base64_cursor() {
    let paging = Paging::new(5, Some(general_purpose::STANDARD.encode("487")));
    let cursor: IntCursor = paging.into();

    assert_eq!(cursor.deref(), &487_i64);
}

#[test]
fn int_cursor_from_paging_with_base64_cursor_and_extra_data() {
    let paging = Paging::new(
        5,
        Some(general_purpose::STANDARD.encode("467;firstname;463")),
    );
    let cursor: IntCursor = paging.into();

    assert_eq!(cursor.deref(), &467_i64);
}

#[test]
fn int_cursor_from_payload_that_is_not_utf8() {
    let token = general_purpose::STANDARD.encode([0x31_u8, 0x37, 0x3b, 0xff]);
    let cursor: IntCursor = Paging::new(5, Some(token)).into();
    assert_eq!(cursor.deref(), &0_i64);
    assert_eq!(position_of_payload(&[0x31, 0x37, 0x3b, 0xff]), 0);
    assert_eq!(position_of_payload(&[0x31, 0x37, 0x3b, 0xc3, 0xa9]), 17);
}

#[test]
fn int_cursor_from_payload_whose_first_field_is_no_number() {
    for payload in vec!["", ";17", "abc;17", "17a", "1 7", "9223372036854775808;1"] {
        let token = general_purpose::STANDARD.encode(payload);
        let cursor: IntCursor = Paging::new(5, Some(token)).into();
        assert_eq!(cursor.deref(), &0_i64);
    }
    assert_eq!(position_of_payload(b"-12;x"), -12);
    assert_eq!(position_of_payload(b"+12"), 12);
    assert_eq!(position_of_payload(b"12;"), 12);
}
