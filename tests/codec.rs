use mesh_explorer::codec::{base64_to_hex, hex_encode, hex_to_bytes, short_hex};
use mesh_explorer::search::{search_layer_id, search_redirect};
use mesh_explorer::timefmt::{genesis_time, timestamp_text};

#[test]
fn hex_encode_two_digits_per_byte() {
    assert_eq!(hex_encode(&[0x00, 0x0f, 0xab, 0xff]), "000fabff");
}

#[test]
fn hex_encode_empty_input() {
    assert_eq!(hex_encode(&[]), "");
}

#[test]
fn short_hex_keeps_last_six_bytes() {
    let bytes = [1u8, 2, 3, 4, 5, 6, 7, 8];
    assert_eq!(short_hex(&bytes), "030405060708");
}

#[test]
fn short_hex_keeps_all_of_a_short_id() {
    assert_eq!(short_hex(&[0xde, 0xad, 0xbe]), "deadbe");
}

#[test]
fn base64_to_hex_known_value() {
    assert_eq!(base64_to_hex("YWJj"), Some("616263".to_string()));
}

#[test]
fn base64_to_hex_empty_text() {
    assert_eq!(base64_to_hex(""), Some(String::new()));
}

#[test]
fn base64_to_hex_rejects_invalid_text() {
    assert_eq!(base64_to_hex("!!!!"), None);
    assert_eq!(base64_to_hex("YWJ"), None);
}

#[test]
fn hex_to_bytes_accepts_both_cases() {
    assert_eq!(hex_to_bytes("0aFF"), Some(vec![0x0a, 0xff]));
}

#[test]
fn hex_to_bytes_rejects_odd_length_and_bad_digits() {
    assert_eq!(hex_to_bytes("abc"), None);
    assert_eq!(hex_to_bytes("zz"), None);
}

#[test]
fn genesis_time_renders_utc_calendar_time() {
    assert_eq!(genesis_time("1600000000"), Some("2020-09-13 12:26:40".to_string()));
}

#[test]
fn genesis_time_epoch_and_sign() {
    assert_eq!(genesis_time("0"), Some("1970-01-01 00:00:00".to_string()));
    assert_eq!(genesis_time("+5"), Some("1970-01-01 00:00:05".to_string()));
}

#[test]
fn genesis_time_rejects_non_numbers_and_overflow() {
    assert_eq!(genesis_time("abc"), None);
    assert_eq!(genesis_time(""), None);
    assert_eq!(genesis_time(" 1"), None);
    assert_eq!(genesis_time("9223372036854775807"), None);
}

#[test]
fn timestamp_text_from_nanoseconds() {
    assert_eq!(
        timestamp_text(1_600_000_000_123_000_000),
        Some("2020-09-13 12:26:40.123".to_string())
    );
    assert_eq!(timestamp_text(1_600_000_000_000_999_999), Some("2020-09-13 12:26:40".to_string()));
}

#[test]
fn search_layer_id_parses_decimal_i32() {
    assert_eq!(search_layer_id("12"), Some(12));
    assert_eq!(search_layer_id("-3"), Some(-3));
    assert_eq!(search_layer_id("abc"), None);
    assert_eq!(search_layer_id("99999999999"), None);
}

#[test]
fn search_redirect_prefers_layer_then_account() {
    assert_eq!(search_redirect("12", true, true), "/layer/12");
    assert_eq!(search_redirect("00ab", false, true), "/account/00ab");
    assert_eq!(search_redirect("nothing", false, false), "/");
}
