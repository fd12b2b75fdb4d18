use iracing_broadcast::util::pad_car_number;
use iracing_broadcast::util::parse_u16;
use std::collections::HashMap;

#[test]
fn car_number_without_padding_is_its_value() {
    assert_eq!(pad_car_number("1"), 1);
    assert_eq!(pad_car_number("12"), 12);
    assert_eq!(pad_car_number("123"), 123);
    assert_eq!(pad_car_number("999"), 999);
    assert_eq!(pad_car_number("65535"), 65535);
}

#[test]
fn car_number_padding_moves_to_thousands() {
    assert_eq!(pad_car_number("01"), 2001);
    assert_eq!(pad_car_number("001"), 3001);
    assert_eq!(pad_car_number("064"), 3064);
    assert_eq!(pad_car_number("007"), 3007);
    assert_eq!(pad_car_number("010"), 3010);
    assert_eq!(pad_car_number("0123"), 4123);
    assert_eq!(pad_car_number("0001"), 4001);
}

#[test]
fn car_number_of_zeros_only() {
    assert_eq!(pad_car_number("0"), 0);
    assert_eq!(pad_car_number("00"), 2000);
    assert_eq!(pad_car_number("000"), 3000);
}

#[test]
fn car_number_that_is_no_number_is_zero() {
    assert_eq!(pad_car_number(""), 0);
    assert_eq!(pad_car_number("abc"), 0);
    assert_eq!(pad_car_number("12a"), 0);
    assert_eq!(pad_car_number(" 1"), 0);
    assert_eq!(pad_car_number("1 "), 0);
    assert_eq!(pad_car_number("-1"), 0);
    assert_eq!(pad_car_number("1_0"), 0);
    assert_eq!(pad_car_number("\u{663}"), 0);
    assert_eq!(pad_car_number("65536"), 0);
    assert_eq!(pad_car_number("99999999999999999999999"), 0);
}

#[test]
fn car_number_with_plus_sign() {
    assert_eq!(pad_car_number("+7"), 7);
    assert_eq!(pad_car_number("+07"), 7);
    assert_eq!(pad_car_number("+"), 0);
    assert_eq!(pad_car_number("0+7"), 2000);
}

#[test]
fn car_number_padding_counts_for_a_malformed_rest() {
    assert_eq!(pad_car_number("0x"), 2000);
    assert_eq!(pad_car_number("00x"), 3000);
}

#[test]
fn car_number_code_is_cut_to_sixteen_bits() {
    assert_eq!(pad_car_number("065535"), 3999);
    let zeros: String = "0".repeat(70);
    assert_eq!(pad_car_number(&zeros), 4464);
    let long: String = "0".repeat(65_536) + "1";
    assert_eq!(pad_car_number(&long), 1001);
}

#[test]
fn car_number_agrees_with_the_standard_parser() {
    let texts = [
        "0", "1", "9", "10", "99", "100", "999", "1000", "65535", "65536", "+1", "-1", "", "x",
        "1x", "+", "++1", "００１", "1.0", "0x10",
    ];
    for text in texts {
        let expected: u16 = text.parse().unwrap_or(0);
        assert_eq!(parse_u16(text.as_bytes()).unwrap_or(0), expected);
        assert_eq!(parse_u16(text.as_bytes()).is_some(), text.parse::<u16>().is_ok());
    }
}

#[test]
fn parse_u16_reads_decimal_numbers() {
    assert_eq!(parse_u16(b"0"), Some(0));
    assert_eq!(parse_u16(b"42"), Some(42));
    assert_eq!(parse_u16(b"00042"), Some(42));
    assert_eq!(parse_u16(b"+42"), Some(42));
    assert_eq!(parse_u16(b"65535"), Some(65535));
    assert_eq!(parse_u16(b"0000065535"), Some(65535));
}

#[test]
fn parse_u16_rejects_everything_else() {
    assert_eq!(parse_u16(b""), None);
    assert_eq!(parse_u16(b"+"), None);
    assert_eq!(parse_u16(b"-"), None);
    assert_eq!(parse_u16(b"-0"), None);
    assert_eq!(parse_u16(b"+-1"), None);
    assert_eq!(parse_u16(b"65536"), None);
    assert_eq!(parse_u16(b"655350"), None);
    assert_eq!(parse_u16(b"4294967297"), None);
    assert_eq!(parse_u16(b"12 "), None);
    assert_eq!(parse_u16(b"/"), None);
    assert_eq!(parse_u16(b":"), None);
}

#[test]
fn car_numbers_below_a_thousand_never_collide() {
    let mut seen: HashMap<u16, String> = HashMap::new();
    let mut value: u32 = 0;
    while value <= 999 {
        let plain: String = format!("{}", value);
        let mut zeros: usize = 0;
        while zeros <= 6 {
            let text: String = "0".repeat(zeros) + &plain;
            let code: u16 = pad_car_number(&text);
            let earlier = seen.insert(code, text.clone());
            assert!(earlier.is_none(), "{} and {:?} share code {}", text, earlier, code);
            zeros += 1;
        }
        value += 1;
    }
    assert_eq!(seen.len(), 7000);
}

#[test]
fn car_number_codes_keep_the_order() {
    assert!(pad_car_number("1") < pad_car_number("2"));
    assert!(pad_car_number("9") < pad_car_number("10"));
    assert!(pad_car_number("01") < pad_car_number("02"));
    assert!(pad_car_number("09") < pad_car_number("010"));
    assert!(pad_car_number("7") < pad_car_number("07"));
    assert!(pad_car_number("07") < pad_car_number("007"));
    assert_eq!(pad_car_number("09"), 2009);
    assert_eq!(pad_car_number("010"), 3010);
    assert_eq!(pad_car_number("0100"), 4100);
}

#[test]
fn car_numbers_beyond_the_bands_can_collide() {
    assert_eq!(pad_car_number("2001"), 2001);
    assert_eq!(pad_car_number("01"), 2001);
    assert_eq!(pad_car_number("01000"), 5000);
    assert_eq!(pad_car_number("00000"), 5000);
}
