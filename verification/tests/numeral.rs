use bian_rs::error::APIError;
use bian_rs::numeral::string_as_usize;
use bian_rs::text::decimal_string;

#[test]
fn numerals_are_read() {
    assert_eq!(string_as_usize("0").unwrap(), 0);
    assert_eq!(string_as_usize("20").unwrap(), 20);
    assert_eq!(string_as_usize("+7").unwrap(), 7);
    assert_eq!(string_as_usize("007").unwrap(), 7);
    assert_eq!(string_as_usize("120000").unwrap(), 120000);
    assert_eq!(string_as_usize(&usize::MAX.to_string()).unwrap(), usize::MAX);
}

#[test]
fn other_text_is_a_decode_failure() {
    let fault = string_as_usize("12a").unwrap_err();
    assert!(matches!(&fault, APIError::DecodeError(m) if m == "invalid value: string \"12a\", expected a string representation as usize"));
    for text in ["", "+", "-1", "-0", " 1", "1 ", "1.0", "++1", "1+", "0x10", "１２", "1_000"] {
        assert!(matches!(string_as_usize(text), Err(APIError::DecodeError(_))), "{:?}", text);
    }
}

#[test]
fn numbers_that_do_not_fit_are_refused() {
    let too_large = format!("{}0", usize::MAX);
    assert!(string_as_usize(&too_large).is_err());
    let next = (usize::MAX as u128 + 1).to_string();
    assert!(string_as_usize(&next).is_err());
    assert!(string_as_usize("99999999999999999999999999999999999999").is_err());
    assert!(string_as_usize("9999999999999999999999x").is_err());
}

#[test]
fn reading_agrees_with_the_standard_parser() {
    let samples = [
        "0", "1", "+1", "-1", "", "+", "18446744073709551615", "18446744073709551616", "18446744073709551614",
        "000000000000000000000000001", "12 ", "a", "+0", "+-1", "4294967295", "4294967296", "٣",
    ];
    for text in samples {
        assert_eq!(string_as_usize(text).ok(), text.parse::<usize>().ok(), "{:?}", text);
    }
}

#[test]
fn reading_undoes_writing() {
    for n in [0u64, 1, 9, 10, 11, 99, 100, 12345, 1 << 32, u64::MAX] {
        assert_eq!(string_as_usize(&decimal_string(n)).unwrap() as u64, n);
    }
}
