use serial_loader::baud::default_baud;
use serial_loader::baud::parse_baud;
use serial_loader::baud::parse_unsigned;
use serial_loader::baud::strip_separators;

#[test]
fn default_rate_is_921600() {
    assert_eq!(default_baud(), 921_600u32);
    assert_eq!(parse_baud("921_600").ok(), Some(921_600u32));
}

#[test]
fn separators_do_not_change_the_rate() {
    assert_eq!(parse_baud("921600").ok(), Some(921_600u32));
    assert_eq!(parse_baud("9_2_1_6_0_0").ok(), Some(921_600u32));
    assert_eq!(parse_baud("_921600_").ok(), Some(921_600u32));
    assert_eq!(parse_baud("92__1600").ok(), Some(921_600u32));
    assert_eq!(parse_baud("115_200").ok(), parse_baud("115200").ok());
}

#[test]
fn separators_are_removed_and_nothing_else() {
    assert_eq!(strip_separators("921_600"), "921600");
    assert_eq!(strip_separators("___"), "");
    assert_eq!(strip_separators(""), "");
    assert_eq!(strip_separators("a_b c"), "ab c");
    assert_eq!(strip_separators("_é_ü_"), "éü");
}

#[test]
fn a_leading_plus_is_read() {
    assert_eq!(parse_unsigned("+9600"), Some(9600u32));
    assert_eq!(parse_baud("+9_600").ok(), Some(9600u32));
    assert_eq!(parse_baud("_+9600").ok(), Some(9600u32));
    assert_eq!(parse_unsigned("+"), None);
    assert_eq!(parse_unsigned("++1"), None);
    assert_eq!(parse_unsigned("1+"), None);
}

#[test]
fn leading_zeros_are_read() {
    assert_eq!(parse_unsigned("0"), Some(0u32));
    assert_eq!(parse_unsigned("000"), Some(0u32));
    assert_eq!(parse_unsigned("0009600"), Some(9600u32));
    assert_eq!(parse_unsigned("00000000004294967295"), Some(4_294_967_295u32));
}

#[test]
fn the_largest_rate_fits_and_the_next_does_not() {
    assert_eq!(parse_baud("4294967295").ok(), Some(u32::MAX));
    assert_eq!(parse_baud("4_294_967_295").ok(), Some(u32::MAX));
    assert!(parse_baud("4294967296").is_err());
    assert!(parse_baud("4294967300").is_err());
    assert!(parse_baud("42949672950").is_err());
    assert!(parse_baud("99999999999999999999999999").is_err());
}

#[test]
fn what_is_no_number_is_rejected() {
    assert!(parse_baud("").is_err());
    assert!(parse_baud("_").is_err());
    assert!(parse_baud("fast").is_err());
    assert!(parse_baud("12x").is_err());
    assert!(parse_baud("x12").is_err());
    assert!(parse_baud("-1").is_err());
    assert!(parse_baud(" 9600").is_err());
    assert!(parse_baud("9600 ").is_err());
    assert!(parse_baud("9600.0").is_err());
    assert!(parse_baud("0x10").is_err());
    assert!(parse_baud("٣").is_err());
}

#[test]
fn the_parser_agrees_with_the_standard_one() {
    let samples = [
        "", "0", "1", "+1", "-1", "+", "-", "12", "1 2", "4294967295", "4294967296", "+4294967295",
        "00", "+00", "a", "1a", "a1", "9_6", "９", "1e3",
    ];
    for text in samples.iter() {
        assert_eq!(parse_unsigned(text), text.parse::<u32>().ok(), "{:?}", text);
    }
}

#[test]
fn the_error_names_the_rejected_text() {
    let error = match parse_baud("12_x") {
        Ok(_) => panic!("12_x is no baud rate"),
        Err(error) => error,
    };
    assert_eq!(error.cleaned, "12x");
    assert_eq!(error.message(), "baud 12x could not be parsed to a `u32`.");
    assert_eq!(error.exit_status(), 1i32);
}
