use bgp_notification::{
    decode_shutdown_message, decode_universal_notification, is_hex, parse_hex_bounded,
    parse_u16_bounded, parse_u8_bounded, to_hex, validate_bgp_message, NotificationError,
};

fn frame(error_code: u8, subcode: u8, data: &[u8]) -> Vec<u8> {
    let total = 21 + data.len();
    let mut bytes = vec![0xffu8; 16];
    bytes.push((total / 256) as u8);
    bytes.push((total % 256) as u8);
    bytes.push(3);
    bytes.push(error_code);
    bytes.push(subcode);
    bytes.extend_from_slice(data);
    bytes
}

fn both_decoders_refuse(bytes: &[u8], reason: NotificationError) {
    let hex = to_hex(bytes);
    assert_eq!(decode_universal_notification(&hex).unwrap_err(), reason);
    assert_eq!(decode_shutdown_message(&hex).unwrap_err(), reason);
}

#[test]
fn header_faults_in_their_order() {
    assert_eq!(validate_bgp_message(&[]), Err(NotificationError::TooShort { actual: 0 }));
    assert_eq!(
        validate_bgp_message(&[0u8; 20]),
        Err(NotificationError::TooShort { actual: 20 })
    );
    assert_eq!(
        validate_bgp_message(&vec![0u8; 4097]),
        Err(NotificationError::TooLong { actual: 4097 })
    );
    assert_eq!(validate_bgp_message(&[0u8; 21]), Err(NotificationError::BadMarker));
    for place in 0..16 {
        let mut bytes = frame(6, 2, &[0]);
        bytes[place] = 0xfe;
        assert_eq!(validate_bgp_message(&bytes), Err(NotificationError::BadMarker));
    }
    let mut bytes = frame(6, 2, &[0]);
    bytes[17] = 23;
    bytes[18] = 4;
    assert_eq!(
        validate_bgp_message(&bytes),
        Err(NotificationError::LengthMismatch { declared: 23, actual: 22 })
    );
    let mut bytes = frame(6, 2, &[0]);
    bytes[16] = 1;
    assert_eq!(
        validate_bgp_message(&bytes),
        Err(NotificationError::LengthMismatch { declared: 278, actual: 22 })
    );
    let mut bytes = frame(6, 2, &[0]);
    bytes[18] = 4;
    assert_eq!(
        validate_bgp_message(&bytes),
        Err(NotificationError::NotANotification { message_type: 4 })
    );
    assert_eq!(validate_bgp_message(&frame(6, 2, &[0])), Ok(()));
    assert_eq!(validate_bgp_message(&frame(1, 1, &vec![9u8; 4075])), Ok(()));
}

#[test]
fn decoders_refuse_misframed_messages() {
    both_decoders_refuse(&[0xff; 20], NotificationError::TooShort { actual: 20 });
    let mut bytes = frame(6, 2, &[0]);
    bytes[5] = 0;
    both_decoders_refuse(&bytes, NotificationError::BadMarker);
    let mut bytes = frame(6, 2, &[0]);
    bytes[17] = 21;
    both_decoders_refuse(&bytes, NotificationError::LengthMismatch { declared: 21, actual: 22 });
    let mut bytes = frame(6, 2, &[0]);
    bytes[18] = 1;
    both_decoders_refuse(&bytes, NotificationError::NotANotification { message_type: 1 });
    let hex = "ff".repeat(4097);
    assert_eq!(
        decode_universal_notification(&hex),
        Err(NotificationError::TooLarge { bytes: 4097, max_bytes: 4096 })
    );
    assert_eq!(
        decode_shutdown_message(&hex),
        Err(NotificationError::TooLarge { bytes: 4097, max_bytes: 4096 })
    );
}

#[test]
fn decoders_refuse_bad_hex() {
    assert_eq!(
        decode_universal_notification("ff f"),
        Err(NotificationError::OddLength { digits: 3 })
    );
    assert_eq!(
        decode_shutdown_message("ff fg"),
        Err(NotificationError::InvalidDigit { position: 4 })
    );
    assert_eq!(
        decode_universal_notification(""),
        Err(NotificationError::TooShort { actual: 0 })
    );
}

#[test]
fn shutdown_decoder_faults_in_their_order() {
    assert_eq!(
        decode_shutdown_message(&to_hex(&frame(4, 2, &[0]))),
        Err(NotificationError::NotCeaseError { error_code: 4 })
    );
    assert_eq!(
        decode_shutdown_message(&to_hex(&frame(6, 3, &[0]))),
        Err(NotificationError::UnknownSubcode { subcode: 3 })
    );
    assert_eq!(
        decode_shutdown_message(&to_hex(&frame(6, 2, &[]))),
        Err(NotificationError::MissingLengthByte)
    );
    assert_eq!(
        decode_shutdown_message(&to_hex(&frame(6, 4, &[2, b'a']))),
        Err(NotificationError::TextLengthMismatch { expected: 24, actual: 23 })
    );
    assert_eq!(
        decode_shutdown_message(&to_hex(&frame(6, 4, &[0, b'a']))),
        Err(NotificationError::TextLengthMismatch { expected: 22, actual: 23 })
    );
    assert_eq!(
        decode_shutdown_message(&to_hex(&frame(6, 4, &[2, 0xc3, 0x28]))),
        Err(NotificationError::InvalidUtf8)
    );
    assert_eq!(
        decode_shutdown_message(&to_hex(&frame(6, 4, &[1, 0x80]))),
        Err(NotificationError::InvalidUtf8)
    );
    let decoded = decode_shutdown_message(&to_hex(&frame(6, 4, &[2, 0xc3, 0xa9]))).unwrap();
    assert_eq!(decoded.message, "\u{e9}");
}

#[test]
fn hex_parsing_faults_in_their_order() {
    assert_eq!(parse_hex_bounded("", 0), Ok(vec![]));
    assert_eq!(parse_hex_bounded(" :- \t\n", 0), Ok(vec![]));
    assert_eq!(parse_hex_bounded("xyz", 10), Err(NotificationError::OddLength { digits: 3 }));
    assert_eq!(
        parse_hex_bounded("48656c6c6f", 3),
        Err(NotificationError::TooLarge { bytes: 5, max_bytes: 3 })
    );
    assert_eq!(
        parse_hex_bounded("zz zz zz", 2),
        Err(NotificationError::TooLarge { bytes: 3, max_bytes: 2 })
    );
    assert_eq!(
        parse_hex_bounded("48 6x", 10),
        Err(NotificationError::InvalidDigit { position: 4 })
    );
    assert_eq!(
        parse_hex_bounded("\u{a0}4g", 10),
        Err(NotificationError::InvalidDigit { position: 2 })
    );
    assert_eq!(parse_hex_bounded("+f", 10), Err(NotificationError::InvalidDigit { position: 0 }));
    assert_eq!(
        parse_hex_bounded("a\u{e9}1b", 10),
        Err(NotificationError::InvalidDigit { position: 1 })
    );
    assert_eq!(parse_hex_bounded("\u{e9}", 10), Err(NotificationError::OddLength { digits: 1 }));
    assert_eq!(parse_hex_bounded("48656c6c6f", 5), Ok(b"Hello".to_vec()));
    assert_eq!(parse_hex_bounded("48:65-6C 6c\t6F", 5), Ok(b"Hello".to_vec()));
    assert_eq!(parse_hex_bounded("4 8 6 5", 2), Ok(vec![0x48, 0x65]));
    assert_eq!(parse_hex_bounded("0123456789abcdefABCDEF", 11).unwrap(), vec![
        0x01, 0x23, 0x45, 0x67, 0x89, 0xab, 0xcd, 0xef, 0xab, 0xcd, 0xef
    ]);
}

#[test]
fn separators_are_white_space_colon_and_hyphen() {
    let mut text = String::new();
    for code in 0..=0x10ffffu32 {
        if let Some(c) = char::from_u32(code) {
            text.clear();
            text.push(c);
            let ignored = parse_hex_bounded(&text, 1) == Ok(vec![]);
            assert_eq!(ignored, c.is_whitespace() || c == ':' || c == '-', "U+{:04X}", code);
        }
    }
}

#[test]
fn hex_digits_are_the_ascii_ones() {
    let mut text = String::new();
    for code in 0..=0x10ffffu32 {
        if let Some(c) = char::from_u32(code) {
            text.clear();
            text.push(c);
            text.push('0');
            let separator = c.is_whitespace() || c == ':' || c == '-';
            match parse_hex_bounded(&text, 1) {
                Ok(bytes) => {
                    assert!(c.is_ascii_hexdigit(), "U+{:04X}", code);
                    assert_eq!(bytes, vec![(c.to_digit(16).unwrap() * 16) as u8]);
                    assert!(is_hex(&text));
                }
                Err(NotificationError::OddLength { digits: 1 }) => {
                    assert!(separator, "U+{:04X}", code);
                    assert!(!is_hex(&text));
                }
                Err(NotificationError::InvalidDigit { position: 0 }) => {
                    assert!(!separator && !c.is_ascii_hexdigit(), "U+{:04X}", code);
                    assert!(!is_hex(&text));
                }
                other => panic!("U+{:04X}: {:?}", code, other),
            }
        }
    }
}

#[test]
fn is_hex_limits() {
    assert!(is_hex(&"ab".repeat(4096)));
    assert!(!is_hex(&"ab".repeat(4097)));
    assert!(is_hex(&format!(" {} ", "a-b:".repeat(4096))));
    assert!(!is_hex(" :- "));
    assert!(!is_hex("0g"));
    assert!(!is_hex("g0"));
    assert!(is_hex("AbCdEf"));
}

#[test]
fn bounded_numbers() {
    assert_eq!(parse_u8_bounded("5", 1, 10, "test"), Ok(5));
    assert_eq!(parse_u8_bounded("1", 1, 10, "test"), Ok(1));
    assert_eq!(parse_u8_bounded("10", 1, 10, "test"), Ok(10));
    assert_eq!(parse_u8_bounded("+7", 1, 10, "test"), Ok(7));
    assert_eq!(parse_u8_bounded("007", 1, 10, "test"), Ok(7));
    assert_eq!(parse_u8_bounded("255", 0, 255, "test"), Ok(255));
    let out_of_range = NotificationError::OutOfRange { label: "test".to_string(), min: 1, max: 10 };
    for text in ["0", "11", "15", "255", "256", "99999", "340282366920938463463374607431768211456"]
    {
        assert_eq!(parse_u8_bounded(text, 1, 10, "test").unwrap_err(), out_of_range, "{}", text);
    }
    let not_a_number = NotificationError::NotANumber { label: "test".to_string() };
    for text in ["", "+", "-5", "abc", "5 ", " 5", "5a", "++5", "5+", "0x5", "\u{661}", "1_0"] {
        assert_eq!(parse_u8_bounded(text, 1, 10, "test").unwrap_err(), not_a_number, "{:?}", text);
    }
    assert_eq!(parse_u16_bounded("65535", 0, 65535, "test"), Ok(65535));
    assert_eq!(parse_u16_bounded("1000", 1, 2000, "test"), Ok(1000));
    assert_eq!(
        parse_u16_bounded("65536", 0, 65535, "wide"),
        Err(NotificationError::OutOfRange { label: "wide".to_string(), min: 0, max: 65535 })
    );
    assert_eq!(
        parse_u16_bounded("3000", 1, 2000, "wide"),
        Err(NotificationError::OutOfRange { label: "wide".to_string(), min: 1, max: 2000 })
    );
    assert_eq!(
        parse_u16_bounded("99999x", 1, 2000, "wide"),
        Err(NotificationError::NotANumber { label: "wide".to_string() })
    );
    assert_eq!(
        parse_u16_bounded("5", 9, 3, "none"),
        Err(NotificationError::OutOfRange { label: "none".to_string(), min: 9, max: 3 })
    );
}

#[test]
fn bounded_numbers_agree_with_the_standard_parser() {
    for n in 0..=70000u32 {
        let text = n.to_string();
        assert_eq!(parse_u16_bounded(&text, 0, 65535, "n").ok(), text.parse::<u16>().ok());
        assert_eq!(parse_u8_bounded(&text, 0, 255, "n").ok(), text.parse::<u8>().ok());
    }
    for text in ["", "+", "+0", "+65535", "-0", "00000000000000000000012", " 1", "1 ", "1.0"] {
        assert_eq!(parse_u16_bounded(text, 0, 65535, "n").ok(), text.parse::<u16>().ok());
    }
}
