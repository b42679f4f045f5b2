use bgp_notification::{
    build_payload, create_notification_with_data, decode_shutdown_message,
    decode_universal_notification, encode_shutdown_message, encode_universal_notification,
    interpret_data, parse_hex_bounded, to_hex, EncodeRequest, NotificationError,
    UniversalEncodeRequest,
};

fn shutdown_request(subcode: u8, message: &str) -> EncodeRequest {
    EncodeRequest { message: message.to_string(), subcode }
}

#[test]
fn shutdown_round_trip_plain_text() {
    let encoded = encode_shutdown_message(shutdown_request(2, "Test shutdown")).unwrap();
    let decoded = decode_shutdown_message(&encoded.hex).unwrap();
    assert_eq!(decoded.message, "Test shutdown");
    assert_eq!(decoded.subcode_value, 2);
    assert_eq!(decoded.subcode, "Administrative Shutdown");
}

#[test]
fn shutdown_round_trip_reset_with_multibyte_text() {
    let text = "Wartung bis 22:00 \u{2013} gr\u{fc}\u{df}e \u{1f6e0}";
    let encoded = encode_shutdown_message(shutdown_request(4, text)).unwrap();
    assert_eq!(encoded.message_bytes, text.len());
    assert_eq!(encoded.total_bytes, 22 + text.len());
    let decoded = decode_shutdown_message(&encoded.hex).unwrap();
    assert_eq!(decoded.message, text);
    assert_eq!(decoded.subcode_value, 4);
    assert_eq!(decoded.subcode, "Administrative Reset");
}

#[test]
fn shutdown_round_trip_empty_text() {
    let encoded = encode_shutdown_message(shutdown_request(2, "")).unwrap();
    assert_eq!(encoded.total_bytes, 22);
    assert_eq!(encoded.message_bytes, 0);
    assert_eq!(
        encoded.hex,
        "ff ff ff ff ff ff ff ff ff ff ff ff ff ff ff ff 00 16 03 06 02 00"
    );
    let decoded = decode_shutdown_message(&encoded.hex).unwrap();
    assert_eq!(decoded.message, "");
    assert_eq!(decoded.subcode_value, 2);
}

#[test]
fn shutdown_round_trip_longest_text() {
    let text = "x".repeat(255);
    let encoded = encode_shutdown_message(shutdown_request(4, &text)).unwrap();
    assert_eq!(encoded.total_bytes, 277);
    assert_eq!(encoded.message_bytes, 255);
    let decoded = decode_shutdown_message(&encoded.hex).unwrap();
    assert_eq!(decoded.message, text);
}

#[test]
fn shutdown_maintenance_window_vector() {
    let text = "Test maintenance window";
    let encoded = encode_shutdown_message(shutdown_request(2, text)).unwrap();
    assert_eq!(encoded.message_bytes, text.len());
    assert_eq!(encoded.message_bytes, 23);
    assert_eq!(encoded.total_bytes, 19 + 3 + encoded.message_bytes);
    assert_eq!(encoded.total_bytes, 45);
    assert_eq!(
        encoded.hex,
        "ff ff ff ff ff ff ff ff ff ff ff ff ff ff ff ff 00 2d 03 06 02 17 \
         54 65 73 74 20 6d 61 69 6e 74 65 6e 61 6e 63 65 20 77 69 6e 64 6f 77"
    );
    let decoded = decode_shutdown_message(&encoded.hex).unwrap();
    assert_eq!(decoded.message, text);
    assert_eq!(decoded.subcode_value, 2);
    assert_eq!(decoded.subcode, "Administrative Shutdown");
}

#[test]
fn shutdown_is_refused_for_other_subcodes_and_long_texts() {
    for subcode in 0..=255u8 {
        let result = encode_shutdown_message(shutdown_request(subcode, "bye"));
        if subcode == 2 || subcode == 4 {
            assert!(result.is_ok());
        } else {
            assert_eq!(result, Err(NotificationError::InvalidSubcode { subcode }));
        }
    }
    let too_long = "y".repeat(256);
    assert_eq!(
        encode_shutdown_message(shutdown_request(2, &too_long)),
        Err(NotificationError::MessageTooLong { bytes: 256 })
    );
    // 128 characters of two bytes each: few characters, too many bytes.
    let wide = "\u{e9}".repeat(128);
    assert_eq!(
        encode_shutdown_message(shutdown_request(4, &wide)),
        Err(NotificationError::MessageTooLong { bytes: 256 })
    );
    // 127 of them and one of one byte fit exactly.
    let fits = format!("{}z", "\u{e9}".repeat(127));
    assert_eq!(encode_shutdown_message(shutdown_request(4, &fits)).unwrap().message_bytes, 255);
}

#[test]
fn notification_round_trip() {
    for error_code in 1..=6u8 {
        for subcode in [0u8, 1, 2, 7, 200, 255] {
            let data: Vec<u8> = (0..(error_code as usize * 13)).map(|i| (i * 7) as u8).collect();
            let request = UniversalEncodeRequest { error_code, subcode, data: data.clone() };
            let encoded = encode_universal_notification(request).unwrap();
            assert_eq!(encoded.total_bytes, 21 + data.len());
            assert_eq!(encoded.message_bytes, data.len());
            let decoded = decode_universal_notification(&encoded.hex).unwrap();
            assert_eq!(decoded.error_code, error_code);
            assert_eq!(decoded.subcode, subcode);
            assert_eq!(decoded.data_length, data.len());
            assert_eq!(decoded.data_hex, to_hex(&data));
        }
    }
}

#[test]
fn notification_round_trip_largest_data() {
    let data = vec![0xa5u8; 4075];
    let request = UniversalEncodeRequest { error_code: 3, subcode: 1, data: data.clone() };
    let encoded = encode_universal_notification(request).unwrap();
    assert_eq!(encoded.total_bytes, 4096);
    assert!(encoded
        .hex
        .starts_with("ff ff ff ff ff ff ff ff ff ff ff ff ff ff ff ff 10 00 03 03 01 a5"));
    let decoded = decode_universal_notification(&encoded.hex).unwrap();
    assert_eq!(decoded.data_length, 4075);
    assert_eq!(decoded.data_hex, to_hex(&data));
}

#[test]
fn notification_is_refused_for_bad_codes_and_large_data() {
    for error_code in [0u8, 7, 8, 100, 255] {
        let request = UniversalEncodeRequest { error_code, subcode: 1, data: vec![] };
        assert_eq!(
            encode_universal_notification(request),
            Err(NotificationError::InvalidErrorCode { error_code })
        );
    }
    let request = UniversalEncodeRequest { error_code: 1, subcode: 1, data: vec![0u8; 4076] };
    assert_eq!(
        encode_universal_notification(request),
        Err(NotificationError::DataTooLarge { bytes: 4076 })
    );
    let request = UniversalEncodeRequest { error_code: 1, subcode: 1, data: vec![0u8; 5000] };
    assert!(encode_universal_notification(request).is_err());
    // The error code is looked at first.
    let request = UniversalEncodeRequest { error_code: 0, subcode: 1, data: vec![0u8; 5000] };
    assert_eq!(
        encode_universal_notification(request),
        Err(NotificationError::InvalidErrorCode { error_code: 0 })
    );
}

#[test]
fn hold_timer_vector() {
    let hex = format!("{}{}{}{}{}", "ff".repeat(16), "0015", "03", "04", "00");
    let decoded = decode_universal_notification(&hex).unwrap();
    assert_eq!(decoded.error_code, 4);
    assert_eq!(decoded.error_name, "Hold Timer Expired");
    assert_eq!(decoded.subcode, 0);
    assert_eq!(decoded.subcode_name, "Unspecific");
    assert_eq!(decoded.data_length, 0);
    assert_eq!(decoded.data_hex, "");
    assert_eq!(decoded.interpretation, "No additional data");
}

#[test]
fn unknown_subcode_is_tolerated_by_the_universal_decoder() {
    let hex = format!("{}{}", "ff".repeat(16), "0016 03 06 63 07");
    let decoded = decode_universal_notification(&hex).unwrap();
    assert_eq!(decoded.error_code, 6);
    assert_eq!(decoded.error_name, "Cease");
    assert_eq!(decoded.subcode, 0x63);
    assert_eq!(decoded.subcode_name, "Unknown Subcode");
    assert_eq!(decoded.data_length, 1);
    assert_eq!(decoded.data_hex, "07");
    assert_eq!(decoded.interpretation, "1 bytes of data");
    assert_eq!(
        decode_shutdown_message(&hex),
        Err(NotificationError::UnknownSubcode { subcode: 0x63 })
    );
}

#[test]
fn unknown_error_code_is_named_so() {
    let hex = format!("{}{}", "ff".repeat(16), "0015 03 09 01");
    let decoded = decode_universal_notification(&hex).unwrap();
    assert_eq!(decoded.error_code, 9);
    assert_eq!(decoded.error_name, "Unknown Error");
    assert_eq!(decoded.subcode_name, "Unknown Subcode");
}

#[test]
fn builder_length_field() {
    assert_eq!(
        build_payload(1, 2, "length", "99999"),
        Err(NotificationError::OutOfRange { label: "length".to_string(), min: 0, max: 65535 })
    );
    let data = build_payload(1, 2, "length", "999").unwrap();
    assert_eq!(data, vec![0x03, 0xe7]);
    let interpretation = interpret_data(1, 2, &data);
    assert!(interpretation.contains("Bad message length: 999"));
    assert_eq!(interpretation, "Bad message length: 999 (valid range: 19-4096)");
    assert_eq!(build_payload(1, 2, "length", "65535").unwrap(), vec![0xff, 0xff]);
    assert_eq!(build_payload(1, 2, "length", "0").unwrap(), vec![0x00, 0x00]);
    assert_eq!(
        build_payload(1, 2, "length", "65536"),
        Err(NotificationError::OutOfRange { label: "length".to_string(), min: 0, max: 65535 })
    );
    assert_eq!(
        build_payload(1, 2, "length", "12a"),
        Err(NotificationError::NotANumber { label: "length".to_string() })
    );
}

#[test]
fn builder_every_kind() {
    assert_eq!(build_payload(1, 3, "type", "7").unwrap(), vec![7]);
    assert_eq!(build_payload(1, 3, "type", "0").unwrap(), vec![0]);
    assert_eq!(
        build_payload(1, 3, "type", "256"),
        Err(NotificationError::OutOfRange { label: "message type".to_string(), min: 0, max: 255 })
    );
    assert_eq!(build_payload(2, 1, "version", "4").unwrap(), vec![0, 4]);
    assert_eq!(
        build_payload(2, 1, "version", "0"),
        Err(NotificationError::OutOfRange { label: "BGP version".to_string(), min: 1, max: 255 })
    );
    assert_eq!(
        build_payload(2, 1, "version", "256"),
        Err(NotificationError::OutOfRange { label: "BGP version".to_string(), min: 1, max: 255 })
    );
    assert_eq!(build_payload(3, 3, "attribute", "2").unwrap(), vec![2]);
    assert_eq!(
        build_payload(3, 3, "attribute", "0"),
        Err(NotificationError::OutOfRange {
            label: "attribute type".to_string(),
            min: 1,
            max: 255
        })
    );
    for subcode in 1..=3u8 {
        assert_eq!(build_payload(5, subcode, "message_type", "5").unwrap(), vec![5]);
        assert_eq!(
            build_payload(5, subcode, "message_type", "6"),
            Err(NotificationError::OutOfRange {
                label: "message type".to_string(),
                min: 1,
                max: 5
            })
        );
    }
    assert_eq!(
        build_payload(5, 0, "message_type", "5"),
        Err(NotificationError::UnsupportedDataKind)
    );
    for subcode in [2u8, 4] {
        assert_eq!(
            build_payload(6, subcode, "message", "h\u{e9}").unwrap(),
            vec![3, b'h', 0xc3, 0xa9]
        );
        assert_eq!(build_payload(6, subcode, "message", "").unwrap(), vec![0]);
        assert_eq!(
            build_payload(6, subcode, "message", &"m".repeat(256)),
            Err(NotificationError::MessageTooLong { bytes: 256 })
        );
    }
    assert_eq!(build_payload(6, 3, "message", "hi"), Err(NotificationError::UnsupportedDataKind));
    assert_eq!(build_payload(4, 0, "hex", "de:ad be-ef").unwrap(), vec![0xde, 0xad, 0xbe, 0xef]);
    assert_eq!(build_payload(9, 9, "hex", "").unwrap(), Vec::<u8>::new());
    assert_eq!(
        build_payload(4, 0, "hex", &"00".repeat(4076)),
        Err(NotificationError::TooLarge { bytes: 4076, max_bytes: 4075 })
    );
    assert_eq!(build_payload(4, 0, "hex", &"00".repeat(4075)).unwrap().len(), 4075);
    assert_eq!(build_payload(4, 0, "none", "").unwrap(), Vec::<u8>::new());
    assert_eq!(build_payload(4, 0, "none", "1"), Err(NotificationError::UnsupportedDataKind));
    assert_eq!(build_payload(1, 2, "type", "1"), Err(NotificationError::UnsupportedDataKind));
    assert_eq!(build_payload(1, 2, "Length", "1"), Err(NotificationError::UnsupportedDataKind));
}

#[test]
fn create_notification_builds_and_encodes() {
    let encoded = create_notification_with_data(1, 2, "length", "999").unwrap();
    assert_eq!(encoded.total_bytes, 23);
    assert_eq!(encoded.message_bytes, 2);
    assert_eq!(
        encoded.hex,
        "ff ff ff ff ff ff ff ff ff ff ff ff ff ff ff ff 00 17 03 01 02 03 e7"
    );
    let decoded = decode_universal_notification(&encoded.hex).unwrap();
    assert_eq!(decoded.error_name, "Message Header Error");
    assert_eq!(decoded.subcode_name, "Bad Message Length");
    assert_eq!(decoded.interpretation, "Bad message length: 999 (valid range: 19-4096)");

    let encoded = create_notification_with_data(6, 2, "message", "going down").unwrap();
    let decoded = decode_shutdown_message(&encoded.hex).unwrap();
    assert_eq!(decoded.message, "going down");

    assert_eq!(
        create_notification_with_data(0, 2, "length", "999"),
        Err(NotificationError::InvalidErrorCode { error_code: 0 })
    );
    assert_eq!(
        create_notification_with_data(7, 2, "hex", "zz"),
        Err(NotificationError::InvalidErrorCode { error_code: 7 })
    );
    assert_eq!(
        create_notification_with_data(1, 2, "length", "99999"),
        Err(NotificationError::OutOfRange { label: "length".to_string(), min: 0, max: 65535 })
    );
    assert_eq!(
        create_notification_with_data(4, 0, "", "x"),
        Err(NotificationError::UnsupportedDataKind)
    );
    assert_eq!(create_notification_with_data(4, 0, "", "").unwrap().total_bytes, 21);
}

#[test]
fn normalized_hex_is_reproduced() {
    for text in ["", "00", "ff 00 ab", "48 65 6c 6c 6f", "0a 1b 2c 3d 4e 5f 60 79 88 97"] {
        let bytes = parse_hex_bounded(text, 16).unwrap();
        assert_eq!(to_hex(&bytes), text);
    }
    let all: Vec<u8> = (0..=255u8).collect();
    let text = to_hex(&all);
    assert_eq!(text.len(), 3 * 256 - 1);
    assert_eq!(parse_hex_bounded(&text, 256).unwrap(), all);
    assert_eq!(to_hex(&parse_hex_bounded(&text, 256).unwrap()), text);
}
