use lsp_session::framing::{
    classify_message, content_length_of_line, encode_frame, parse_dec, u64_to_dec, MessageKind,
};

#[test]
fn decimal_rendering_matches_formatting() {
    assert_eq!(u64_to_dec(0), b"0".to_vec());
    assert_eq!(u64_to_dec(7), b"7".to_vec());
    assert_eq!(u64_to_dec(10), b"10".to_vec());
    assert_eq!(u64_to_dec(1234567890), b"1234567890".to_vec());
    assert_eq!(u64_to_dec(u64::MAX), format!("{}", u64::MAX).into_bytes());
}

#[test]
fn frame_encoding_is_header_then_payload() {
    let payload = b"{\"jsonrpc\":\"2.0\"}".to_vec();
    let framed = encode_frame(&payload);
    let expected = format!("Content-Length: {}\r\n\r\n{{\"jsonrpc\":\"2.0\"}}", payload.len());
    assert_eq!(framed, expected.into_bytes());
}

#[test]
fn empty_payload_frames_as_zero_length() {
    let framed = encode_frame(&Vec::new());
    assert_eq!(framed, b"Content-Length: 0\r\n\r\n".to_vec());
}

#[test]
fn parse_dec_reads_digit_strings_exactly() {
    assert_eq!(parse_dec(b"0"), Some(0));
    assert_eq!(parse_dec(b"42"), Some(42));
    assert_eq!(parse_dec(b"007"), Some(7));
    assert_eq!(parse_dec(b"18446744073709551615"), Some(u64::MAX));
    assert_eq!(parse_dec(b""), None);
    assert_eq!(parse_dec(b"12a"), None);
    assert_eq!(parse_dec(b"-5"), None);
    assert_eq!(parse_dec(b"18446744073709551616"), None);
    assert_eq!(parse_dec(b"99999999999999999999999"), None);
}

#[test]
fn header_line_round_trips_through_parser() {
    let mut line = b"Content-Length: ".to_vec();
    line.extend_from_slice(&u64_to_dec(8123));
    assert_eq!(content_length_of_line(&line), Some(8123));
}

#[test]
fn header_line_parser_rejects_other_lines() {
    assert_eq!(content_length_of_line(b"Content-Length: 55"), Some(55));
    assert_eq!(content_length_of_line(b"Content-Length: "), None);
    assert_eq!(content_length_of_line(b"Content-Length:55"), None);
    assert_eq!(content_length_of_line(b"Content-Type: application/json"), None);
    assert_eq!(content_length_of_line(b"Content-Length: 55x"), None);
    assert_eq!(content_length_of_line(b""), None);
}

#[test]
fn messages_are_classified_by_their_shape() {
    assert_eq!(classify_message(true, false), MessageKind::Response);
    assert_eq!(classify_message(false, true), MessageKind::Notification);
    assert_eq!(classify_message(true, true), MessageKind::ServerRequest);
    assert_eq!(classify_message(false, false), MessageKind::Invalid);
}
