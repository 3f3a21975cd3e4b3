use irbisfs::protocol::serde::{
    decode_len, decode_s16, decode_str, decode_u16, decode_u32, decode_u64, decode_u8,
    decode_usize, encode_len, encode_s16, encode_str, encode_u16, encode_u32, encode_u64,
    encode_u8, encode_usize, Encode, Encoder, Parse, Parser, ParserError, Utf8Error,
};

#[test]
fn integers_are_big_endian() {
    assert_eq!(encode_u8(0xab), [0xab]);
    assert_eq!(encode_u16(0x1234), [0x12, 0x34]);
    assert_eq!(encode_u32(0x0102_0304), [1, 2, 3, 4]);
    assert_eq!(encode_u64(0x0102_0304_0506_0708), [1, 2, 3, 4, 5, 6, 7, 8]);
    assert_eq!(encode_usize(0x0a0b), [0, 0, 0, 0, 0, 0, 0x0a, 0x0b]);
}

#[test]
fn integers_come_back() {
    assert_eq!(decode_u8(&encode_u8(200)), Ok(200));
    assert_eq!(decode_u16(&encode_u16(65535)), Ok(65535));
    assert_eq!(decode_u32(&encode_u32(0xdead_beef)), Ok(0xdead_beef));
    assert_eq!(decode_u64(&encode_u64(u64::MAX)), Ok(u64::MAX));
    assert_eq!(decode_u64(&encode_u64(0)), Ok(0));
    assert_eq!(decode_usize(&encode_usize(123_456)), Ok(123_456));
}

#[test]
fn decoding_reads_the_first_bytes_only() {
    assert_eq!(decode_u16(&[0x12, 0x34, 0x56]), Ok(0x1234));
    assert_eq!(decode_u8(&[7, 8]), Ok(7));
}

#[test]
fn short_input_is_an_overflow() {
    assert_eq!(decode_u8(&[]), Err(ParserError::Overflow));
    assert_eq!(decode_u16(&[1]), Err(ParserError::Overflow));
    assert_eq!(decode_u32(&[1, 2, 3]), Err(ParserError::Overflow));
    assert_eq!(decode_u64(&[1, 2, 3, 4, 5, 6, 7]), Err(ParserError::Overflow));
    assert_eq!(decode_usize(&[]), Err(ParserError::Overflow));
}

#[test]
fn short_lengths_take_one_byte() {
    assert_eq!(encode_len(0), vec![0]);
    assert_eq!(encode_len(1), vec![1]);
    assert_eq!(encode_len(127), vec![127]);
}

#[test]
fn long_lengths_take_four_bytes_with_the_high_bit() {
    assert_eq!(encode_len(128), vec![0x80, 0, 0, 0x80]);
    assert_eq!(encode_len(0x0123_4567), vec![0x81, 0x23, 0x45, 0x67]);
    assert_eq!(encode_len(0x7fff_ffff), vec![0xff, 0xff, 0xff, 0xff]);
}

#[test]
fn lengths_come_back() {
    assert_eq!(decode_len(&encode_len(5)), Ok((1, 5)));
    assert_eq!(decode_len(&encode_len(127)), Ok((1, 127)));
    assert_eq!(decode_len(&encode_len(128)), Ok((4, 128)));
    assert_eq!(decode_len(&encode_len(70_000)), Ok((4, 70_000)));
    assert_eq!(decode_len(&[0x80, 0, 0, 3]), Ok((4, 3)));
}

#[test]
fn truncated_length_is_an_overflow() {
    assert_eq!(decode_len(&[]), Err(ParserError::Overflow));
    assert_eq!(decode_len(&[0x80, 0, 0]), Err(ParserError::Overflow));
}

#[test]
fn short_string_on_the_wire() {
    assert_eq!(encode_str("abc"), vec![3, b'a', b'b', b'c']);
    assert_eq!(encode_str(""), vec![0]);
}

#[test]
fn strings_come_back() {
    assert_eq!(decode_str(&encode_str("hello")), Ok((6, "hello".to_owned())));
    assert_eq!(decode_str(&encode_str("")), Ok((1, String::new())));
    let accented = "gr\u{fc}\u{df}e \u{4e16}\u{754c} \u{1f600}";
    assert_eq!(
        decode_str(&encode_str(accented)),
        Ok((1 + accented.len(), accented.to_owned()))
    );
}

#[test]
fn long_strings_come_back() {
    let long = "x".repeat(300);
    let wire = encode_str(&long);
    assert_eq!(wire.len(), 304);
    assert_eq!(&wire[..4], &[0x80, 0, 1, 44]);
    assert_eq!(decode_str(&wire), Ok((304, long)));
}

#[test]
fn string_decoding_stops_at_its_end() {
    let mut wire = encode_str("ab");
    wire.extend_from_slice(&[9, 9, 9]);
    assert_eq!(decode_str(&wire), Ok((3, "ab".to_owned())));
}

#[test]
fn truncated_string_is_an_overflow() {
    assert_eq!(decode_str(&[3, b'a', b'b']), Err(ParserError::Overflow));
    assert_eq!(decode_str(&[]), Err(ParserError::Overflow));
}

#[test]
fn ill_formed_string_is_a_utf8_error() {
    assert_eq!(
        decode_str(&[2, b'a', 0xff]),
        Err(ParserError::Utf8Error(Utf8Error { valid_up_to: 1, error_len: Some(1) }))
    );
    assert_eq!(
        decode_str(&[1, 0xe4]),
        Err(ParserError::Utf8Error(Utf8Error { valid_up_to: 0, error_len: None }))
    );
}

#[test]
fn sixteen_bit_strings() {
    assert_eq!(encode_s16("hi"), vec![0, 2, b'h', b'i']);
    assert_eq!(decode_s16(&encode_s16("hi")), Ok((4, "hi".to_owned())));
    assert_eq!(decode_s16(&[0]), Err(ParserError::Overflow));
    assert_eq!(decode_s16(&[0, 2, b'h']), Err(ParserError::Overflow));
    assert_eq!(
        decode_s16(&[0, 1, 0xc0]),
        Err(ParserError::Utf8Error(Utf8Error { valid_up_to: 0, error_len: Some(1) }))
    );
}

#[test]
fn encoder_collects_fields_in_order() {
    let mut encoder = Encoder::new();
    encoder.extend_from_slice(&[1, 2]);
    encoder.extend_from_vec(vec![3]);
    encoder.extend_from_vec(0x0405u16.encode());
    encoder.extend_from_vec("z".to_owned().encode());
    assert_eq!(encoder.complete(), vec![1, 2, 3, 4, 5, 1, b'z']);
}

#[test]
fn encode_trait_on_integers() {
    assert_eq!(7u8.encode(), vec![7]);
    assert_eq!(0x0102u16.encode(), vec![1, 2]);
    assert_eq!(1u32.encode(), vec![0, 0, 0, 1]);
    assert_eq!(1u64.encode(), vec![0, 0, 0, 0, 0, 0, 0, 1]);
    assert_eq!(2usize.encode(), vec![0, 0, 0, 0, 0, 0, 0, 2]);
}

#[test]
fn parser_cursor_advances_by_the_width() {
    let mut parser = Parser::new(vec![1, 0, 2, 0, 0, 0, 3, 0, 0, 0, 0, 0, 0, 0, 4, 1, b'q']);
    assert_eq!(u8::parse_from(&mut parser), Ok(1));
    assert_eq!(parser.rest().len(), 16);
    assert_eq!(u16::parse_from(&mut parser), Ok(2));
    assert_eq!(parser.rest().len(), 14);
    assert_eq!(u32::parse_from(&mut parser), Ok(3));
    assert_eq!(parser.rest().len(), 10);
    assert_eq!(u64::parse_from(&mut parser), Ok(4));
    assert_eq!(parser.rest().len(), 2);
    assert_eq!(String::parse_from(&mut parser), Ok("q".to_owned()));
    assert_eq!(parser.rest().len(), 0);
    assert_eq!(parser.complete(), Ok(()));
}

#[test]
fn parser_complete_wants_all_data_read() {
    let mut parser = Parser::new(vec![1, 2]);
    assert_eq!(u8::parse_from(&mut parser), Ok(1));
    assert_eq!(parser.complete(), Err(ParserError::Incomplete));
}

#[test]
fn parser_keeps_its_place_on_an_error() {
    let mut parser = Parser::new(vec![1, 2, 3]);
    assert_eq!(u32::parse_from(&mut parser), Err(ParserError::Overflow));
    assert_eq!(parser.rest(), &[1, 2, 3]);
    assert_eq!(parser.next(4), Err(ParserError::Overflow));
    assert_eq!(parser.next(2), Ok(&[1u8, 2][..]));
    assert_eq!(String::parse_from(&mut parser), Err(ParserError::Overflow));
    assert_eq!(parser.rest(), &[3]);
}

#[test]
fn parser_reads_usize_as_eight_bytes() {
    let mut parser = Parser::new(vec![0, 0, 0, 0, 0, 0, 1, 0]);
    assert_eq!(usize::parse_from(&mut parser), Ok(256));
    assert_eq!(parser.complete(), Ok(()));
}

#[test]
fn parser_errors_have_names() {
    assert_eq!(ParserError::Incomplete.debug_string(), "Incomplete");
    assert_eq!(ParserError::Overflow.debug_string(), "Overflow");
    assert_eq!(ParserError::UnknownTag(7).debug_string(), "UnknownTag(7)");
    let error = Utf8Error { valid_up_to: 12, error_len: Some(2) };
    assert_eq!(error.debug_string(), "Utf8Error { valid_up_to: 12, error_len: Some(2) }");
    assert_eq!(error.debug_string(), format!("{:?}", error));
    let error = ParserError::Utf8Error(Utf8Error { valid_up_to: 0, error_len: None });
    assert_eq!(error.debug_string(), "Utf8Error(Utf8Error { valid_up_to: 0, error_len: None })");
    assert_eq!(error.debug_string(), format!("{:?}", error));
}

#[test]
fn utf8_error_matches_the_standard_library() {
    let bytes = [b'o', b'k', 0xf0, 0x9f, 0x98];
    let expected = std::str::from_utf8(&bytes).unwrap_err();
    let mut wire = vec![5];
    wire.extend_from_slice(&bytes);
    assert_eq!(
        decode_str(&wire),
        Err(ParserError::Utf8Error(Utf8Error {
            valid_up_to: expected.valid_up_to(),
            error_len: expected.error_len(),
        }))
    );
}
