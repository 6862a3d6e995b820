use fsdk::error::FsdkError;
use fsdk::text::{
    append_chars, c_string_bytes, chars_of, liveness_error_text, push_decimal, push_signed_decimal,
    read_c_string, split_names, string_from, string_of, trimmed,
};

#[test]
fn c_string_bytes_of_plain_text() {
    let b = c_string_bytes("Hello é").unwrap();
    assert_eq!(b, "Hello é".as_bytes().to_vec());
    assert_eq!(c_string_bytes("").unwrap(), Vec::<u8>::new());
}

#[test]
fn c_string_bytes_rejects_nul_with_its_position() {
    match c_string_bytes("ab\0cd\0") {
        Err(FsdkError::InvalidString(m)) => {
            assert_eq!(m, "nul byte found in provided data at position: 2");
        }
        _ => panic!("expected an invalid string error"),
    }
    match c_string_bytes("\0") {
        Err(FsdkError::InvalidString(m)) => {
            assert_eq!(m, "nul byte found in provided data at position: 0");
        }
        _ => panic!("expected an invalid string error"),
    }
}

#[test]
fn read_c_string_stops_at_first_nul() {
    assert_eq!(read_c_string(b"Luxand\0garbage\0"), "Luxand");
    assert_eq!(read_c_string(b"no terminator"), "no terminator");
    assert_eq!(read_c_string(b"\0abc"), "");
    assert_eq!(read_c_string(&[0x66, 0xff, 0x6f, 0]), "f\u{fffd}o");
}

#[test]
fn c_string_round_trip() {
    let text = "Name Ümlaut";
    let mut buffer = c_string_bytes(text).unwrap();
    buffer.push(0);
    buffer.extend_from_slice(&[7, 7, 0, 9]);
    assert_eq!(read_c_string(&buffer), text);
}

#[test]
fn split_names_keeps_non_empty_pieces() {
    assert_eq!(split_names("Alice;Bob"), vec!["Alice".to_string(), "Bob".to_string()]);
    assert_eq!(split_names(";;Alice;;Bob;"), vec!["Alice".to_string(), "Bob".to_string()]);
    assert_eq!(split_names(""), Vec::<String>::new());
    assert_eq!(split_names(";;;"), Vec::<String>::new());
    assert_eq!(split_names(" A ; B"), vec![" A ".to_string(), " B".to_string()]);
}

#[test]
fn trimmed_removes_surrounding_white_space() {
    assert_eq!(trimmed("  John Doe \t\n"), "John Doe");
    assert_eq!(trimmed("   "), "");
    assert_eq!(trimmed(""), "");
    assert_eq!(trimmed("\u{3000}x\u{a0}"), "x");
    assert_eq!(trimmed(trimmed(" a b ").as_str()), "a b");
}

#[test]
fn liveness_error_text_extracts_the_message() {
    assert_eq!(liveness_error_text("LivenessError=Model not loaded;\n"), "Model not loaded");
    assert_eq!(liveness_error_text("LivenessError=;\n"), "");
    assert_eq!(liveness_error_text("no separator"), "");
    assert_eq!(liveness_error_text("A=b=c;;\r\n"), "b=c");
    assert_eq!(liveness_error_text("A= spaced ;"), " spaced ");
}

#[test]
fn decimal_numbers() {
    let mut s = string_from("n=");
    push_decimal(&mut s, 0);
    assert_eq!(s, "n=0");
    let mut s = String::new();
    push_decimal(&mut s, u64::MAX);
    assert_eq!(s, "18446744073709551615");
    let mut s = String::new();
    push_signed_decimal(&mut s, -42);
    assert_eq!(s, "-42");
    let mut s = String::new();
    push_signed_decimal(&mut s, i64::MIN);
    assert_eq!(s, "-9223372036854775808");
    let mut s = String::new();
    push_signed_decimal(&mut s, 1234);
    assert_eq!(s, "1234");
}

#[test]
fn characters_and_pieces() {
    let cs = chars_of("aé☃");
    assert_eq!(cs, vec!['a', 'é', '☃']);
    assert_eq!(string_of(&cs, 1, 3), "é☃");
    assert_eq!(string_of(&cs, 2, 2), "");
    let mut s = string_from("ab");
    append_chars(&mut s, "cd");
    assert_eq!(s, "abcd");
}
