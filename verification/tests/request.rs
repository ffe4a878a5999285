use qubes_converter::decimal::{
    decimal_string, encode_decimal, parse_decimal, parse_decimal_u16, parse_decimal_usize,
};
use qubes_converter::request::{
    encode_block_header, encode_preamble, parse_request, password_fits_a_line, take_line, Expect,
    RequestReader,
};

#[test]
fn decimal_of_some_numbers() {
    assert_eq!(encode_decimal(0), b"0".to_vec());
    assert_eq!(encode_decimal(7), b"7".to_vec());
    assert_eq!(encode_decimal(10), b"10".to_vec());
    assert_eq!(encode_decimal(65535), b"65535".to_vec());
    assert_eq!(encode_decimal(1_234_567_890), b"1234567890".to_vec());
    assert_eq!(decimal_string(0), "0");
    assert_eq!(decimal_string(42), "42");
    assert_eq!(decimal_string(9999), "9999");
    assert_eq!(decimal_string(2202), "2202");
}

#[test]
fn decimal_is_read_back() {
    for n in [0usize, 1, 9, 10, 99, 100, 255, 256, 65535, 65536, 1 << 31] {
        assert_eq!(parse_decimal_usize(&encode_decimal(n)), Some(n));
    }
    assert_eq!(parse_decimal_u16(b"65535"), Some(65535));
    assert_eq!(parse_decimal_u16(b"65536"), None);
    assert_eq!(parse_decimal_u16(b"0"), Some(0));
    assert_eq!(parse_decimal_u16(b"007"), Some(7));
    assert_eq!(parse_decimal_u16(b"+12"), Some(12));
    assert_eq!(parse_decimal(b"18446744073709551615", u64::MAX), Some(u64::MAX));
    assert_eq!(parse_decimal(b"18446744073709551616", u64::MAX), None);
}

#[test]
fn what_is_no_number_is_refused() {
    assert_eq!(parse_decimal_u16(b""), None);
    assert_eq!(parse_decimal_u16(b"+"), None);
    assert_eq!(parse_decimal_u16(b"-1"), None);
    assert_eq!(parse_decimal_u16(b"1 "), None);
    assert_eq!(parse_decimal_u16(b" 1"), None);
    assert_eq!(parse_decimal_u16(b"12a"), None);
    assert_eq!(parse_decimal_u16(b"++1"), None);
    assert_eq!(parse_decimal_u16(b"1\r"), None);
    assert_eq!(parse_decimal_usize(b"99999999999999999999999999"), None);
}

#[test]
fn preamble_is_password_and_count() {
    assert_eq!(encode_preamble("toor", 3), b"toor\n3\n".to_vec());
    assert_eq!(encode_preamble("", 0), b"\n0\n".to_vec());
    assert_eq!(encode_preamble("pass word", 12), b"pass word\n12\n".to_vec());
}

#[test]
fn block_header_is_the_length() {
    assert_eq!(encode_block_header(0), b"0\n".to_vec());
    assert_eq!(encode_block_header(1024), b"1024\n".to_vec());
}

#[test]
fn passwords_that_fit_a_line() {
    assert!(password_fits_a_line(""));
    assert!(password_fits_a_line("hunter2"));
    assert!(password_fits_a_line("a\rb"));
    assert!(!password_fits_a_line("a\nb"));
    assert!(!password_fits_a_line("ab\n"));
    assert!(!password_fits_a_line("ab\r"));
}

fn request_of(password: &str, files: &[&[u8]]) -> Vec<u8> {
    let mut stream = encode_preamble(password, files.len());
    for file in files {
        stream.extend(encode_block_header(file.len()));
        stream.extend_from_slice(file);
    }
    stream
}

#[test]
fn files_are_read_in_the_order_they_were_sent() {
    let first: &[u8] = b"%PDF-1.4\nbody\n";
    let second: &[u8] = b"";
    let third: &[u8] = &[0, 10, 13, 255, 10, 10];
    let stream = request_of("toor", &[first, second, third]);
    let received = parse_request(&stream).unwrap();
    assert_eq!(received.default_password, b"toor".to_vec());
    assert_eq!(received.files, vec![first.to_vec(), second.to_vec(), third.to_vec()]);
}

#[test]
fn request_without_files() {
    let received = parse_request(b"\n0\n").unwrap();
    assert_eq!(received.default_password, Vec::<u8>::new());
    assert!(received.files.is_empty());
}

#[test]
fn bytes_after_the_last_file_are_left_alone() {
    let received = parse_request(b"pw\n1\n2\nabXYZ").unwrap();
    assert_eq!(received.files, vec![b"ab".to_vec()]);
}

#[test]
fn damaged_requests_are_refused() {
    assert!(parse_request(b"").is_none());
    assert!(parse_request(b"pw\n").is_none());
    assert!(parse_request(b"pw\nx\n").is_none());
    assert!(parse_request(b"pw\n1\n").is_none());
    assert!(parse_request(b"pw\n1\n5\nabc").is_none());
    assert!(parse_request(b"pw\n2\n1\na").is_none());
    assert!(parse_request(b"pw\n65536\n").is_none());
    assert!(parse_request(b"pw\n1\nlen\nabc").is_none());
}

#[test]
fn lines_end_at_the_line_feed() {
    assert_eq!(take_line(b"ab\ncd", 0), Some((b"ab".to_vec(), 3)));
    assert_eq!(take_line(b"ab\ncd", 3), Some((b"cd".to_vec(), 5)));
    assert_eq!(take_line(b"ab\ncd", 5), None);
    assert_eq!(take_line(b"ab\r\ncd", 0), Some((b"ab".to_vec(), 4)));
    assert_eq!(take_line(b"\n", 0), Some((Vec::new(), 1)));
    assert_eq!(take_line(b"ab\r", 0), Some((b"ab\r".to_vec(), 3)));
    assert_eq!(take_line(b"", 0), None);
}

#[test]
fn reader_asks_for_each_file_in_turn() {
    let mut reader = RequestReader::new();
    assert_eq!(reader.expect, Expect::Password);
    reader = reader.on_line(b"toor");
    assert_eq!(reader.expect, Expect::Count);
    reader = reader.on_line(b"2");
    assert_eq!(reader.files, 2);
    assert_eq!(reader.expect, Expect::Length);
    reader = reader.on_line(b"14");
    assert_eq!(reader.expect, Expect::Blob { length: 14 });
    // a line while bytes are due changes nothing
    assert_eq!(reader.on_line(b"3"), reader);
    reader = reader.on_blob();
    assert_eq!(reader.read, 1);
    assert_eq!(reader.expect, Expect::Length);
    reader = reader.on_line(b"0");
    assert_eq!(reader.expect, Expect::Blob { length: 0 });
    reader = reader.on_blob();
    assert_eq!(reader.expect, Expect::End);
    assert_eq!(reader.read, 2);
    assert_eq!(reader.on_end(), reader);
    assert_eq!(reader.on_line(b"1"), reader);
    assert_eq!(reader.on_blob(), reader);
}

#[test]
fn reader_refuses_what_is_no_number() {
    let counted = RequestReader::new().on_line(b"any password \xff");
    assert_eq!(counted.on_line(b"two").expect, Expect::Failed);
    assert_eq!(counted.on_line(b"65536").expect, Expect::Failed);
    assert_eq!(counted.on_line(b"").expect, Expect::Failed);
    assert_eq!(counted.on_line(b"0").expect, Expect::End);
    let length = counted.on_line(b"1");
    assert_eq!(length.on_line(b"-4").expect, Expect::Failed);
    assert_eq!(length.on_line(b"4 ").expect, Expect::Failed);
    let failed = length.on_line(b"x");
    assert_eq!(failed.on_line(b"4"), failed);
    assert_eq!(failed.on_blob(), failed);
}

#[test]
fn request_that_ends_early_is_damaged() {
    assert_eq!(RequestReader::new().on_end().expect, Expect::Failed);
    let counted = RequestReader::new().on_line(b"pw").on_line(b"1");
    assert_eq!(counted.on_end().expect, Expect::Failed);
    assert_eq!(counted.on_line(b"3").on_end().expect, Expect::Failed);
    assert_eq!(counted.on_line(b"3").on_blob().on_end().expect, Expect::End);
}
