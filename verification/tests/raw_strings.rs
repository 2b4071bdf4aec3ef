use tcp_demo::raw::{extract_string_buffered, extract_string_unbuffered, write_data};
use tcp_demo::wire::{ByteReader, DecodeError};

#[test]
fn test_extract_string_buffered() {
    let message = String::from("Hello");
    let mut reader = ByteReader::new(message.as_bytes().to_vec());
    let result = extract_string_buffered(&mut reader).unwrap();

    assert_eq!(message, result);
}

#[test]
fn test_extract_string_unbuffered() {
    let message = String::from("Hello");
    let mut reader = ByteReader::new(message.as_bytes().to_vec());
    let result = extract_string_unbuffered(&mut reader).unwrap();

    assert_eq!(message, result);
}

#[test]
fn unbuffered_reads_past_one_piece() {
    for len in [0usize, 1, 31, 32, 33, 64, 100] {
        let message = "z".repeat(len);
        let mut reader = ByteReader::new(message.as_bytes().to_vec());
        assert_eq!(extract_string_unbuffered(&mut reader).unwrap(), message);
        assert_eq!(reader.len(), 0);
    }
}

#[test]
fn buffered_takes_all_that_is_pending() {
    let message = "y".repeat(70);
    let mut reader = ByteReader::new(message.as_bytes().to_vec());
    assert_eq!(extract_string_buffered(&mut reader).unwrap(), message);
    assert_eq!(reader.len(), 0);
}

#[test]
fn raw_bytes_that_are_not_utf8_are_refused() {
    let mut reader = ByteReader::new(vec![b'a', 0xff]);
    assert_eq!(extract_string_unbuffered(&mut reader).unwrap_err(), DecodeError::InvalidUtf8);
    assert_eq!(reader.len(), 0);
    let mut reader = ByteReader::new(vec![0xc0, 0x80]);
    assert_eq!(extract_string_buffered(&mut reader).unwrap_err(), DecodeError::InvalidUtf8);
}

#[test]
fn write_data_appends_the_bytes() {
    let mut stream: Vec<u8> = vec![1];
    write_data(&mut stream, "Hello".as_bytes());
    assert_eq!(stream, vec![1, b'H', b'e', b'l', b'l', b'o']);
}

#[test]
fn what_is_written_can_be_extracted() {
    let mut stream: Vec<u8> = vec![];
    write_data(&mut stream, "round trip".as_bytes());
    let mut reader = ByteReader::new(stream);
    assert_eq!(extract_string_unbuffered(&mut reader).unwrap(), "round trip");
}
