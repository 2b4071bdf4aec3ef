use tcp_demo::wire::ByteReader;

#[test]
fn read_moves_at_most_the_limit() {
    let mut reader = ByteReader::new(vec![1, 2, 3, 4, 5]);
    let mut out: Vec<u8> = vec![0];
    assert_eq!(reader.read(&mut out, 2), 2);
    assert_eq!(out, vec![0, 1, 2]);
    assert_eq!(reader.len(), 3);
    assert_eq!(reader.read(&mut out, 10), 3);
    assert_eq!(out, vec![0, 1, 2, 3, 4, 5]);
    assert_eq!(reader.read(&mut out, 10), 0);
    assert_eq!(reader.len(), 0);
}

#[test]
fn fill_buf_shows_and_consume_takes() {
    let mut reader = ByteReader::new(vec![1, 2, 3]);
    assert_eq!(reader.fill_buf(), &[1, 2, 3]);
    assert_eq!(reader.fill_buf(), &[1, 2, 3]);
    reader.consume(2);
    assert_eq!(reader.fill_buf(), &[3]);
    reader.consume(0);
    assert_eq!(reader.len(), 1);
}

#[test]
fn feed_appends_behind_the_unread_bytes() {
    let mut reader = ByteReader::new(vec![1, 2]);
    reader.consume(1);
    reader.feed(&[3, 4]);
    assert_eq!(reader.fill_buf(), &[2, 3, 4]);
    assert_eq!(reader.len(), 3);
}

#[test]
fn consume_stops_at_the_end() {
    let mut reader = ByteReader::new(vec![1, 2, 3]);
    reader.consume(7);
    assert_eq!(reader.len(), 0);
    assert_eq!(reader.fill_buf(), &[] as &[u8]);
    reader.feed(&[4]);
    assert_eq!(reader.fill_buf(), &[4]);
}

#[test]
fn a_new_reader_holds_all_its_bytes() {
    let reader = ByteReader::new(vec![5, 6]);
    assert_eq!(reader.len(), 2);
    assert_eq!(ByteReader::new(Vec::new()).len(), 0);
}
