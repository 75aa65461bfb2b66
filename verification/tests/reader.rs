use libthreema::bytes::{ByteReader, SliceByteReader};

#[test]
fn read_remaining_returns_all_bytes_once() {
    let data: &[u8] = b"payload bytes";
    let mut reader = SliceByteReader::new(data);
    assert_eq!(reader.read_remaining(), data.to_vec());
    // A second read finds nothing left.
    assert_eq!(reader.read_remaining(), Vec::<u8>::new());
}

#[test]
fn read_remaining_of_empty_payload_is_empty() {
    let mut reader = SliceByteReader::new(b"");
    assert_eq!(reader.read_remaining(), Vec::<u8>::new());
}
