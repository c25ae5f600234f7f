use idgrab::binary_io::{
    read_be16, read_be32, read_byte, read_le16, read_le32, write_be16, write_be32, write_byte,
    write_le16, write_le32, ByteReader, ReadError,
};

#[test]
fn write_bytes_in_both_orders() {
    let mut out = Vec::new();
    write_byte(0xab, &mut out);
    write_le16(0x1234, &mut out);
    write_be16(0x1234, &mut out);
    write_le32(0x89abcdef, &mut out);
    write_be32(0x89abcdef, &mut out);
    assert_eq!(
        out,
        vec![0xab, 0x34, 0x12, 0x12, 0x34, 0xef, 0xcd, 0xab, 0x89, 0x89, 0xab, 0xcd, 0xef]
    );
}

#[test]
fn write_appends_to_what_is_there() {
    let mut out = vec![1, 2, 3];
    write_le16(0xff00, &mut out);
    assert_eq!(out, vec![1, 2, 3, 0x00, 0xff]);
}

#[test]
fn write_matches_std_encoding() {
    for value in [0u32, 1, 0xff, 0x100, 0xffff, 0x1_0000, 0x00ff_00ff, 0xdead_beef, u32::MAX] {
        let mut le = Vec::new();
        write_le32(value, &mut le);
        assert_eq!(le, value.to_le_bytes().to_vec());
        let mut be = Vec::new();
        write_be32(value, &mut be);
        assert_eq!(be, value.to_be_bytes().to_vec());
        let short = (value & 0xffff) as u16;
        let mut le = Vec::new();
        write_le16(short, &mut le);
        assert_eq!(le, short.to_le_bytes().to_vec());
        let mut be = Vec::new();
        write_be16(short, &mut be);
        assert_eq!(be, short.to_be_bytes().to_vec());
    }
}

#[test]
fn read_values_in_both_orders() {
    let data = [0xab, 0x34, 0x12, 0x12, 0x34, 0xef, 0xcd, 0xab, 0x89, 0x89, 0xab, 0xcd, 0xef];
    let mut reader = ByteReader::new(&data);
    assert_eq!(reader.remaining(), 13);
    assert_eq!(read_byte(&mut reader), Ok(0xab));
    assert_eq!(read_le16(&mut reader), Ok(0x1234));
    assert_eq!(read_be16(&mut reader), Ok(0x1234));
    assert_eq!(read_le32(&mut reader), Ok(0x89abcdef));
    assert_eq!(reader.remaining(), 4);
    assert_eq!(read_be32(&mut reader), Ok(0x89abcdef));
    assert_eq!(reader.remaining(), 0);
}

#[test]
fn read_past_the_end_fails_and_drains() {
    let data = [1, 2, 3];
    let mut reader = ByteReader::new(&data);
    assert_eq!(read_le32(&mut reader), Err(ReadError::UnexpectedEof));
    assert_eq!(reader.remaining(), 0);
    assert_eq!(read_byte(&mut reader), Err(ReadError::UnexpectedEof));

    let mut reader = ByteReader::new(&data);
    assert_eq!(read_be32(&mut reader), Err(ReadError::UnexpectedEof));
    let mut reader = ByteReader::new(&data[..1]);
    assert_eq!(read_le16(&mut reader), Err(ReadError::UnexpectedEof));
    let mut reader = ByteReader::new(&data[..1]);
    assert_eq!(read_be16(&mut reader), Err(ReadError::UnexpectedEof));
    let mut reader = ByteReader::new(&[]);
    assert_eq!(read_byte(&mut reader), Err(ReadError::UnexpectedEof));
}

#[test]
fn read_gives_back_what_was_written() {
    for value in [0u32, 1, 0x1234, 0xffff, 0x1_0000, 0xdead_beef, u32::MAX] {
        let mut out = Vec::new();
        write_le32(value, &mut out);
        write_be32(value, &mut out);
        write_le16(value as u16, &mut out);
        write_be16(value as u16, &mut out);
        write_byte(value as u8, &mut out);
        let mut reader = ByteReader::new(&out);
        assert_eq!(read_le32(&mut reader), Ok(value));
        assert_eq!(read_be32(&mut reader), Ok(value));
        assert_eq!(read_le16(&mut reader), Ok(value as u16));
        assert_eq!(read_be16(&mut reader), Ok(value as u16));
        assert_eq!(read_byte(&mut reader), Ok(value as u8));
        assert_eq!(reader.remaining(), 0);
    }
}
