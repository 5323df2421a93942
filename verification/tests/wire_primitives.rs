use rustcraft::mc::buffer::{ReadBuffer, WriteBuffer};
use rustcraft::mc::wire::DecodeError;
use rustcraft::mc::{block_pos_to_idx, calc_varint_size, read_var_int};

fn varint(value: i32) -> Vec<u8> {
    let mut buf = WriteBuffer::new();
    buf.write_varint(value);
    buf.data().to_vec()
}

#[test]
fn varint_known_encodings() {
    assert_eq!(varint(0), vec![0x00]);
    assert_eq!(varint(1), vec![0x01]);
    assert_eq!(varint(127), vec![0x7f]);
    assert_eq!(varint(128), vec![0x80, 0x01]);
    assert_eq!(varint(255), vec![0xff, 0x01]);
    assert_eq!(varint(300), vec![0xac, 0x02]);
    assert_eq!(varint(25565), vec![0xdd, 0xc7, 0x01]);
    assert_eq!(varint(2097151), vec![0xff, 0xff, 0x7f]);
    assert_eq!(varint(i32::MAX), vec![0xff, 0xff, 0xff, 0xff, 0x07]);
}

#[test]
fn varint_negative_is_twos_complement_in_five_bytes() {
    assert_eq!(varint(-1), vec![0xff, 0xff, 0xff, 0xff, 0x0f]);
    assert_eq!(varint(i32::MIN), vec![0x80, 0x80, 0x80, 0x80, 0x08]);
}

#[test]
fn varint_reads_back_what_was_written() {
    for value in [0, 1, -1, 127, 128, 16383, 16384, 2097151, 2097152, 268435455, 268435456, i32::MAX, i32::MIN, -123456] {
        let bytes = varint(value);
        assert_eq!(calc_varint_size(value), bytes.len());
        assert_eq!(read_var_int(&bytes), Ok((value, bytes.len())));
        let mut with_tail = bytes.clone();
        with_tail.extend_from_slice(&[0xaa, 0xbb]);
        assert_eq!(read_var_int(&with_tail), Ok((value, bytes.len())));
    }
}

#[test]
fn varint_with_continuation_on_fifth_byte_is_rejected() {
    assert_eq!(
        read_var_int(&[0x80, 0x80, 0x80, 0x80, 0x80, 0x01]),
        Err(DecodeError::MalformedVarInt)
    );
    let mut buf = ReadBuffer::new(vec![0xff, 0xff, 0xff, 0xff, 0xff]);
    assert!(!buf.has_complete_var_int());
    assert_eq!(buf.get_var_int(), Err(DecodeError::MalformedVarInt));
    assert_eq!(buf.remaining(), 5);
}

#[test]
fn varint_that_stops_short_is_incomplete() {
    assert_eq!(read_var_int(&[]), Err(DecodeError::UnexpectedEnd));
    assert_eq!(read_var_int(&[0x80]), Err(DecodeError::UnexpectedEnd));
    assert_eq!(read_var_int(&[0x80, 0x80, 0x80, 0x80]), Err(DecodeError::UnexpectedEnd));
    let buf = ReadBuffer::new(vec![0x80, 0x80]);
    assert!(!buf.has_complete_var_int());
    let buf = ReadBuffer::new(vec![0x80, 0x00]);
    assert!(buf.has_complete_var_int());
}

#[test]
fn varint_accepts_padded_encodings() {
    assert_eq!(read_var_int(&[0x80, 0x00]), Ok((0, 2)));
    assert_eq!(read_var_int(&[0x81, 0x80, 0x00]), Ok((1, 3)));
}

#[test]
fn varint_drops_bits_above_the_32nd() {
    assert_eq!(read_var_int(&[0xff, 0xff, 0xff, 0xff, 0x7f]), Ok((-1, 5)));
}

#[test]
fn fixed_width_values_are_big_endian() {
    let mut buf = WriteBuffer::new();
    buf.write_u8(0xab);
    buf.write_u16(0x1234);
    buf.write_i32(-2);
    buf.write_i64(0x0102030405060708);
    buf.write_u32(0xdeadbeef);
    buf.write_u64(0xfedcba9876543210);
    buf.write_i16(-2);
    buf.write_bool(true);
    buf.write_bool(false);
    assert_eq!(
        buf.data(),
        &[
            0xab, 0x12, 0x34, 0xff, 0xff, 0xff, 0xfe, 0x01, 0x02, 0x03, 0x04, 0x05, 0x06, 0x07,
            0x08, 0xde, 0xad, 0xbe, 0xef, 0xfe, 0xdc, 0xba, 0x98, 0x76, 0x54, 0x32, 0x10, 0xff,
            0xfe, 0x01, 0x00
        ]
    );
    assert_eq!(buf.len(), 31);
    let mut read = ReadBuffer::new(buf.into_vec());
    assert_eq!(read.read_u8(), 0xab);
    assert_eq!(read.read_u16(), 0x1234);
    assert_eq!(read.read_i32(), -2);
    assert_eq!(read.read_i64(), 0x0102030405060708);
    assert_eq!(read.get_u32(), Ok(0xdeadbeef));
    assert_eq!(read.get_u64(), Ok(0xfedcba9876543210));
    assert_eq!(read.get_i16(), Ok(-2));
    assert!(read.read_bool());
    assert!(!read.read_bool());
    assert_eq!(read.remaining(), 0);
    assert_eq!(read.get_u8(), Err(DecodeError::UnexpectedEnd));
}

#[test]
fn u128_is_sixteen_big_endian_bytes() {
    let mut buf = WriteBuffer::new();
    buf.write_u128(0xa1a2a3a4b1b2c1c2d1d2d3d4d5d6d7d8);
    assert_eq!(
        buf.data(),
        &[
            0xa1, 0xa2, 0xa3, 0xa4, 0xb1, 0xb2, 0xc1, 0xc2, 0xd1, 0xd2, 0xd3, 0xd4, 0xd5, 0xd6,
            0xd7, 0xd8
        ]
    );
}

#[test]
fn u16_le_is_low_byte_first() {
    let mut buf = WriteBuffer::new();
    buf.write_u16_le(0x1234);
    assert_eq!(buf.data(), &[0x34, 0x12]);
    let mut read = ReadBuffer::new(vec![0x34, 0x12, 0x01]);
    assert_eq!(read.read_u16_le(), 0x1234);
    assert_eq!(read.remaining(), 1);
}

#[test]
fn string_is_length_prefixed_utf8() {
    let mut buf = WriteBuffer::new();
    buf.write_string("héllo");
    assert_eq!(buf.data(), &[6, b'h', 0xc3, 0xa9, b'l', b'l', b'o']);
    let mut read = ReadBuffer::new(buf.data().to_vec());
    assert_eq!(read.read_string(), "héllo");
    assert_eq!(read.remaining(), 0);
}

#[test]
fn empty_string_is_a_single_zero() {
    let mut buf = WriteBuffer::new();
    buf.write_string("");
    assert_eq!(buf.data(), &[0]);
    let mut read = ReadBuffer::new(vec![0, 9]);
    assert_eq!(read.get_string(), Ok(String::new()));
    assert_eq!(read.remaining(), 1);
}

#[test]
fn string_that_is_not_utf8_is_rejected() {
    let mut read = ReadBuffer::new(vec![2, 0xff, 0xfe, 7]);
    assert_eq!(read.get_string(), Err(DecodeError::InvalidUtf8));
    assert_eq!(read.remaining(), 4);
}

#[test]
fn string_longer_than_the_buffer_is_rejected() {
    let mut read = ReadBuffer::new(vec![5, b'a', b'b']);
    assert_eq!(read.get_string(), Err(DecodeError::UnexpectedEnd));
    assert_eq!(read.remaining(), 3);
}

#[test]
fn string_with_negative_length_is_rejected() {
    let mut read = ReadBuffer::new(vec![0xff, 0xff, 0xff, 0xff, 0x0f, b'a']);
    assert_eq!(read.get_string(), Err(DecodeError::InvalidLength));
}

#[test]
fn write_buf_and_write_bytes_append() {
    let mut a = WriteBuffer::new();
    a.write_u8(1);
    let mut b = WriteBuffer::new();
    b.write_u8(2);
    b.write_u8(3);
    a.write_buf(&b);
    a.write_bytes(&[4, 5]);
    assert_eq!(a.data(), &[1, 2, 3, 4, 5]);
    assert_eq!(a.len(), 5);
}

#[test]
fn skip_passes_over_bytes_and_stops_at_the_end() {
    let mut read = ReadBuffer::new(vec![1, 2, 3, 4]);
    read.skip(2);
    assert_eq!(read.read_u8(), 3);
    read.skip(10);
    assert_eq!(read.remaining(), 0);
}

#[test]
fn read_bytes_takes_a_prefix() {
    let mut read = ReadBuffer::new(vec![1, 2, 3, 4]);
    assert_eq!(read.read_bytes(3), vec![1, 2, 3]);
    assert_eq!(read.get_bytes(2), Err(DecodeError::UnexpectedEnd));
    assert_eq!(read.get_bytes(1), Ok(vec![4]));
}

#[test]
fn bool_reads_any_nonzero_byte_as_true() {
    let mut read = ReadBuffer::new(vec![0, 1, 2, 255]);
    assert_eq!(read.get_bool(), Ok(false));
    assert_eq!(read.get_bool(), Ok(true));
    assert_eq!(read.get_bool(), Ok(true));
    assert_eq!(read.get_bool(), Ok(true));
    assert_eq!(read.get_bool(), Err(DecodeError::UnexpectedEnd));
}

#[test]
fn decompress_inflates_a_zlib_stream() {
    let stream = vec![
        120, 156, 243, 72, 205, 201, 201, 215, 81, 168, 202, 201, 76, 82, 4, 0, 27, 101, 4, 19,
    ];
    let mut read = ReadBuffer::new(stream);
    assert!(read.decompress());
    assert_eq!(read.read_bytes(read.remaining()), b"Hello, zlib!".to_vec());
}

#[test]
fn decompress_leaves_a_bad_stream_alone() {
    let mut read = ReadBuffer::new(vec![1, 2, 3, 4]);
    assert!(!read.decompress());
    assert_eq!(read.remaining(), 4);
    assert_eq!(read.read_u8(), 1);
}

#[test]
fn block_pos_to_idx_is_y_major() {
    assert_eq!(block_pos_to_idx(0, 0, 0), 0);
    assert_eq!(block_pos_to_idx(1, 0, 0), 1);
    assert_eq!(block_pos_to_idx(0, 0, 1), 16);
    assert_eq!(block_pos_to_idx(0, 1, 0), 256);
    assert_eq!(block_pos_to_idx(15, 15, 15), 4095);
}
