use mager::framing::{decode_frame, encode_frame, FrameDecoder, FramingError};

#[test]
fn frame_has_little_endian_header() {
    let frame = encode_frame(b"hello").unwrap();
    assert_eq!(frame, vec![5, 0, 0, 0, b'h', b'e', b'l', b'l', b'o']);
}

#[test]
fn frame_of_empty_payload_is_header_alone() {
    assert_eq!(encode_frame(b"").unwrap(), vec![0, 0, 0, 0]);
}

#[test]
fn header_counts_in_base_256() {
    let payload = vec![7u8; 0x0001_0203];
    let frame = encode_frame(&payload).unwrap();
    assert_eq!(&frame[..4], &[0x03, 0x02, 0x01, 0x00]);
    assert_eq!(frame.len(), 4 + payload.len());
}

#[test]
fn decode_gives_payload_back() {
    let frame = encode_frame(b"{\"a\":1}").unwrap();
    assert_eq!(decode_frame(&frame), Ok(b"{\"a\":1}".to_vec()));
}

#[test]
fn decode_ignores_what_follows_the_frame() {
    let mut stream = encode_frame(b"abc").unwrap();
    stream.extend_from_slice(b"trailing");
    assert_eq!(decode_frame(&stream), Ok(b"abc".to_vec()));
}

#[test]
fn decode_of_short_stream_is_truncated() {
    assert_eq!(decode_frame(&[1, 0]), Err(FramingError::Truncated));
    assert_eq!(decode_frame(&[3, 0, 0, 0, b'a', b'b']), Err(FramingError::Truncated));
    assert_eq!(decode_frame(&[]), Err(FramingError::Truncated));
}

#[test]
fn decoder_fed_one_byte_at_a_time() {
    let payload: Vec<u8> = (0..=255u8).cycle().take(1000).collect();
    let frame = encode_frame(&payload).unwrap();
    let mut reader = FrameDecoder::new();
    assert_eq!(reader.missing(), 4);
    for (i, b) in frame.iter().enumerate() {
        assert!(reader.missing() > 0, "complete too early at byte {}", i);
        assert_eq!(reader.feed(&[*b]), 1);
    }
    assert_eq!(reader.missing(), 0);
    assert_eq!(reader.finish(), Ok(payload));
}

#[test]
fn decoder_fed_in_uneven_pieces() {
    let payload = b"0123456789abcdefghij".to_vec();
    let frame = encode_frame(&payload).unwrap();
    let mut reader = FrameDecoder::new();
    assert_eq!(reader.feed(&frame[..2]), 2);
    assert_eq!(reader.missing(), 2);
    assert_eq!(reader.feed(&frame[2..7]), 5);
    assert_eq!(reader.missing(), 17);
    assert_eq!(reader.feed(&frame[7..]), 17);
    assert_eq!(reader.missing(), 0);
    assert_eq!(reader.finish(), Ok(payload));
}

#[test]
fn decoder_leaves_bytes_after_the_frame() {
    let mut stream = encode_frame(b"xy").unwrap();
    stream.extend_from_slice(b"next");
    let mut reader = FrameDecoder::new();
    assert_eq!(reader.feed(&stream), 6);
    assert_eq!(reader.feed(b"more"), 0);
    assert_eq!(reader.finish(), Ok(b"xy".to_vec()));
}

#[test]
fn decoder_closed_early_is_truncated() {
    let frame = encode_frame(b"abcdef").unwrap();
    let mut reader = FrameDecoder::new();
    reader.feed(&frame[..frame.len() - 1]);
    assert_eq!(reader.missing(), 1);
    assert_eq!(reader.finish(), Err(FramingError::Truncated));
    let mut reader = FrameDecoder::new();
    reader.feed(&frame[..3]);
    assert_eq!(reader.finish(), Err(FramingError::Truncated));
}

#[test]
fn pieces_of_any_size_give_the_payload() {
    let payload: Vec<u8> = (0..200u8).collect();
    let frame = encode_frame(&payload).unwrap();
    for size in [1usize, 2, 3, 5, 64, 1000] {
        let chunks: Vec<Vec<u8>> = frame.chunks(size).map(|c| c.to_vec()).collect();
        assert_eq!(mager::framing::decode_pieces(&chunks), Ok(payload.clone()));
    }
    let with_empty: Vec<Vec<u8>> = vec![vec![], frame[..1].to_vec(), vec![], frame[1..].to_vec(), vec![9, 9]];
    assert_eq!(mager::framing::decode_pieces(&with_empty), Ok(payload));
    assert_eq!(mager::framing::decode_pieces(&vec![]), Err(FramingError::Truncated));
    assert_eq!(
        mager::framing::decode_pieces(&vec![frame[..7].to_vec()]),
        Err(FramingError::Truncated)
    );
}

#[test]
fn header_is_read_as_it_is_written() {
    for len in [0u32, 1, 255, 256, 65535, 65536, 0x0102_0304, u32::MAX] {
        let header = mager::framing::encode_header(len);
        assert_eq!(header.len(), 4);
        assert_eq!(header, len.to_le_bytes().to_vec());
        assert_eq!(mager::framing::decode_header(&header), len);
    }
}
