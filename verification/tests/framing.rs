use videocall::framing::{
    encode_frame, frame_header, frame_len, header_read_step, next_stream_item,
    FrameError, FrameReader, HeaderRead, ReadStep, MAX_FRAME_PAYLOAD,
};

#[test]
fn header_is_little_endian() {
    assert_eq!(frame_header(0), Ok([0, 0]));
    assert_eq!(frame_header(258), Ok([2, 1]));
    assert_eq!(frame_header(MAX_FRAME_PAYLOAD), Ok([255, 255]));
}

#[test]
fn header_refuses_oversized_payload() {
    assert_eq!(frame_header(MAX_FRAME_PAYLOAD + 1), Err(FrameError::TooBig));
}

#[test]
fn frame_len_reads_little_endian() {
    assert_eq!(frame_len([2, 1]), 258);
    assert_eq!(frame_len([0, 0]), 0);
    assert_eq!(frame_len([255, 255]), 65535);
}

#[test]
fn encode_prefixes_length() {
    assert_eq!(encode_frame(b"hi"), Ok(vec![2, 0, b'h', b'i']));
    assert_eq!(encode_frame(&[]), Ok(vec![0, 0]));
}

#[test]
fn encode_refuses_oversized_payload() {
    let big = vec![7u8; MAX_FRAME_PAYLOAD + 1];
    assert_eq!(encode_frame(&big), Err(FrameError::TooBig));
    let fits = vec![7u8; MAX_FRAME_PAYLOAD];
    let frame = encode_frame(&fits).unwrap();
    assert_eq!(frame.len(), MAX_FRAME_PAYLOAD + 2);
}

#[test]
fn frame_roundtrip() {
    let payload: Vec<u8> = (0..300u32).map(|i| (i % 251) as u8).collect();
    let frame = encode_frame(&payload).unwrap();
    let len = frame_len([frame[0], frame[1]]) as usize;
    assert_eq!(len, payload.len());
    assert_eq!(&frame[2..2 + len], &payload[..]);
}

#[test]
fn header_reading_steps() {
    assert_eq!(header_read_step(0, 0), HeaderRead::Closed);
    assert_eq!(header_read_step(1, 0), HeaderRead::Truncated);
    assert_eq!(header_read_step(0, 1), HeaderRead::Continue(1));
    assert_eq!(header_read_step(1, 1), HeaderRead::Complete);
    assert_eq!(header_read_step(0, 2), HeaderRead::Complete);
}

#[test]
fn stream_items() {
    let (item, more) = next_stream_item::<u32, String>(Ok(Some(5)));
    assert_eq!(item, Some(Ok(5)));
    assert!(more);
    let (item, more) = next_stream_item::<u32, String>(Ok(None));
    assert_eq!(item, None);
    assert!(!more);
    let (item, more) = next_stream_item::<u32, String>(Err("bad".to_string()));
    assert_eq!(item, Some(Err("bad".to_string())));
    assert!(!more);
}

#[test]
fn frames_read_back_in_order() {
    let payloads: Vec<Vec<u8>> = vec![b"one".to_vec(), vec![], vec![9u8; 300]];
    let mut stream = Vec::new();
    for p in &payloads {
        stream.extend(encode_frame(p).unwrap());
    }
    let mut read = Vec::new();
    let mut pos = 0;
    while pos < stream.len() {
        let n = frame_len([stream[pos], stream[pos + 1]]) as usize;
        read.push(stream[pos + 2..pos + 2 + n].to_vec());
        pos += 2 + n;
    }
    assert_eq!(pos, stream.len());
    assert_eq!(read, payloads);
}

/// Feeds `stream` to a reader the way a socket would, at most `max_chunk`
/// bytes per read, and collects what it reports until the stream is over.
fn read_stream(stream: &[u8], max_chunk: usize) -> (Vec<Vec<u8>>, ReadStep) {
    let mut reader = FrameReader::new();
    let mut messages = Vec::new();
    let mut pos = 0;
    loop {
        let n = reader.wanted().min(max_chunk).min(stream.len() - pos);
        match reader.feed(&stream[pos..pos + n]) {
            ReadStep::NeedMore => {}
            ReadStep::Message(payload) => messages.push(payload),
            end => return (messages, end),
        }
        pos += n;
    }
}

#[test]
fn reader_gives_back_frames_in_order() {
    let payloads: Vec<Vec<u8>> = vec![b"hello".to_vec(), vec![], vec![3u8; 700]];
    let mut stream = Vec::new();
    for p in &payloads {
        stream.extend(encode_frame(p).unwrap());
    }
    for max_chunk in [1, 2, 3, 64, 4096] {
        let (messages, end) = read_stream(&stream, max_chunk);
        assert_eq!(messages, payloads);
        assert_eq!(end, ReadStep::Closed);
    }
}

#[test]
fn reader_reports_cut_streams() {
    let frame = encode_frame(b"abc").unwrap();
    assert_eq!(read_stream(&[], 8), (vec![], ReadStep::Closed));
    assert_eq!(read_stream(&frame[..1], 8), (vec![], ReadStep::Truncated));
    assert_eq!(read_stream(&frame[..2], 8), (vec![], ReadStep::ShortPayload));
    assert_eq!(read_stream(&frame[..4], 1), (vec![], ReadStep::ShortPayload));
    let mut two = frame.clone();
    two.extend(&frame[..1]);
    assert_eq!(read_stream(&two, 2), (vec![b"abc".to_vec()], ReadStep::Truncated));
}

#[test]
fn reader_wants_header_then_payload() {
    let mut reader = FrameReader::new();
    assert_eq!(reader.wanted(), 2);
    assert_eq!(reader.feed(&[5]), ReadStep::NeedMore);
    assert_eq!(reader.wanted(), 1);
    assert_eq!(reader.feed(&[0]), ReadStep::NeedMore);
    assert_eq!(reader.wanted(), 5);
    assert_eq!(reader.feed(b"ab"), ReadStep::NeedMore);
    assert_eq!(reader.wanted(), 3);
    assert_eq!(reader.feed(b"cde"), ReadStep::Message(b"abcde".to_vec()));
    assert_eq!(reader.wanted(), 2);
}
