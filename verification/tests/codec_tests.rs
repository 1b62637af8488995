use file_transfer::codec::{chunk_read_step, encode_frames, reassemble};
use file_transfer::frame::{Frame, TransferError, CHUNK_SIZE_BYTES};

fn make_data(n: usize) -> Vec<u8> {
    let mut data = Vec::with_capacity(n);
    for i in 0..n {
        data.push((i % 251) as u8);
    }
    data
}

fn chunk_count(frames: &[Frame]) -> usize {
    frames.iter().filter(|f| matches!(f, Frame::Chunk(_))).count()
}

fn round_trip(size: usize) {
    let data = make_data(size);
    let frames = encode_frames("file.bin", &data);
    let (name, bytes) = reassemble(&frames).expect("encoding must reassemble");
    assert_eq!(name, "file.bin");
    assert_eq!(bytes, data);
}

#[test]
fn round_trip_empty_file() {
    round_trip(0);
}

#[test]
fn round_trip_one_byte() {
    round_trip(1);
}

#[test]
fn round_trip_one_under_chunk() {
    round_trip(CHUNK_SIZE_BYTES - 1);
}

#[test]
fn round_trip_exactly_one_chunk() {
    round_trip(CHUNK_SIZE_BYTES);
}

#[test]
fn round_trip_one_over_chunk() {
    round_trip(CHUNK_SIZE_BYTES + 1);
}

#[test]
fn round_trip_three_chunks() {
    round_trip(3 * CHUNK_SIZE_BYTES);
}

#[test]
fn frame_count_is_ceiling() {
    let cases = [
        (0, 0),
        (1, 1),
        (CHUNK_SIZE_BYTES - 1, 1),
        (CHUNK_SIZE_BYTES, 1),
        (CHUNK_SIZE_BYTES + 1, 2),
        (3 * CHUNK_SIZE_BYTES, 3),
    ];
    for (size, expected_chunks) in cases {
        let data = make_data(size);
        let frames = encode_frames("f", &data);
        assert_eq!(frames.len(), 1 + expected_chunks);
        assert_eq!(chunk_count(&frames), expected_chunks);
        assert!(matches!(frames[0], Frame::Name(_)));
    }
}

#[test]
fn frames_carry_exact_slices() {
    let data = make_data(2 * CHUNK_SIZE_BYTES + 5);
    let frames = encode_frames("f", &data);
    assert_eq!(frames.len(), 4);
    match &frames[1] {
        Frame::Chunk(c) => assert_eq!(c.as_slice(), &data[..CHUNK_SIZE_BYTES]),
        Frame::Name(_) => panic!("second frame must be a chunk"),
    }
    match &frames[2] {
        Frame::Chunk(c) => {
            assert_eq!(c.as_slice(), &data[CHUNK_SIZE_BYTES..2 * CHUNK_SIZE_BYTES])
        }
        Frame::Name(_) => panic!("third frame must be a chunk"),
    }
    match &frames[3] {
        Frame::Chunk(c) => assert_eq!(c.as_slice(), &data[2 * CHUNK_SIZE_BYTES..]),
        Frame::Name(_) => panic!("fourth frame must be a chunk"),
    }
}

#[test]
fn reassemble_empty_stream_is_protocol_violation() {
    let frames: Vec<Frame> = Vec::new();
    assert_eq!(reassemble(&frames), Err(TransferError::ProtocolViolation));
}

#[test]
fn reassemble_chunk_first_is_protocol_violation() {
    let frames = vec![Frame::Chunk(vec![1, 2, 3])];
    assert_eq!(reassemble(&frames), Err(TransferError::ProtocolViolation));
}

#[test]
fn reassemble_second_name_is_protocol_violation() {
    let frames = vec![
        Frame::Name("a".to_string()),
        Frame::Chunk(vec![1]),
        Frame::Name("b".to_string()),
    ];
    assert_eq!(reassemble(&frames), Err(TransferError::ProtocolViolation));
}

#[test]
fn chunk_read_step_empty_read_stops() {
    let (frame, keep_reading) = chunk_read_step(Vec::new());
    assert!(frame.is_none());
    assert!(!keep_reading);
}

#[test]
fn chunk_read_step_short_read_emits_and_stops() {
    let (frame, keep_reading) = chunk_read_step(vec![7, 8]);
    match frame {
        Some(Frame::Chunk(c)) => assert_eq!(c, vec![7, 8]),
        _ => panic!("a short read must still yield its chunk"),
    }
    assert!(!keep_reading);
}

#[test]
fn chunk_read_step_full_read_emits_and_continues() {
    let bytes = make_data(CHUNK_SIZE_BYTES);
    let (frame, keep_reading) = chunk_read_step(bytes.clone());
    match frame {
        Some(Frame::Chunk(c)) => assert_eq!(c, bytes),
        _ => panic!("a full read must yield its chunk"),
    }
    assert!(keep_reading);
}
