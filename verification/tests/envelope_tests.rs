use shmem_lab::envelope::{decode, encode, FramingError};

#[test]
fn round_trip_small_payload() {
    let payload: Vec<u8> = vec![1, 2, 3];
    let frame = encode(&payload, 64).unwrap();
    assert_eq!(frame, vec![3, 0, 0, 0, 1, 2, 3]);
    let back = decode(&frame).unwrap();
    assert_eq!(back, payload);
}

#[test]
fn round_trip_empty_payload() {
    let payload: Vec<u8> = Vec::new();
    let frame = encode(&payload, 4).unwrap();
    assert_eq!(frame, vec![0, 0, 0, 0]);
    assert_eq!(decode(&frame).unwrap(), payload);
}

#[test]
fn round_trip_all_sizes_up_to_capacity() {
    // every payload size P <= capacity - 5 comes back unchanged
    let capacity: usize = 64;
    for p in 0..=(capacity - 5) {
        let payload: Vec<u8> = (0..p).map(|i| (i % 251) as u8).collect();
        let frame = encode(&payload, capacity).unwrap();
        assert_eq!(decode(&frame).unwrap(), payload);
    }
}

#[test]
fn length_prefix_is_little_endian() {
    let payload: Vec<u8> = vec![9; 300];
    let frame = encode(&payload, 1024).unwrap();
    assert_eq!(&frame[0..4], &[44, 1, 0, 0]);
    assert_eq!(frame.len(), 304);
}

#[test]
fn encode_rejects_oversize_payload() {
    let capacity: usize = 16;
    let fits: Vec<u8> = vec![7; 12];
    assert!(encode(&fits, capacity).is_ok());
    let too_big: Vec<u8> = vec![7; 13];
    assert_eq!(encode(&too_big, capacity), Err(FramingError::Oversize));
}

#[test]
fn encode_rejects_tiny_capacity() {
    let payload: Vec<u8> = vec![1];
    assert_eq!(encode(&payload, 3), Err(FramingError::Oversize));
}

#[test]
fn decode_rejects_short_frame() {
    let frame: Vec<u8> = vec![1, 0, 0];
    assert_eq!(decode(&frame), Err(FramingError::Truncated));
}

#[test]
fn decode_rejects_lying_prefix() {
    // the prefix claims five bytes, only one follows
    let frame: Vec<u8> = vec![5, 0, 0, 0, 1];
    assert_eq!(decode(&frame), Err(FramingError::Truncated));
}

#[test]
fn decode_ignores_window_padding() {
    let frame: Vec<u8> = vec![2, 0, 0, 0, 9, 8, 0, 0, 0, 0];
    assert_eq!(decode(&frame).unwrap(), vec![9, 8]);
}
