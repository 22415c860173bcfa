use roland::framing::{encode_frame, Decoded, FrameDecoder, MAX_PAYLOAD_LEN};

fn round_trip(payload: &[u8]) {
    let frame = encode_frame(payload);
    assert_eq!(*frame.last().unwrap(), 0);
    assert!(frame[..frame.len() - 1].iter().all(|b| *b != 0));
    let mut dec = FrameDecoder::new();
    let events = dec.push(&frame);
    assert_eq!(events, vec![Decoded::Frame(payload.to_vec())]);
}

#[test]
fn encode_stuffs_zeros() {
    assert_eq!(encode_frame(&[0x11, 0x22, 0x00, 0x33]), vec![3, 0x11, 0x22, 2, 0x33, 0]);
    assert_eq!(encode_frame(&[0x00]), vec![1, 1, 0]);
    assert_eq!(encode_frame(&[0x00, 0x00]), vec![1, 1, 1, 0]);
    assert_eq!(encode_frame(&[0x05]), vec![2, 5, 0]);
}

#[test]
fn encode_empty_payload_is_a_bare_delimiter() {
    assert_eq!(encode_frame(&[]), vec![0]);
}

#[test]
fn encode_long_run_uses_full_group() {
    let payload: Vec<u8> = (1..=254).map(|i| i as u8).collect();
    let frame = encode_frame(&payload);
    assert_eq!(frame.len(), 256);
    assert_eq!(frame[0], 0xff);
    assert_eq!(&frame[1..255], &payload[..]);
    assert_eq!(frame[255], 0);

    let mut longer = payload.clone();
    longer.push(7);
    let frame = encode_frame(&longer);
    assert_eq!(frame.len(), 258);
    assert_eq!(&frame[255..], &[2, 7, 0]);
}

#[test]
fn round_trip_boundary_payloads() {
    round_trip(&[0]);
    round_trip(&[0, 0, 0]);
    round_trip(&[0xff]);
    round_trip(&[4, 0xfe, 0xff, 0xff, 0xff, 0x0f]);
    let run253: Vec<u8> = vec![9; 253];
    round_trip(&run253);
    let run254: Vec<u8> = vec![9; 254];
    round_trip(&run254);
    let run255: Vec<u8> = vec![9; 255];
    round_trip(&run255);
    let mut zero_after_run: Vec<u8> = vec![9; 254];
    zero_after_run.push(0);
    round_trip(&zero_after_run);
    let mixed: Vec<u8> = (0..MAX_PAYLOAD_LEN).map(|i| (i % 7) as u8).collect();
    round_trip(&mixed);
    let no_zero: Vec<u8> = (0..MAX_PAYLOAD_LEN).map(|i| (i % 255 + 1) as u8).collect();
    round_trip(&no_zero);
}

#[test]
fn round_trip_of_command_payloads() {
    // variant tag, then fields: Motor(-65535, 65535) and an empty-list Reset
    round_trip(&[3, 0xfd, 0xff, 0x07, 0xfe, 0xff, 0x07]);
    round_trip(&[4, 0]);
    round_trip(&[0, 0]);
}

#[test]
fn decoder_accepts_any_split() {
    let frame = encode_frame(&[1, 0, 2, 0, 3]);
    let mut dec = FrameDecoder::new();
    let mut events = Vec::new();
    for b in frame.iter() {
        events.extend(dec.push(&[*b]));
    }
    assert_eq!(events, vec![Decoded::Frame(vec![1, 0, 2, 0, 3])]);
}

#[test]
fn decoder_yields_frames_in_order() {
    let mut bytes = encode_frame(&[1, 2]);
    bytes.extend(encode_frame(&[3]));
    bytes.extend(encode_frame(&[0]));
    let mut dec = FrameDecoder::new();
    assert_eq!(
        dec.push(&bytes),
        vec![Decoded::Frame(vec![1, 2]), Decoded::Frame(vec![3]), Decoded::Frame(vec![0])]
    );
}

#[test]
fn corrupted_frame_is_discarded_and_next_frame_recovered() {
    let mut first = encode_frame(&[1, 2, 3, 4]);
    first[0] = 0x30;
    let second = encode_frame(&[9, 0, 9]);
    let mut bytes = first;
    bytes.extend(second);
    let mut dec = FrameDecoder::new();
    assert_eq!(dec.push(&bytes), vec![Decoded::Discarded, Decoded::Frame(vec![9, 0, 9])]);
}

#[test]
fn garbage_before_delimiter_does_not_hurt_next_frame() {
    let mut dec = FrameDecoder::new();
    assert_eq!(dec.push(&[0x40, 0x41, 0x42]), vec![]);
    let mut bytes = vec![0u8];
    bytes.extend(encode_frame(&[5, 6]));
    assert_eq!(dec.push(&bytes), vec![Decoded::Discarded, Decoded::Frame(vec![5, 6])]);
}

#[test]
fn empty_frames_are_skipped() {
    let mut dec = FrameDecoder::new();
    assert_eq!(dec.push(&[0, 0, 0]), vec![]);
}

#[test]
fn overlong_frame_is_discarded() {
    let mut dec = FrameDecoder::new();
    let noise: Vec<u8> = vec![0x11; 600];
    assert_eq!(dec.push(&noise), vec![]);
    let mut bytes = vec![0u8];
    bytes.extend(encode_frame(&[7]));
    assert_eq!(dec.push(&bytes), vec![Decoded::Discarded, Decoded::Frame(vec![7])]);
}
