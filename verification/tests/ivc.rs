use autoware_sentinel::ivc::{
    announced_total, fragment, BatchTooLong, Reassembler, Receipt, FRAME_SIZE, HEADER_SIZE, MAX_BATCH, MAX_PAYLOAD,
};

fn batch_of(len: usize) -> Vec<u8> {
    (0..len).map(|i| (i * 7 % 251) as u8).collect()
}

fn frame(total: u16, offset: u16, payload: &[u8]) -> Vec<u8> {
    let mut f = total.to_le_bytes().to_vec();
    f.extend_from_slice(&offset.to_le_bytes());
    f.extend_from_slice(payload);
    f
}

#[test]
fn constants_of_the_wire_format() {
    assert_eq!(FRAME_SIZE, 64);
    assert_eq!(HEADER_SIZE, 4);
    assert_eq!(MAX_PAYLOAD, 60);
    assert_eq!(MAX_BATCH, 2048);
}

#[test]
fn short_batch_is_one_frame() {
    assert_eq!(
        fragment(&[1, 2, 3]),
        Ok(vec![vec![3, 0, 0, 0, 1, 2, 3]])
    );
}

#[test]
fn empty_batch_has_no_frames() {
    assert_eq!(fragment(&[]), Ok(vec![]));
}

#[test]
fn long_batch_is_cut_every_sixty_bytes() {
    let batch = batch_of(130);
    let frames = fragment(&batch).unwrap();
    assert_eq!(frames.len(), 3);
    assert_eq!(frames[0], frame(130, 0, &batch[..60]));
    assert_eq!(frames[1], frame(130, 60, &batch[60..120]));
    assert_eq!(frames[2], frame(130, 120, &batch[120..]));
}

#[test]
fn multi_byte_lengths_are_little_endian() {
    let frames = fragment(&batch_of(MAX_BATCH)).unwrap();
    assert_eq!(frames.len(), 35);
    assert_eq!(&frames[0][..4], &[0x00, 0x08, 0, 0]);
    assert_eq!(&frames[34][..4], &[0x00, 0x08, 0xf8, 0x07]);
    assert_eq!(frames[34].len(), HEADER_SIZE + 8);
}

#[test]
fn batch_beyond_the_limit_is_refused() {
    assert_eq!(fragment(&batch_of(MAX_BATCH + 1)), Err(BatchTooLong));
    assert!(fragment(&batch_of(MAX_BATCH)).is_ok());
}

#[test]
fn trains_come_back_as_the_batches_that_were_sent() {
    let mut r = Reassembler::new();
    for len in [1, 59, 60, 61, 120, 121, 2047, 2048] {
        let batch = batch_of(len);
        let frames = fragment(&batch).unwrap();
        let (last, first) = frames.split_last().unwrap();
        for f in first {
            assert!(r.can_receive(f));
            assert_eq!(r.receive(f), Receipt::Partial);
        }
        assert_eq!(r.receive(last), Receipt::Complete(batch));
        assert_eq!(r.expected_total(), 0);
    }
}

#[test]
fn keep_alives_are_dropped_in_the_middle_of_a_batch() {
    let mut r = Reassembler::new();
    let batch = batch_of(70);
    let frames = fragment(&batch).unwrap();
    assert_eq!(r.receive(&[0, 0, 0, 0]), Receipt::KeepAlive);
    assert_eq!(r.receive(&frames[0]), Receipt::Partial);
    assert_eq!(r.receive(&[0, 0, 0, 0, 9, 9]), Receipt::KeepAlive);
    assert_eq!(r.expected_total(), 70);
    assert_eq!(r.receive(&frames[1]), Receipt::Complete(batch));
}

#[test]
fn runt_frame_abandons_the_batch() {
    let mut r = Reassembler::new();
    let frames = fragment(&batch_of(70)).unwrap();
    assert_eq!(r.receive(&frames[0]), Receipt::Partial);
    assert_eq!(r.receive(&[70, 0, 60]), Receipt::Runt);
    assert_eq!(r.expected_total(), 0);
    assert_eq!(r.receive(&frames[1]), Receipt::Misplaced { offset: 60 });
    assert_eq!(r.receive(&[]), Receipt::Runt);
}

#[test]
fn oversized_announcement_is_dropped() {
    let mut r = Reassembler::new();
    assert_eq!(r.receive(&frame(2049, 0, &[1])), Receipt::Oversized { total: 2049 });
    assert_eq!(r.expected_total(), 0);
}

#[test]
fn payload_beyond_the_end_is_dropped() {
    let mut r = Reassembler::new();
    assert_eq!(
        r.receive(&frame(3, 0, &[1, 2, 3, 4])),
        Receipt::Overrun { offset: 0, payload: 4, total: 3 }
    );
    assert_eq!(r.expected_total(), 0);
    assert_eq!(r.receive(&frame(3, 0, &[1, 2, 3])), Receipt::Complete(vec![1, 2, 3]));
}

#[test]
fn fresh_batch_must_start_at_its_start() {
    let mut r = Reassembler::new();
    assert_eq!(r.receive(&frame(8, 4, &[1, 2, 3, 4])), Receipt::Misplaced { offset: 4 });
    assert_eq!(r.receive(&frame(8, 0, &[1, 2, 3, 4])), Receipt::Partial);
    assert_eq!(
        r.receive(&frame(8, 4, &[5, 6, 7, 8])),
        Receipt::Complete(vec![1, 2, 3, 4, 5, 6, 7, 8])
    );
}

#[test]
fn change_of_length_starts_a_new_batch() {
    let mut r = Reassembler::new();
    assert_eq!(r.receive(&frame(100, 0, &[1; 60])), Receipt::Partial);
    assert_eq!(r.expected_total(), 100);
    assert_eq!(r.receive(&frame(2, 0, &[7, 8])), Receipt::Complete(vec![7, 8]));
}

#[test]
fn frames_beyond_sixteen_bit_arithmetic_are_told() {
    let mut r = Reassembler::new();
    assert_eq!(r.receive(&frame(100, 0, &[1; 60])), Receipt::Partial);
    assert!(!r.can_receive(&frame(100, 65530, &[1; 60])));
    assert!(r.can_receive(&frame(100, 60, &[1; 40])));
}

#[test]
fn change_of_batch_is_told() {
    let mut r = Reassembler::new();
    assert!(!r.changes_batch(&frame(2, 0, &[7])));
    assert_eq!(r.receive(&frame(100, 0, &[1; 60])), Receipt::Partial);
    assert!(r.changes_batch(&frame(2, 0, &[7, 8])));
    assert!(r.changes_batch(&frame(99, 60, &[7, 8])));
    assert_eq!(announced_total(&frame(0x0102, 60, &[7, 8])), 0x0102);
    assert!(!r.changes_batch(&frame(100, 60, &[7, 8])));
    assert!(!r.changes_batch(&[0, 0, 0, 0]));
    assert!(!r.changes_batch(&[2, 0, 0]));
    assert!(!r.changes_batch(&frame(2049, 0, &[7])));
}

#[test]
fn keep_alives_between_all_frames_do_not_matter() {
    let mut r = Reassembler::new();
    let mut received = Vec::new();
    let sent = [batch_of(5), batch_of(130), batch_of(60)];
    for batch in &sent {
        for f in fragment(batch).unwrap() {
            for g in [vec![0, 0, 0, 0], f] {
                assert!(r.can_receive(&g));
                if let Receipt::Complete(b) = r.receive(&g) {
                    received.push(b);
                }
            }
        }
    }
    assert_eq!(received, sent);
}
