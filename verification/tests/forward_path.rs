use tls_relay::forward::{on_forward_peek, on_forward_record, ForwardAction, CORRUPT_BYTE};
use tls_relay::stamp::CorruptionStamp;

#[test]
fn corrupt_byte_is_fixed() {
    assert_eq!(CORRUPT_BYTE, 0x12);
}

#[test]
fn forward_peek_of_nothing_stops_the_pump() {
    assert_eq!(on_forward_peek(&[]), ForwardAction::Stop);
}

#[test]
fn forward_peek_asks_for_the_whole_application_record() {
    let chunk: [u8; 10] = [0x17, 0x03, 0x03, 0x00, 0x05, 0xAA, 0xBB, 0xCC, 0xDD, 0xEE];
    assert_eq!(
        on_forward_peek(&chunk),
        ForwardAction::ReadRecord { size: 10, content_len: 5, consume: 10 }
    );
}

#[test]
fn forward_peek_sizes_the_record_by_the_header_not_the_chunk() {
    let head_only: [u8; 5] = [0x17, 0x03, 0x03, 0x01, 0x00];
    assert_eq!(
        on_forward_peek(&head_only),
        ForwardAction::ReadRecord { size: 261, content_len: 256, consume: 5 }
    );
    let partial: [u8; 7] = [0x17, 0x03, 0x03, 0x00, 0x20, 0x01, 0x02];
    assert_eq!(
        on_forward_peek(&partial),
        ForwardAction::ReadRecord { size: 37, content_len: 32, consume: 7 }
    );
    let coalesced: [u8; 9] = [0x17, 0x03, 0x03, 0x00, 0x01, 0xAB, 0x16, 0x03, 0x03];
    assert_eq!(
        on_forward_peek(&coalesced),
        ForwardAction::ReadRecord { size: 6, content_len: 1, consume: 9 }
    );
}

#[test]
fn forward_peek_sends_a_handshake_record_as_it_is() {
    let chunk: [u8; 9] = [0x16, 0x03, 0x03, 0x00, 0x04, 0xAA, 0xBB, 0xCC, 0xDD];
    assert_eq!(
        on_forward_peek(&chunk),
        ForwardAction::Send {
            bytes: vec![0x16, 0x03, 0x03, 0x00, 0x04, 0xAA, 0xBB, 0xCC, 0xDD],
            consume: 9
        }
    );
}

#[test]
fn forward_peek_sends_an_alert_record_as_it_is() {
    let chunk: [u8; 7] = [0x15, 0x03, 0x03, 0x00, 0x02, 0x02, 0x32];
    assert_eq!(
        on_forward_peek(&chunk),
        ForwardAction::Send { bytes: vec![0x15, 0x03, 0x03, 0x00, 0x02, 0x02, 0x32], consume: 7 }
    );
}

#[test]
fn forward_peek_leaves_short_chunks_unclassified() {
    assert_eq!(
        on_forward_peek(&[0x17]),
        ForwardAction::Send { bytes: vec![0x17], consume: 1 }
    );
    assert_eq!(
        on_forward_peek(&[0x17, 0x03, 0x03, 0x00]),
        ForwardAction::Send { bytes: vec![0x17, 0x03, 0x03, 0x00], consume: 4 }
    );
}

#[test]
fn forward_peek_ignores_application_data_of_other_versions() {
    let tls10: [u8; 6] = [0x17, 0x03, 0x01, 0x00, 0x01, 0x99];
    assert_eq!(
        on_forward_peek(&tls10),
        ForwardAction::Send { bytes: vec![0x17, 0x03, 0x01, 0x00, 0x01, 0x99], consume: 6 }
    );
    let tls13: [u8; 6] = [0x17, 0x03, 0x04, 0x00, 0x01, 0x99];
    assert_eq!(
        on_forward_peek(&tls13),
        ForwardAction::Send { bytes: vec![0x17, 0x03, 0x04, 0x00, 0x01, 0x99], consume: 6 }
    );
}

#[test]
fn corrupted_record_differs_in_its_last_byte_only() {
    let record: Vec<u8> = vec![0x17, 0x03, 0x03, 0x00, 0x05, 0xAA, 0xBB, 0xCC, 0xDD, 0xEE];
    let mut stamp = CorruptionStamp::new();
    let out = on_forward_record(record, true, 1_000, &mut stamp);
    assert_eq!(out, vec![0x17, 0x03, 0x03, 0x00, 0x05, 0xAA, 0xBB, 0xCC, 0xDD, 0x12]);
    assert_eq!(out.len(), 10);
    assert_eq!(stamp.sent_at, Some(1_000));
}

#[test]
fn corruption_replaces_an_earlier_stamp() {
    let mut stamp = CorruptionStamp { sent_at: Some(7) };
    let out = on_forward_record(vec![0x17, 0x03, 0x03, 0x00, 0x01, 0x55], true, 90, &mut stamp);
    assert_eq!(out, vec![0x17, 0x03, 0x03, 0x00, 0x01, 0x12]);
    assert_eq!(stamp.sent_at, Some(90));
}

#[test]
fn corruption_of_an_empty_record_falls_on_the_header() {
    let mut stamp = CorruptionStamp::new();
    let out = on_forward_record(vec![0x17, 0x03, 0x03, 0x00, 0x00], true, 3, &mut stamp);
    assert_eq!(out, vec![0x17, 0x03, 0x03, 0x00, 0x12]);
    assert_eq!(stamp.sent_at, Some(3));
}

#[test]
fn corruption_leaves_a_record_that_already_ends_in_the_value() {
    let mut stamp = CorruptionStamp::new();
    let out = on_forward_record(vec![0x17, 0x03, 0x03, 0x00, 0x02, 0x34, 0x12], true, 8, &mut stamp);
    assert_eq!(out, vec![0x17, 0x03, 0x03, 0x00, 0x02, 0x34, 0x12]);
    assert_eq!(stamp.sent_at, Some(8));
}

#[test]
fn peaceful_mode_forwards_the_record_unchanged() {
    let record: Vec<u8> = vec![0x17, 0x03, 0x03, 0x00, 0x05, 0xAA, 0xBB, 0xCC, 0xDD, 0xEE];
    let mut stamp = CorruptionStamp::new();
    let out = on_forward_record(record, false, 1_000, &mut stamp);
    assert_eq!(out, vec![0x17, 0x03, 0x03, 0x00, 0x05, 0xAA, 0xBB, 0xCC, 0xDD, 0xEE]);
    assert_eq!(stamp.sent_at, None);
}

#[test]
fn peaceful_mode_keeps_an_earlier_stamp() {
    let mut stamp = CorruptionStamp { sent_at: Some(7) };
    let out = on_forward_record(vec![0x17, 0x03, 0x03, 0x00, 0x01, 0x55], false, 90, &mut stamp);
    assert_eq!(out, vec![0x17, 0x03, 0x03, 0x00, 0x01, 0x55]);
    assert_eq!(stamp.sent_at, Some(7));
}

#[test]
fn peaceful_mode_accepts_an_empty_buffer() {
    let mut stamp = CorruptionStamp::new();
    let out = on_forward_record(Vec::new(), false, 1, &mut stamp);
    assert_eq!(out, Vec::<u8>::new());
    assert_eq!(stamp.sent_at, None);
}
