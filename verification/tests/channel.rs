use sdb::channel::{decode_message, encode_message, CHANNEL_CAPACITY, MESSAGE_LEN};
use sdb::error::SdbError;

fn round_trip(e: SdbError) {
    let bytes = encode_message(&e);
    assert_eq!(bytes.len(), MESSAGE_LEN);
    assert!(bytes.len() <= CHANNEL_CAPACITY);
    assert_ne!(bytes[0], 0, "a message must never look like an unwritten buffer");
    assert_eq!(decode_message(&bytes), Some(e));
}

#[test]
fn every_message_round_trips() {
    round_trip(SdbError::PipeCreationFailed { errno: 24 });
    round_trip(SdbError::ForkFailed { errno: 11 });
    round_trip(SdbError::TracingRequestFailed { errno: 1 });
    round_trip(SdbError::PathContainsNull);
    round_trip(SdbError::ExecFailed { errno: 2 });
    round_trip(SdbError::WaitFailed { errno: 10 });
    round_trip(SdbError::AttachFailed { errno: 3 });
    round_trip(SdbError::ResumeFailed { errno: 3 });
    round_trip(SdbError::RelayReadFailed { errno: 5 });
    round_trip(SdbError::RelayCorrupt);
    round_trip(SdbError::ExecFailed { errno: 0 });
    round_trip(SdbError::ExecFailed { errno: i32::MAX });
}

#[test]
fn exec_failure_encodes_little_endian() {
    let bytes = encode_message(&SdbError::ExecFailed { errno: 2 });
    assert_eq!(bytes, vec![5u8, 2, 0, 0, 0]);
    let bytes = encode_message(&SdbError::ExecFailed { errno: 0x0403_0201 });
    assert_eq!(bytes, vec![5u8, 1, 2, 3, 4]);
}

#[test]
fn nothing_read_means_no_message() {
    assert_eq!(decode_message(&Vec::new()), None);
}

#[test]
fn zero_filled_buffer_is_a_corrupt_message_not_silence() {
    assert_eq!(decode_message(&vec![0u8; 5]), Some(SdbError::RelayCorrupt));
}

#[test]
fn wrong_length_is_corrupt() {
    assert_eq!(decode_message(&vec![5u8]), Some(SdbError::RelayCorrupt));
    assert_eq!(decode_message(&vec![5u8, 2, 0, 0]), Some(SdbError::RelayCorrupt));
    assert_eq!(decode_message(&vec![5u8, 2, 0, 0, 0, 0]), Some(SdbError::RelayCorrupt));
    assert_eq!(decode_message(&vec![0u8; 1024]), Some(SdbError::RelayCorrupt));
}

#[test]
fn unknown_tag_is_corrupt() {
    assert_eq!(decode_message(&vec![11u8, 2, 0, 0, 0]), Some(SdbError::RelayCorrupt));
    assert_eq!(decode_message(&vec![200u8, 2, 0, 0, 0]), Some(SdbError::RelayCorrupt));
}

#[test]
fn error_code_out_of_range_is_corrupt() {
    assert_eq!(
        decode_message(&vec![5u8, 0xff, 0xff, 0xff, 0xff]),
        Some(SdbError::RelayCorrupt)
    );
    assert_eq!(decode_message(&vec![5u8, 0, 0, 0, 0x80]), Some(SdbError::RelayCorrupt));
}
