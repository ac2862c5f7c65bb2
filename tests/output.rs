use acv::output::{packet, FrameOutcome, NoOutput};

#[test]
fn encoded_frame_gets_zero_header() {
    let p = packet(&FrameOutcome::Encoded(vec![0xFF, 0xD8, 0x01]));
    assert_eq!(p, Some(vec![0, 0, 0, 0, 0xFF, 0xD8, 0x01]));
}

#[test]
fn empty_result_sends_null() {
    assert_eq!(packet(&FrameOutcome::Empty), Some(b"null".to_vec()));
}

#[test]
fn failure_sends_sos_and_message() {
    let p = packet(&FrameOutcome::Failed(b"bad frame".to_vec()));
    assert_eq!(p, Some(b"SOSbad frame".to_vec()));
}

#[test]
fn failed_encoding_sends_nothing() {
    assert_eq!(packet(&FrameOutcome::EncodingFailed), None);
}

#[test]
fn no_output_is_a_plain_value() {
    assert_eq!(NoOutput, NoOutput::default());
}
