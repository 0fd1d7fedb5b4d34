use asdbctl::codec::{decode, encode, ProtocolError, REPORT_ID, REPORT_LEN};

#[test]
fn report_constants() {
    assert_eq!(REPORT_ID, 1);
    assert_eq!(REPORT_LEN, 7);
}

#[test]
fn encode_lays_out_seven_bytes() {
    let r = encode(REPORT_ID, 0x12345678);
    assert_eq!(r, vec![1, 0x78, 0x56, 0x34, 0x12, 0, 0]);
}

#[test]
fn encode_zero_brightness() {
    let r = encode(REPORT_ID, 0);
    assert_eq!(r, vec![1, 0, 0, 0, 0, 0, 0]);
}

#[test]
fn encode_max_brightness_value() {
    let r = encode(REPORT_ID, u32::MAX);
    assert_eq!(r.len(), 7);
    assert_eq!(r[0], REPORT_ID);
    assert_eq!(&r[1..5], &[0xff, 0xff, 0xff, 0xff]);
    assert_eq!(r[5], 0);
    assert_eq!(r[6], 0);
}

#[test]
fn encode_keeps_the_given_report_id() {
    let r = encode(9, 400);
    assert_eq!(r[0], 9);
    assert_eq!(r.len(), 7);
    assert_eq!(r[5], 0);
    assert_eq!(r[6], 0);
}

#[test]
fn decode_reads_little_endian_brightness() {
    let buf = vec![1, 0x78, 0x56, 0x34, 0x12, 0, 0];
    assert_eq!(decode(&buf), Ok(0x12345678));
}

#[test]
fn decode_ignores_report_id_and_reserved_bytes() {
    let buf = vec![0xaa, 0x90, 0x01, 0, 0, 0xbb, 0xcc];
    assert_eq!(decode(&buf), Ok(400));
}

#[test]
fn decode_rejects_wrong_lengths() {
    for len in [0usize, 1, 6, 8, 100] {
        let buf = vec![0u8; len];
        assert_eq!(
            decode(&buf),
            Err(ProtocolError::UnexpectedSize { expected: 7, actual: len })
        );
    }
}

#[test]
fn decode_inverts_encode() {
    for value in [0u32, 1, 255, 256, 400, 60000, 0xdead_beef, u32::MAX] {
        let buf = encode(REPORT_ID, value);
        assert_eq!(decode(&buf), Ok(value));
    }
}
