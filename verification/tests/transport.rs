use asdbctl::codec::ProtocolError;
use asdbctl::transport::{
    make_brightness_report, make_brightness_request, make_percent_report, parse_feature_report,
    parse_percent_report, TransportError,
};

#[test]
fn request_report_is_id_and_zeros() {
    assert_eq!(make_brightness_request(), vec![1, 0, 0, 0, 0, 0, 0]);
}

#[test]
fn write_report_carries_the_raw_value() {
    assert_eq!(make_brightness_report(400), vec![1, 0x90, 0x01, 0, 0, 0, 0]);
    assert_eq!(make_brightness_report(60000), vec![1, 0x60, 0xea, 0, 0, 0, 0]);
}

#[test]
fn percent_report_converts_and_clamps() {
    // 0% is the lower bound of the native range, not zero.
    assert_eq!(make_percent_report(0), vec![1, 0x90, 0x01, 0, 0, 0, 0]);
    assert_eq!(make_percent_report(100), vec![1, 0x60, 0xea, 0, 0, 0, 0]);
    // An out-of-scale percentage clamps to the upper bound.
    assert_eq!(make_percent_report(255), vec![1, 0x60, 0xea, 0, 0, 0, 0]);
}

#[test]
fn parse_accepts_a_full_report() {
    let buf = vec![1, 0x90, 0x01, 0, 0, 0, 0];
    assert_eq!(parse_feature_report(&buf, 7), Ok(400));
}

#[test]
fn parse_rejects_a_short_transfer() {
    let buf = vec![1, 0x90, 0x01, 0, 0, 0, 0];
    assert_eq!(
        parse_feature_report(&buf, 5),
        Err(TransportError::SizeMismatch { expected: 7, actual: 5 })
    );
}

#[test]
fn parse_rejects_a_malformed_report() {
    let buf = vec![1, 0x90, 0x01, 0, 0, 0];
    assert_eq!(
        parse_feature_report(&buf, 6),
        Err(TransportError::Protocol {
            error: ProtocolError::UnexpectedSize { expected: 7, actual: 6 }
        })
    );
}

#[test]
fn percent_parse_reads_the_percentage() {
    let buf = vec![1, 0x60, 0xea, 0, 0, 0, 0];
    assert_eq!(parse_percent_report(&buf, 7), Ok(100));
}

#[test]
fn percent_parse_keeps_the_errors() {
    let buf = vec![1, 0x90, 0x01, 0, 0, 0, 0];
    assert_eq!(
        parse_percent_report(&buf, 3),
        Err(TransportError::SizeMismatch { expected: 7, actual: 3 })
    );
}

#[test]
fn set_then_get_round_trips_at_the_bounds() {
    // A device that echoes the written report back: setting 0% then reading
    // yields 0%, and likewise for 100%.
    for percent in [0u8, 100] {
        let written = make_percent_report(percent);
        let size = written.len();
        let read_back = parse_percent_report(&written, size).unwrap();
        let diff = read_back as i32 - percent as i32;
        assert!(diff.abs() <= 1);
        assert_eq!(read_back, percent);
    }
}

#[test]
fn set_then_get_round_trips_everywhere() {
    for percent in 0..=100u8 {
        let written = make_percent_report(percent);
        let read_back = parse_percent_report(&written, written.len()).unwrap();
        assert_eq!(read_back, percent);
    }
}
