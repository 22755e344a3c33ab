use vibe::status::{StatusCode, StatusData};

#[test]
fn new_status_is_all_zero() {
    let s = StatusData::new();
    assert_eq!(
        s,
        StatusData {
            crlf: 0,
            output_buffer_size: 0,
            output_buffer_fullness: 0,
            elapsed_seconds: 0,
            elapsed_milliseconds: 0,
            timestamp: 0
        }
    );
    assert_eq!(StatusData::default(), s);
}

#[test]
fn line_ends_wrap_at_256() {
    let mut s = StatusData::new();
    s.add_crlf(200);
    assert_eq!(s.crlf, 200);
    s.add_crlf(100);
    assert_eq!(s.crlf, 44);
}

#[test]
fn elapsed_in_two_units() {
    let mut s = StatusData::new();
    s.set_elapsed(2_999_999);
    assert_eq!(s.elapsed_milliseconds, 2999);
    assert_eq!(s.elapsed_seconds, 2);
    s.set_elapsed(3_000_000);
    assert_eq!(s.elapsed_milliseconds, 3000);
    assert_eq!(s.elapsed_seconds, 3);
}

#[test]
fn elapsed_milliseconds_are_reduced_to_32_bits() {
    let mut s = StatusData::new();
    s.set_elapsed(4_294_967_296_000 + 5_000);
    assert_eq!(s.elapsed_milliseconds, 5);
    assert_eq!(s.elapsed_seconds, 4_294_967);
}

#[test]
fn setters_touch_one_field() {
    let mut s = StatusData::new();
    s.set_output_buffer_size(1);
    s.set_output_buffer_fullness(2);
    s.set_elapsed_seconds(3);
    s.set_elapsed_milli_seconds(4);
    s.set_timestamp(5);
    s.add_crlf(6);
    assert_eq!(
        s,
        StatusData {
            crlf: 6,
            output_buffer_size: 1,
            output_buffer_fullness: 2,
            elapsed_seconds: 3,
            elapsed_milliseconds: 4,
            timestamp: 5
        }
    );
}

#[test]
fn flush_keeps_line_ends_and_timestamp() {
    let mut s = StatusData {
        crlf: 6,
        output_buffer_size: 1,
        output_buffer_fullness: 2,
        elapsed_seconds: 3,
        elapsed_milliseconds: 4,
        timestamp: 5,
    };
    s.flush();
    assert_eq!(
        s,
        StatusData {
            crlf: 6,
            output_buffer_size: 0,
            output_buffer_fullness: 0,
            elapsed_seconds: 0,
            elapsed_milliseconds: 0,
            timestamp: 5
        }
    );
}

#[test]
fn status_codes_are_distinct() {
    assert_ne!(StatusCode::Pause, StatusCode::Resume);
    assert_ne!(StatusCode::Timer, StatusCode::TrackStarted);
}
