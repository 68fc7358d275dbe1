use whisper_cli::timecode::{
    push_decimal, push_lrc_timestamp, push_srt_timestamp, push_vtt_timestamp,
};

#[test]
fn decimal_zero_padding() {
    let mut s = String::new();
    push_decimal(&mut s, 0, 2);
    push_decimal(&mut s, 7, 2);
    push_decimal(&mut s, 42, 2);
    push_decimal(&mut s, 650, 3);
    push_decimal(&mut s, 5, 1);
    assert_eq!(s, "0007426505");
}

#[test]
fn decimal_values_wider_than_the_field_keep_all_digits() {
    let mut s = String::new();
    push_decimal(&mut s, 12345, 2);
    assert_eq!(s, "12345");
}

#[test]
fn decimal_zero_with_zero_width() {
    let mut s = String::new();
    push_decimal(&mut s, 0, 0);
    assert_eq!(s, "0");
}

#[test]
fn srt_timestamp_fields() {
    let mut s = String::new();
    push_srt_timestamp(&mut s, 8639999);
    // 23 h, 59 min, 59 s, 99 cs -> 990 ms.
    assert_eq!(s, "23:59:59,990");
}

#[test]
fn vtt_timestamp_fields() {
    let mut s = String::new();
    push_vtt_timestamp(&mut s, 8639999);
    assert_eq!(s, "1439:59.990");
}

#[test]
fn lrc_timestamp_fields() {
    let mut s = String::new();
    push_lrc_timestamp(&mut s, 8639999);
    assert_eq!(s, "[1439:59.99]");
}

#[test]
fn srt_round_trip_recovers_centiseconds() {
    for &t in &[0i64, 1, 99, 100, 6000, 359999, 360000, 8639999] {
        let hours = t / 360000;
        let minutes = (t / 6000) % 60;
        let seconds = (t / 100) % 60;
        let millis = (t % 100) * 10;
        assert_eq!(hours * 360000 + minutes * 6000 + seconds * 100 + millis / 10, t);
    }
}

#[test]
fn vtt_round_trip_recovers_centiseconds() {
    for &t in &[0i64, 1, 99, 100, 6000, 359999, 360000, 8639999] {
        let minutes = t / 6000;
        let seconds = (t / 100) % 60;
        let millis = (t % 100) * 10;
        assert_eq!(minutes * 6000 + seconds * 100 + millis / 10, t);
    }
}

#[test]
fn lrc_round_trip_recovers_centiseconds() {
    for &t in &[0i64, 1, 99, 100, 6000, 359999, 360000, 8639999] {
        let minutes = t / 6000;
        let seconds = (t / 100) % 60;
        let centis = t % 100;
        assert_eq!(minutes * 6000 + seconds * 100 + centis, t);
    }
}
