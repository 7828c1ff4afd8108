use remuxer::event::FFMpegProgress;
use remuxer::progress::{parse_progress_line, ProgressLine};

#[test]
fn speed_line() {
    assert_eq!(parse_progress_line("speed=1.02x"), ProgressLine::Speed("1.02x".to_string()));
    assert_eq!(parse_progress_line("speed=   2x  "), ProgressLine::Speed("2x".to_string()));
    assert_eq!(parse_progress_line("speed="), ProgressLine::Speed("".to_string()));
    assert_eq!(parse_progress_line("speed=N/A"), ProgressLine::Speed("N/A".to_string()));
}

#[test]
fn value_ends_at_the_second_equals_sign() {
    assert_eq!(parse_progress_line("speed=1x=2x"), ProgressLine::Speed("1x".to_string()));
    assert_eq!(parse_progress_line("speed= 1x =2x"), ProgressLine::Speed("1x".to_string()));
    assert_eq!(parse_progress_line("out_time_ms=5=6"), ProgressLine::OutTime(5));
}

#[test]
fn output_time_line() {
    assert_eq!(parse_progress_line("out_time_ms=1000000"), ProgressLine::OutTime(1_000_000));
    assert_eq!(parse_progress_line("out_time_ms= 42 "), ProgressLine::OutTime(42));
    assert_eq!(parse_progress_line("out_time_ms=+7"), ProgressLine::OutTime(7));
    assert_eq!(
        parse_progress_line("out_time_ms=18446744073709551615"),
        ProgressLine::OutTime(u64::MAX)
    );
}

#[test]
fn output_time_that_is_no_number_is_ignored() {
    assert_eq!(parse_progress_line("out_time_ms=N/A"), ProgressLine::Ignored);
    assert_eq!(parse_progress_line("out_time_ms=-5"), ProgressLine::Ignored);
    assert_eq!(parse_progress_line("out_time_ms="), ProgressLine::Ignored);
    assert_eq!(parse_progress_line("out_time_ms=18446744073709551616"), ProgressLine::Ignored);
    assert_eq!(parse_progress_line("out_time_ms=1 2"), ProgressLine::Ignored);
}

#[test]
fn marker_line() {
    assert_eq!(parse_progress_line("progress=continue"), ProgressLine::Boundary);
    assert_eq!(parse_progress_line("progress=end"), ProgressLine::Boundary);
    assert_eq!(parse_progress_line("progress="), ProgressLine::Boundary);
}

#[test]
fn malformed_and_unknown_lines_are_ignored() {
    assert_eq!(parse_progress_line(""), ProgressLine::Ignored);
    assert_eq!(parse_progress_line("speed"), ProgressLine::Ignored);
    assert_eq!(parse_progress_line("no pair here"), ProgressLine::Ignored);
    assert_eq!(parse_progress_line("frame=10"), ProgressLine::Ignored);
    assert_eq!(parse_progress_line("out_time=00:00:01.000000"), ProgressLine::Ignored);
    assert_eq!(parse_progress_line("out_time_us=1000000"), ProgressLine::Ignored);
    assert_eq!(parse_progress_line("=x"), ProgressLine::Ignored);
    assert_eq!(parse_progress_line(" speed=1x"), ProgressLine::Ignored);
    assert_eq!(parse_progress_line("speed =1x"), ProgressLine::Ignored);
    assert_eq!(parse_progress_line("Speed=1x"), ProgressLine::Ignored);
}

#[test]
fn sample_starts_at_zero() {
    let s = FFMpegProgress::initial();
    assert_eq!(s.out_time_us, 0);
    assert_eq!(s.speed, "0x");
}

#[test]
fn sample_takes_lines_in() {
    let mut s = FFMpegProgress::initial();
    assert!(!s.absorb(ProgressLine::Speed("1.5x".to_string())));
    assert_eq!(s.speed, "1.5x");
    assert_eq!(s.out_time_us, 0);
    assert!(!s.absorb(ProgressLine::OutTime(10)));
    assert_eq!(s.out_time_us, 10);
    assert_eq!(s.speed, "1.5x");
    assert!(!s.absorb(ProgressLine::Ignored));
    assert!(s.absorb(ProgressLine::Boundary));
    assert_eq!((s.out_time_us, s.speed.as_str()), (10, "1.5x"));
}

#[test]
fn output_time_never_steps_back() {
    let mut s = FFMpegProgress::initial();
    s.absorb(ProgressLine::OutTime(100));
    s.absorb(ProgressLine::OutTime(50));
    assert_eq!(s.out_time_us, 100);
    s.absorb(ProgressLine::OutTime(100));
    assert_eq!(s.out_time_us, 100);
    s.absorb(ProgressLine::OutTime(101));
    assert_eq!(s.out_time_us, 101);
}
