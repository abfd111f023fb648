use livesplit_core::chars::ParseIntError;
use livesplit_core::run::parser::splitterz::{parse, Error};
use livesplit_core::timing::{ParseError, Time, TimeSpan};

#[test]
fn counters() {
    const RUN: &[u8] = br#"Run Title:,1
SegmentName,0:00:00.00,0.00
SegmentName,0:00:00.00,0.00
SegmentName,0:00:00.00,0.00

Counter,1,True
Counter,1,True
"#;

    let run = parse(RUN, false).unwrap();
    assert_eq!(run.len(), 3);
}

#[test]
fn title_line_gives_category_and_attempts() {
    let run = parse(b"Any%,42\nOne,1:02.5,0:30\n", false).unwrap();
    assert_eq!(run.category_name(), "Any%");
    assert_eq!(run.attempt_count(), 42);
    assert_eq!(run.len(), 1);
    let segment = run.segment(0);
    assert_eq!(segment.name(), "One");
    assert_eq!(
        segment.personal_best_split_time(),
        Time {
            real_time: Some(TimeSpan {
                nanoseconds: 62_500_000_000
            }),
            game_time: None
        }
    );
    assert_eq!(
        segment.best_segment_time(),
        Time {
            real_time: Some(TimeSpan {
                nanoseconds: 30_000_000_000
            }),
            game_time: None
        }
    );
    assert_eq!(segment.icon_file(), None);
}

#[test]
fn zero_times_are_not_set() {
    let run = parse(b"Cat,0\nSeg,0:00:00.00,0.00", false).unwrap();
    let segment = run.segment(0);
    assert_eq!(
        segment.personal_best_split_time(),
        Time {
            real_time: None,
            game_time: None
        }
    );
    assert_eq!(
        segment.best_segment_time(),
        Time {
            real_time: None,
            game_time: None
        }
    );
}

#[test]
fn escaped_commas_are_restored() {
    let run = parse("A\u{2021}B,1\nFirst\u{2021} second,1,2\n".as_bytes(), false).unwrap();
    assert_eq!(run.category_name(), "A,B");
    assert_eq!(run.segment(0).name(), "First, second");
}

#[test]
fn carriage_returns_end_lines_too() {
    let run = parse(b"Cat,3\r\nSeg,1,2\r\n\r\nMore,1,2\r\n", false).unwrap();
    assert_eq!(run.attempt_count(), 3);
    assert_eq!(run.len(), 1);
}

#[test]
fn icons_are_named_only_on_request() {
    let source = b"Cat,1\nSeg,1,2,icon file.png\nOther,1,2,\nThird,1,2\n";
    let run = parse(source, true).unwrap();
    assert_eq!(run.segment(0).icon_file(), Some("icon file.png"));
    assert_eq!(run.segment(1).icon_file(), None);
    assert_eq!(run.segment(2).icon_file(), None);
    let run = parse(source, false).unwrap();
    assert_eq!(run.segment(0).icon_file(), None);
}

#[test]
fn every_error_has_an_input() {
    assert_eq!(parse(b"", false).err(), Some(Error::Empty));
    assert_eq!(parse(b"\xff,1\n", false).err(), Some(Error::TitleLine));
    assert_eq!(parse(b"Cat\n", false).err(), Some(Error::ExpectedAttemptCount));
    assert_eq!(
        parse(b"Cat,\n", false).err(),
        Some(Error::ParseAttemptCount {
            source: ParseIntError::Empty
        })
    );
    assert_eq!(
        parse(b"Cat,x\n", false).err(),
        Some(Error::ParseAttemptCount {
            source: ParseIntError::InvalidDigit
        })
    );
    assert_eq!(
        parse(b"Cat,4294967296\n", false).err(),
        Some(Error::ParseAttemptCount {
            source: ParseIntError::PosOverflow
        })
    );
    assert_eq!(parse(b"Cat,1\nSeg\n", false).err(), Some(Error::ExpectedSplitTime));
    assert_eq!(
        parse(b"Cat,1\nSeg,abc,1\n", false).err(),
        Some(Error::ParseSplitTime {
            source: ParseError::Number
        })
    );
    assert_eq!(
        parse(b"Cat,1\nSeg,1\n", false).err(),
        Some(Error::ExpectedBestSegment)
    );
    assert_eq!(
        parse(b"Cat,1\nSeg,1,99999999999\n", false).err(),
        Some(Error::ParseBestSegment {
            source: ParseError::Overflow
        })
    );
    assert_eq!(parse(b"Cat,1\nSeg\xff,1,2\n", false).err(), Some(Error::Line));
}

#[test]
fn the_largest_attempt_count_is_read() {
    let run = parse(b"Cat,+4294967295\n", false).unwrap();
    assert_eq!(run.attempt_count(), u32::MAX);
}

#[test]
fn negative_times_are_read() {
    let run = parse("Cat,1\nSeg,-1:00,\u{2212}0.000000001\n".as_bytes(), false).unwrap();
    assert_eq!(
        run.segment(0).personal_best_split_time().real_time,
        Some(TimeSpan {
            nanoseconds: -60_000_000_000
        })
    );
    assert_eq!(
        run.segment(0).best_segment_time().real_time,
        Some(TimeSpan { nanoseconds: -1 })
    );
}
