//! The parser for the splits files of SplitterZ.
//!
//! A file is a list of lines, and a line a list of fields separated by
//! commas. The first line holds the name of the category and the number of
//! attempts. Every line after it holds a segment: its name, the time of its
//! split and its best time, and the file of its icon if it has one. The
//! first empty line ends the list of segments. A comma inside a field is
//! written as a double dagger.

use crate::chars::{
    find, parse_u32, slice, spec_find, spec_parse_u32, string_from_utf8, to_chars, ParseIntError,
};
use crate::run::{no_time, Run, RunView, Segment, SegmentView};
use crate::timing::{parse_time_span, spec_parse_time_span, ParseError, Time, TimeSpan};
use vstd::prelude::*;
use vstd::slice::slice_subrange;
use vstd::string::{StrSliceExecFns, StringExecFns};
use vstd::utf8::{decode_utf8, valid_utf8};

verus! {

/// Why a splits file could not be parsed.
#[allow(inconsistent_fields)]
#[derive(Clone, Copy, Debug, PartialEq, Eq, Structural)]
pub enum Error {
    /// The file is empty.
    Empty,
    /// The name of the category is missing. A first line always has a
    /// first field, so this is never returned.
    ExpectedCategoryName,
    /// The number of attempts is missing.
    ExpectedAttemptCount,
    /// The number of attempts is not a number.
    ParseAttemptCount {
        /// What is wrong with the number.
        source: ParseIntError,
    },
    /// The name of a segment is missing. A line always has a first field,
    /// so this is never returned.
    ExpectedSegmentName,
    /// The time of a split is missing.
    ExpectedSplitTime,
    /// The time of a split is not a time.
    ParseSplitTime {
        /// What is wrong with the time.
        source: ParseError,
    },
    /// The best time of a segment is missing.
    ExpectedBestSegment,
    /// The best time of a segment is not a time.
    ParseBestSegment {
        /// What is wrong with the time.
        source: ParseError,
    },
    /// The first line is not valid UTF-8.
    TitleLine,
    /// A later line is not valid UTF-8.
    Line,
}

/// The character a comma inside a field is written as.
pub const ESCAPED_COMMA: char = '\u{2021}';

/// A field with every escaped comma turned back into a comma.
pub open spec fn spec_unescape(text: Seq<char>) -> Seq<char> {
    Seq::new(
        text.len(),
        |i: int|
            if text[i] == ESCAPED_COMMA {
                ','
            } else {
                text[i]
            },
    )
}

/// Where a byte first occurs at or after index `from`, or the number of
/// bytes where it does not.
pub open spec fn spec_find_byte(bytes: Seq<u8>, byte: u8, from: int) -> int
    decreases bytes.len() - from,
{
    if from >= bytes.len() {
        bytes.len() as int
    } else if bytes[from] == byte {
        from
    } else {
        spec_find_byte(bytes, byte, from + 1)
    }
}

/// The line that starts at index `from`: the bytes up to the next line
/// feed, without the carriage return in front of that line feed if there is
/// one.
pub open spec fn spec_line(bytes: Seq<u8>, from: int) -> Seq<u8> {
    let end = spec_find_byte(bytes, 10u8, from);
    let raw = bytes.subrange(from, end);
    if end < bytes.len() && raw.len() > 0 && raw.last() == 13u8 {
        raw.drop_last()
    } else {
        raw
    }
}

/// Where the line after the one that starts at index `from` starts: after
/// the next line feed, or at the end of the file where there is none.
pub open spec fn spec_next_line(bytes: Seq<u8>, from: int) -> int {
    let end = spec_find_byte(bytes, 10u8, from);
    if end < bytes.len() {
        end + 1
    } else {
        bytes.len() as int
    }
}

/// Where the field that starts at index `start` ends.
pub open spec fn field_end(line: Seq<char>, start: int) -> int {
    spec_find(line, ',', start)
}

/// The field that starts at index `start`.
pub open spec fn field_at(line: Seq<char>, start: int) -> Seq<char> {
    line.subrange(start, field_end(line, start))
}

/// Where the field after the one that starts at index `start` starts, if
/// there is one.
pub open spec fn next_field(line: Seq<char>, start: int) -> Option<int> {
    if field_end(line, start) < line.len() {
        Some(field_end(line, start) + 1)
    } else {
        None
    }
}

/// The time a field stands for: none where the field says zero.
pub open spec fn time_of(span: TimeSpan) -> Time {
    if span.nanoseconds != 0 {
        Time { real_time: Some(span), game_time: None }
    } else {
        no_time()
    }
}

/// The file of the icon that a line names in its fourth field, if icons
/// are asked for and the field is there and not empty.
pub open spec fn spec_icon_file(line: Seq<char>, third: int, load_icons: bool) -> Option<
    Seq<char>,
> {
    if !load_icons {
        None
    } else {
        match next_field(line, third) {
            None => None,
            Some(fourth) => if field_at(line, fourth).len() > 0 {
                Some(spec_unescape(field_at(line, fourth)))
            } else {
                None
            },
        }
    }
}

/// The segment a line stands for.
pub open spec fn spec_segment(line: Seq<char>, load_icons: bool) -> Result<SegmentView, Error> {
    match next_field(line, 0) {
        None => Err(Error::ExpectedSplitTime),
        Some(second) => match spec_parse_time_span(field_at(line, second)) {
            Err(source) => Err(Error::ParseSplitTime { source }),
            Ok(split) => match next_field(line, second) {
                None => Err(Error::ExpectedBestSegment),
                Some(third) => match spec_parse_time_span(field_at(line, third)) {
                    Err(source) => Err(Error::ParseBestSegment { source }),
                    Ok(best) => Ok(
                        SegmentView {
                            name: spec_unescape(field_at(line, 0)),
                            personal_best_split_time: time_of(split),
                            best_segment_time: time_of(best),
                            icon_file: spec_icon_file(line, third, load_icons),
                        },
                    ),
                },
            },
        },
    }
}

/// Segments in front of what parsing the rest of a file gives.
pub open spec fn prepend(done: Seq<SegmentView>, rest: Result<Seq<SegmentView>, Error>) -> Result<
    Seq<SegmentView>,
    Error,
> {
    match rest {
        Ok(segments) => Ok(done + segments),
        Err(e) => Err(e),
    }
}

/// The segments that the lines from index `from` on stand for, up to the
/// first empty line or the end of the file.
pub open spec fn spec_segments(bytes: Seq<u8>, from: int, load_icons: bool) -> Result<
    Seq<SegmentView>,
    Error,
>
    decreases bytes.len() - from,
{
    if from < 0 || from >= bytes.len() {
        Ok(Seq::empty())
    } else if !valid_utf8(spec_line(bytes, from)) {
        Err(Error::Line)
    } else {
        let line = decode_utf8(spec_line(bytes, from));
        if line.len() == 0 {
            Ok(Seq::empty())
        } else {
            match spec_segment(line, load_icons) {
                Err(e) => Err(e),
                Ok(segment) => {
                    proof {
                        lemma_find_byte(bytes, 10u8, from);
                    }
                    prepend(
                        seq![segment],
                        spec_segments(bytes, spec_next_line(bytes, from), load_icons),
                    )
                },
            }
        }
    }
}

/// The run a splits file stands for.
pub open spec fn spec_parse(bytes: Seq<u8>, load_icons: bool) -> Result<RunView, Error> {
    if bytes.len() == 0 {
        Err(Error::Empty)
    } else if !valid_utf8(spec_line(bytes, 0)) {
        Err(Error::TitleLine)
    } else {
        let title = decode_utf8(spec_line(bytes, 0));
        match next_field(title, 0) {
            None => Err(Error::ExpectedAttemptCount),
            Some(second) => match spec_parse_u32(field_at(title, second)) {
                Err(source) => Err(Error::ParseAttemptCount { source }),
                Ok(attempt_count) => match spec_segments(
                    bytes,
                    spec_next_line(bytes, 0),
                    load_icons,
                ) {
                    Err(e) => Err(e),
                    Ok(segments) => Ok(
                        RunView {
                            category_name: spec_unescape(field_at(title, 0)),
                            attempt_count,
                            segments,
                        },
                    ),
                },
            },
        }
    }
}

/// The position of the next line feed is never to the left of where the
/// search starts, and never beyond the end.
pub proof fn lemma_find_byte(bytes: Seq<u8>, byte: u8, from: int)
    requires
        0 <= from <= bytes.len(),
    ensures
        from <= spec_find_byte(bytes, byte, from) <= bytes.len(),
    decreases bytes.len() - from,
{
    if from < bytes.len() && bytes[from] != byte {
        lemma_find_byte(bytes, byte, from + 1);
    }
}

/// Reads the line that starts at index `from`. Returns the line, or
/// `None` where it is not valid UTF-8, and the index after its line feed.
fn read_line(source: &[u8], from: usize) -> (r: (Option<String>, usize))
    requires
        from < source.len(),
    ensures
        r.1 == spec_next_line(source@, from as int),
        from < r.1 <= source.len(),
        r.0 is Some <==> valid_utf8(spec_line(source@, from as int)),
        r.0 matches Some(line) ==> line@ == decode_utf8(spec_line(source@, from as int)),
{
    let n: usize = source.len();
    let mut end: usize = from;
    while end < n && source[end] != 10
        invariant
            from <= end <= n,
            n == source.len(),
            spec_find_byte(source@, 10u8, from as int) == spec_find_byte(
                source@,
                10u8,
                end as int,
            ),
        decreases n - end,
    {
        end = end + 1;
    }
    let stop: usize = if end < n && end > from && source[end - 1] == 13 {
        end - 1
    } else {
        end
    };
    let mut line: Vec<u8> = Vec::new();
    let mut i: usize = from;
    while i < stop
        invariant
            from <= i <= stop <= n,
            n == source.len(),
            line@ == source@.subrange(from as int, i as int),
        decreases stop - i,
    {
        line.push(source[i]);
        assert(line@ =~= source@.subrange(from as int, i as int + 1));
        i = i + 1;
    }
    proof {
        let raw = source@.subrange(from as int, end as int);
        if end < n && raw.len() > 0 && raw.last() == 13u8 {
            assert(line@ =~= raw.drop_last());
        } else {
            assert(line@ =~= raw);
        }
    }
    let next: usize = if end < n {
        end + 1
    } else {
        n
    };
    (string_from_utf8(line), next)
}

/// Turns every escaped comma in the characters from index `from` up to
/// index `to` of a line back into a comma.
fn unescape(line: &str, chars: &Vec<char>, from: usize, to: usize) -> (text: String)
    requires
        chars@ == line@,
        from <= to <= chars.len(),
    ensures
        text@ == spec_unescape(chars@.subrange(from as int, to as int)),
{
    let mut text = String::new();
    let mut i: usize = from;
    proof {
        reveal_strlit(",");
    }
    while i < to
        invariant
            chars@ == line@,
            from <= i <= to <= chars.len(),
            ","@ == seq![','],
            text@ == spec_unescape(chars@.subrange(from as int, i as int)),
        decreases to - i,
    {
        let ghost before = text@;
        if chars[i] == ESCAPED_COMMA {
            text.append(",");
        } else {
            text.append(line.substring_char(i, i + 1));
            assert(line@.subrange(i as int, i as int + 1) =~= seq![chars@[i as int]]);
        }
        assert(text@ =~= spec_unescape(chars@.subrange(from as int, i as int + 1)));
        i = i + 1;
    }
    text
}

/// Reads the field that starts at index `start`. Returns the field and
/// where the next field starts, if there is one.
fn read_field(chars: &Vec<char>, start: usize) -> (r: (Vec<char>, Option<usize>))
    requires
        start <= chars.len(),
    ensures
        r.0@ == field_at(chars@, start as int),
        match r.1 {
            Some(next) => next_field(chars@, start as int) == Some(next as int) && next
                <= chars.len(),
            None => next_field(chars@, start as int) is None,
        },
{
    let end: usize = find(chars, ',', start);
    let field = slice(chars, start, end);
    if end < chars.len() {
        (field, Some(end + 1))
    } else {
        (field, None)
    }
}

/// Turns the span a field stands for into a time: none where the field
/// says zero.
fn time_from(span: TimeSpan) -> (time: Time)
    ensures
        time == time_of(span),
{
    if span.nanoseconds != 0 {
        Time::from_real_time(span)
    } else {
        Time { real_time: None, game_time: None }
    }
}

/// Reads the segment a line stands for.
fn parse_segment(line: &str, load_icons: bool) -> (r: Result<Segment, Error>)
    ensures
        match r {
            Ok(segment) => spec_segment(line@, load_icons) == Ok::<SegmentView, Error>(segment@),
            Err(e) => spec_segment(line@, load_icons) == Err::<SegmentView, Error>(e),
        },
{
    let chars = to_chars(line);
    let name_end: usize = find(&chars, ',', 0);
    let mut segment = Segment::new(unescape(line, &chars, 0, name_end));
    let second: usize = if name_end < chars.len() {
        name_end + 1
    } else {
        return Err(Error::ExpectedSplitTime);
    };
    let (split_field, third) = read_field(&chars, second);
    let split = match parse_time_span(&split_field) {
        Ok(split) => split,
        Err(source) => {
            return Err(Error::ParseSplitTime { source });
        },
    };
    segment.set_personal_best_split_time(time_from(split));
    let third: usize = match third {
        Some(third) => third,
        None => {
            return Err(Error::ExpectedBestSegment);
        },
    };
    let (best_field, fourth) = read_field(&chars, third);
    let best = match parse_time_span(&best_field) {
        Ok(best) => best,
        Err(source) => {
            return Err(Error::ParseBestSegment { source });
        },
    };
    segment.set_best_segment_time(time_from(best));
    if load_icons {
        if let Some(fourth) = fourth {
            let icon_end: usize = find(&chars, ',', fourth);
            if icon_end > fourth {
                segment.set_icon_file(unescape(line, &chars, fourth, icon_end));
            }
        }
    }
    Ok(segment)
}

/// Parses a splits file of SplitterZ.
///
/// With `load_icons` every segment is told the file that the splits file
/// names for its icon. The parser reads no file itself: loading the icons
/// is left to the caller.
pub fn parse(source: &[u8], load_icons: bool) -> (r: Result<Run, Error>)
    ensures
        match r {
            Ok(run) => spec_parse(source@, load_icons) == Ok::<RunView, Error>(run@),
            Err(e) => spec_parse(source@, load_icons) == Err::<RunView, Error>(e),
        },
{
    let n: usize = source.len();
    if n == 0 {
        return Err(Error::Empty);
    }
    let mut run = Run::new();
    let (title, first) = read_line(source, 0);
    let title: String = match title {
        Some(title) => title,
        None => {
            return Err(Error::TitleLine);
        },
    };
    let chars = to_chars(title.as_str());
    let name_end: usize = find(&chars, ',', 0);
    run.set_category_name(unescape(title.as_str(), &chars, 0, name_end));
    let second: usize = if name_end < chars.len() {
        name_end + 1
    } else {
        return Err(Error::ExpectedAttemptCount);
    };
    let (attempts_field, _) = read_field(&chars, second);
    match parse_u32(&attempts_field) {
        Ok(attempts) => {
            run.set_attempt_count(attempts);
        },
        Err(source) => {
            return Err(Error::ParseAttemptCount { source });
        },
    }
    let mut from: usize = first;
    let ghost category = run@.category_name;
    let ghost attempts = run@.attempt_count;
    while from < n
        invariant
            n == source.len(),
            first <= from <= n,
            spec_parse(source@, load_icons) == match spec_segments(
                source@,
                first as int,
                load_icons,
            ) {
                Err(e) => Err::<RunView, Error>(e),
                Ok(segments) => Ok(
                    RunView { category_name: category, attempt_count: attempts, segments },
                ),
            },
            run@.category_name == category,
            run@.attempt_count == attempts,
            spec_segments(source@, first as int, load_icons) == prepend(
                run@.segments,
                spec_segments(source@, from as int, load_icons),
            ),
        ensures
            spec_segments(source@, first as int, load_icons) == Ok::<Seq<SegmentView>, Error>(
                run@.segments,
            ),
            run@.category_name == category,
            run@.attempt_count == attempts,
        decreases n - from,
    {
        let (line, next) = read_line(source, from);
        let line: String = match line {
            Some(line) => line,
            None => {
                return Err(Error::Line);
            },
        };
        if line.as_str().is_empty() {
            assert(run@.segments + Seq::<SegmentView>::empty() =~= run@.segments);
            break ;
        }
        let segment = match parse_segment(line.as_str(), load_icons) {
            Ok(segment) => segment,
            Err(e) => {
                return Err(e);
            },
        };
        let ghost done = run@.segments;
        run.push_segment(segment);
        proof {
            let rest = spec_segments(source@, next as int, load_icons);
            if let Ok(later) = rest {
                assert(done + (seq![segment@] + later) =~= done.push(segment@) + later);
            }
        }
        from = next;
    }
    proof {
        if from >= n {
            assert(run@.segments + Seq::<SegmentView>::empty() =~= run@.segments);
        }
    }
    Ok(run)
}

} // verus!
