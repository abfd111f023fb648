//! Runs and their segments, as far as a splits file describes them.

pub mod parser;

use crate::timing::Time;
use vstd::prelude::*;

verus! {

/// A segment of a run.
pub struct Segment {
    name: String,
    personal_best_split_time: Time,
    best_segment_time: Time,
    icon_file: Option<String>,
}

/// The meaning of a [`Segment`], with texts taken by their characters.
pub struct SegmentView {
    /// The name of the segment.
    pub name: Seq<char>,
    /// The time of the split in the personal best.
    pub personal_best_split_time: Time,
    /// The shortest time the segment ever took.
    pub best_segment_time: Time,
    /// The file the icon of the segment is to be loaded from, if any.
    pub icon_file: Option<Seq<char>>,
}

impl View for Segment {
    type V = SegmentView;

    closed spec fn view(&self) -> SegmentView {
        SegmentView {
            name: self.name@,
            personal_best_split_time: self.personal_best_split_time,
            best_segment_time: self.best_segment_time,
            icon_file: match self.icon_file {
                Some(file) => Some(file@),
                None => None,
            },
        }
    }
}

/// The time of which nothing is known.
pub open spec fn no_time() -> Time {
    Time { real_time: None, game_time: None }
}

impl Segment {
    /// Creates a segment of the given name, with no times and no icon.
    pub fn new(name: String) -> (segment: Segment)
        ensures
            segment@ == (SegmentView {
                name: name@,
                personal_best_split_time: no_time(),
                best_segment_time: no_time(),
                icon_file: None,
            }),
    {
        Segment {
            name,
            personal_best_split_time: Time { real_time: None, game_time: None },
            best_segment_time: Time { real_time: None, game_time: None },
            icon_file: None,
        }
    }

    /// Returns the name of the segment.
    pub fn name(&self) -> (name: &str)
        ensures
            name@ == self@.name,
    {
        self.name.as_str()
    }

    /// Returns the time of the split in the personal best.
    pub fn personal_best_split_time(&self) -> (time: Time)
        ensures
            time == self@.personal_best_split_time,
    {
        self.personal_best_split_time
    }

    /// Sets the time of the split in the personal best.
    pub fn set_personal_best_split_time(&mut self, time: Time)
        ensures
            final(self)@ == (SegmentView { personal_best_split_time: time, ..old(self)@ }),
    {
        self.personal_best_split_time = time;
    }

    /// Returns the shortest time the segment ever took.
    pub fn best_segment_time(&self) -> (time: Time)
        ensures
            time == self@.best_segment_time,
    {
        self.best_segment_time
    }

    /// Sets the shortest time the segment ever took.
    pub fn set_best_segment_time(&mut self, time: Time)
        ensures
            final(self)@ == (SegmentView { best_segment_time: time, ..old(self)@ }),
    {
        self.best_segment_time = time;
    }

    /// Returns the file the icon of the segment is to be loaded from.
    pub fn icon_file(&self) -> (file: Option<&str>)
        ensures
            match file {
                Some(f) => self@.icon_file == Some(f@),
                None => self@.icon_file is None,
            },
    {
        match &self.icon_file {
            Some(file) => Some(file.as_str()),
            None => None,
        }
    }

    /// Names the file the icon of the segment is to be loaded from.
    pub fn set_icon_file(&mut self, file: String)
        ensures
            final(self)@ == (SegmentView { icon_file: Some(file@), ..old(self)@ }),
    {
        self.icon_file = Some(file);
    }
}

/// A run: a category of a game, split into segments.
pub struct Run {
    category_name: String,
    attempt_count: u32,
    segments: Vec<Segment>,
}

/// The meaning of a [`Run`], with texts taken by their characters.
pub struct RunView {
    /// The name of the category.
    pub category_name: Seq<char>,
    /// How often the run was attempted.
    pub attempt_count: u32,
    /// The segments of the run.
    pub segments: Seq<SegmentView>,
}

impl View for Run {
    type V = RunView;

    closed spec fn view(&self) -> RunView {
        RunView {
            category_name: self.category_name@,
            attempt_count: self.attempt_count,
            segments: Seq::new(self.segments@.len(), |i: int| self.segments@[i]@),
        }
    }
}

impl Run {
    /// Creates a run without a name and without segments.
    pub fn new() -> (run: Run)
        ensures
            run@ == (RunView {
                category_name: Seq::empty(),
                attempt_count: 0,
                segments: Seq::empty(),
            }),
    {
        let run = Run { category_name: String::new(), attempt_count: 0, segments: Vec::new() };
        assert(run@.segments =~= Seq::empty());
        run
    }

    /// Returns the name of the category.
    pub fn category_name(&self) -> (name: &str)
        ensures
            name@ == self@.category_name,
    {
        self.category_name.as_str()
    }

    /// Sets the name of the category.
    pub fn set_category_name(&mut self, name: String)
        ensures
            final(self)@ == (RunView { category_name: name@, ..old(self)@ }),
    {
        self.category_name = name;
    }

    /// Returns how often the run was attempted.
    pub fn attempt_count(&self) -> (attempts: u32)
        ensures
            attempts == self@.attempt_count,
    {
        self.attempt_count
    }

    /// Sets how often the run was attempted.
    pub fn set_attempt_count(&mut self, attempts: u32)
        ensures
            final(self)@ == (RunView { attempt_count: attempts, ..old(self)@ }),
    {
        self.attempt_count = attempts;
    }

    /// Adds a segment at the end of the run.
    pub fn push_segment(&mut self, segment: Segment)
        ensures
            final(self)@ == (RunView {
                segments: old(self)@.segments.push(segment@),
                ..old(self)@
            }),
    {
        self.segments.push(segment);
        assert(self@.segments =~= old(self)@.segments.push(segment@));
    }

    /// Returns the number of segments.
    pub fn len(&self) -> (n: usize)
        ensures
            n == self@.segments.len(),
    {
        self.segments.len()
    }

    /// Hands out a segment.
    pub fn segment(&self, index: usize) -> (segment: &Segment)
        requires
            index < self@.segments.len(),
        ensures
            segment@ == self@.segments[index as int],
    {
        &self.segments[index]
    }
}

} // verus!
