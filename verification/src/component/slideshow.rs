//! The slideshow component, which shows one of several key and value
//! components at a time and moves on to the next when there is news.
//!
//! A component is shown for at least five seconds. The components that
//! wait to be shown form a queue: a component joins it when its value has
//! changed, and when it has not been shown for ten seconds per component of
//! the slideshow. What the components show is computed by their owner, who
//! hands the slideshow the time and the current values.

use crate::settings::{SettingsDescription, Value};
use std::collections::VecDeque;
use vstd::prelude::*;

verus! {

/// The settings of a component of the slideshow, by the kind of the
/// component.
#[derive(Clone, Copy, Debug, PartialEq, Eq, Structural)]
pub enum InnerComponentSettings {
    /// The comparison that is currently shown.
    CurrentComparison,
    /// The pace of the current attempt.
    CurrentPace,
    /// How far the attempt is ahead or behind.
    Delta,
    /// The chance to beat the personal best.
    PbChance,
    /// The time that can still be saved.
    PossibleTimeSave,
    /// How the previous segment went.
    PreviousSegment,
    /// The time of the current segment.
    SegmentTime,
    /// The sum of all best segments.
    SumOfBest,
    /// The time played in total.
    TotalPlaytime,
}

/// The settings of the slideshow: the components it shows, in order.
pub struct Settings {
    /// The components the slideshow shows.
    pub components: Vec<InnerComponentSettings>,
}

impl Default for Settings {
    fn default() -> (settings: Settings)
        ensures
            settings.components@ == seq![
                InnerComponentSettings::PreviousSegment,
                InnerComponentSettings::PossibleTimeSave,
                InnerComponentSettings::SumOfBest,
            ],
    {
        let mut components: Vec<InnerComponentSettings> = Vec::new();
        components.push(InnerComponentSettings::PreviousSegment);
        components.push(InnerComponentSettings::PossibleTimeSave);
        components.push(InnerComponentSettings::SumOfBest);
        assert(components@ =~= seq![
            InnerComponentSettings::PreviousSegment,
            InnerComponentSettings::PossibleTimeSave,
            InnerComponentSettings::SumOfBest,
        ]);
        Settings { components }
    }
}

/// How long a component is shown at least, in nanoseconds: five seconds.
pub const PRESENT_TIME: i128 = 5_000_000_000;

/// How long a component may go without being shown, in nanoseconds per
/// component of the slideshow: ten seconds.
pub const REQUEUE_TIME: i128 = 10_000_000_000;

/// The state of a slideshow.
pub struct Slides {
    /// The components that wait to be shown, the next one first.
    pub queue: Seq<usize>,
    /// The component that is shown.
    pub current_index: usize,
    /// For every component, the time at which it was shown last, in
    /// nanoseconds.
    pub last_present_time: Seq<i64>,
    /// For every component, the value it had when it last joined the
    /// queue or was shown.
    pub values: Seq<Seq<char>>,
}

impl Slides {
    /// The slideshow moves on to the component at the head of the queue
    /// once the component that is shown has been shown for more than five
    /// seconds. It stays where it is while nothing is waiting.
    pub open spec fn advance(self, now: i64) -> Slides {
        if now - self.last_present_time[self.current_index as int] > PRESENT_TIME
            && self.queue.len() > 0 {
            Slides {
                queue: self.queue.drop_first(),
                current_index: self.queue[0],
                last_present_time: self.last_present_time.update(self.queue[0] as int, now),
                ..self
            }
        } else {
            self
        }
    }

    /// A component that is not shown, is not waiting, and whose value has
    /// changed joins the queue and has its new value noted.
    pub open spec fn note_change(self, i: int, value: Seq<char>) -> Slides {
        if i != self.current_index && self.values[i] != value && !self.queue.contains(
            i as usize,
        ) {
            Slides {
                queue: self.queue.push(i as usize),
                values: self.values.update(i, value),
                ..self
            }
        } else {
            self
        }
    }

    /// [`Self::note_change`] for the first `n` components, in order.
    pub open spec fn note_changes(self, values: Seq<Seq<char>>, n: int) -> Slides
        decreases n,
    {
        if n <= 0 {
            self
        } else {
            self.note_changes(values, n - 1).note_change(n - 1, values[n - 1])
        }
    }

    /// A component that is not waiting and has not been shown for more
    /// than ten seconds per component joins the queue.
    pub open spec fn note_stale(self, i: int, now: i64) -> Slides {
        if now - self.last_present_time[i] > self.values.len() * REQUEUE_TIME
            && !self.queue.contains(i as usize) {
            Slides { queue: self.queue.push(i as usize), ..self }
        } else {
            self
        }
    }

    /// [`Self::note_stale`] for the first `n` components, in order.
    pub open spec fn note_all_stale(self, now: i64, n: int) -> Slides
        decreases n,
    {
        if n <= 0 {
            self
        } else {
            self.note_all_stale(now, n - 1).note_stale(n - 1, now)
        }
    }

    /// The value of the component that is shown is noted.
    pub open spec fn note_shown(self, values: Seq<Seq<char>>) -> Slides {
        Slides {
            values: self.values.update(
                self.current_index as int,
                values[self.current_index as int],
            ),
            ..self
        }
    }

    /// The state after the slideshow was asked what to show at the time
    /// `now`, with the components having the given values.
    pub open spec fn step(self, now: i64, values: Seq<Seq<char>>) -> Slides {
        let n = self.values.len() as int;
        self.advance(now).note_changes(values, n).note_all_stale(now, n).note_shown(values)
    }

    /// Every index in the state names a component.
    pub open spec fn wf(self) -> bool {
        &&& self.values.len() > 0
        &&& self.last_present_time.len() == self.values.len()
        &&& self.current_index < self.values.len()
        &&& forall|k: int| 0 <= k < self.queue.len() ==> #[trigger] self.queue[k] < self.values.len()
    }
}

/// The texts of a list.
pub open spec fn texts_of(texts: Seq<String>) -> Seq<Seq<char>> {
    Seq::new(texts.len(), |i: int| texts[i]@)
}

/// The slideshow component.
pub struct Component {
    components: Vec<InnerComponentSettings>,
    queue: VecDeque<usize>,
    current_index: usize,
    last_present_time: Vec<i64>,
    values: Vec<String>,
}

/// The number of settings the slideshow offers: none.
pub open spec fn setting_count() -> int {
    0
}

impl Component {
    /// The components the slideshow shows.
    pub closed spec fn components(&self) -> Seq<InnerComponentSettings> {
        self.components@
    }

    /// The state of the slideshow.
    pub closed spec fn slides(&self) -> Slides {
        Slides {
            queue: self.queue@,
            current_index: self.current_index,
            last_present_time: self.last_present_time@,
            values: texts_of(self.values@),
        }
    }

    /// The slideshow shows at least one component, and its state speaks of
    /// these components and no others.
    pub open spec fn wf(&self) -> bool {
        self.slides().wf() && self.slides().values.len() == self.components().len()
    }

    /// The state a slideshow of `n` components starts in at the time
    /// `now`: the first component is shown, the others wait in order, and
    /// no value has been seen.
    pub open spec fn initial(n: nat, now: i64) -> Slides {
        Slides {
            queue: Seq::new((n - 1) as nat, |i: int| (i + 1) as usize),
            current_index: 0,
            last_present_time: Seq::new(n, |i: int| now),
            values: Seq::new(n, |i: int| Seq::empty()),
        }
    }

    /// Creates a slideshow of the default components at the time `now`.
    pub fn new(now: i64) -> (component: Component)
        ensures
            component.wf(),
            component.components() == seq![
                InnerComponentSettings::PreviousSegment,
                InnerComponentSettings::PossibleTimeSave,
                InnerComponentSettings::SumOfBest,
            ],
            component.slides() == Self::initial(3, now),
    {
        Component::with_settings(Settings::default(), now)
    }

    /// Creates a slideshow of the given components at the time `now`.
    pub fn with_settings(settings: Settings, now: i64) -> (component: Component)
        ensures
            component.components() == settings.components@,
            component.slides() == if settings.components.len() == 0 {
                Slides { queue: Seq::empty(), ..Self::initial(0, now) }
            } else {
                Self::initial(settings.components.len() as nat, now)
            },
            settings.components.len() > 0 ==> component.wf(),
    {
        let components = settings.components;
        let n: usize = components.len();
        let mut last_present_time: Vec<i64> = Vec::new();
        let mut values: Vec<String> = Vec::new();
        let mut queue: VecDeque<usize> = VecDeque::new();
        let mut i: usize = 0;
        while i < n
            invariant
                0 <= i <= n,
                last_present_time@ == Seq::new(i as nat, |k: int| now),
                values.len() == i,
                forall|k: int| 0 <= k < i ==> (#[trigger] values@[k])@ == Seq::<char>::empty(),
                i == 0 ==> queue@ == Seq::<usize>::empty(),
                i > 0 ==> queue@ == Seq::new((i - 1) as nat, |k: int| (k + 1) as usize),
            decreases n - i,
        {
            last_present_time.push(now);
            values.push(String::new());
            if i > 0 {
                queue.push_back(i);
            }
            i = i + 1;
            assert(last_present_time@ =~= Seq::new(i as nat, |k: int| now));
            assert(queue@ =~= Seq::new((i - 1) as nat, |k: int| (k + 1) as usize));
        }
        assert(texts_of(values@) =~= Seq::new(n as nat, |k: int| Seq::<char>::empty()));
        Component { last_present_time, values, current_index: 0, queue, components }
    }

    /// Returns the settings of the component.
    pub fn settings(&self) -> (settings: Settings)
        ensures
            settings.components@ == self.components(),
    {
        let mut components: Vec<InnerComponentSettings> = Vec::new();
        let mut i: usize = 0;
        while i < self.components.len()
            invariant
                0 <= i <= self.components.len(),
                components@ == self.components@.take(i as int),
            decreases self.components.len() - i,
        {
            components.push(self.components[i]);
            assert(components@ =~= self.components@.take(i as int + 1));
            i = i + 1;
        }
        assert(self.components@.take(self.components.len() as int) =~= self.components@);
        Settings { components }
    }

    /// Returns the name of the component.
    pub fn name(&self) -> (name: &'static str)
        ensures
            name@ == "Slideshow"@,
    {
        "Slideshow"
    }

    /// Tells whether a component waits to be shown.
    fn is_queued(&self, i: usize) -> (queued: bool)
        ensures
            queued == self.slides().queue.contains(i),
    {
        let mut k: usize = 0;
        while k < self.queue.len()
            invariant
                0 <= k <= self.queue@.len(),
                forall|j: int| 0 <= j < k ==> self.queue@[j] != i,
            decreases self.queue@.len() - k,
        {
            if self.queue[k] == i {
                return true;
            }
            k = k + 1;
        }
        false
    }

    /// Decides which component to show at the time `now`, given the value
    /// that every component has now, and returns its index.
    pub fn state(&mut self, now: i64, values: &Vec<String>) -> (shown: usize)
        requires
            old(self).wf(),
            values.len() == old(self).components().len(),
        ensures
            final(self).wf(),
            final(self).components() == old(self).components(),
            final(self).slides() == old(self).slides().step(now, texts_of(values@)),
            shown == final(self).slides().current_index,
            shown < values.len(),
    {
        let n: usize = self.components.len();
        let ghost start = self.slides();
        let shown_for: i128 = now as i128 - self.last_present_time[self.current_index] as i128;
        if shown_for > PRESENT_TIME {
            if self.queue.len() > 0 {
                assert(start.queue[0] < n);
                assert forall|k: int| 0 <= k < start.queue.drop_first().len() implies (
                #[trigger] start.queue.drop_first()[k]) < n by {
                    assert(start.queue.drop_first()[k] == start.queue[k + 1]);
                }
                let new_index: usize = self.queue.pop_front().unwrap();
                self.current_index = new_index;
                self.last_present_time.set(new_index, now);
            }
        }
        assert(self.slides() == start.advance(now)) by {
            assert(self.slides().queue =~= start.advance(now).queue);
        }
        let ghost advanced = self.slides();
        let mut i: usize = 0;
        while i < n
            invariant
                0 <= i <= n,
                n == values.len(),
                n == self.components().len(),
                self.wf(),
                self.components() == old(self).components(),
                advanced.values.len() == n,
                self.slides() == advanced.note_changes(texts_of(values@), i as int),
            decreases n - i,
        {
            if i != self.current_index {
                let changed: bool = !(self.values[i] == values[i]);
                if changed && !self.is_queued(i) {
                    let ghost before = self.slides();
                    self.values.set(i, values[i].clone());
                    self.queue.push_back(i);
                    assert(self.slides().values =~= before.values.update(
                        i as int,
                        values@[i as int]@,
                    ));
                }
            }
            i = i + 1;
        }
        let ghost changed = self.slides();
        let auto_requeue_time: i128 = (n as i128) * REQUEUE_TIME;
        let mut i: usize = 0;
        while i < n
            invariant
                0 <= i <= n,
                n == values.len(),
                n == self.components().len(),
                self.wf(),
                self.components() == old(self).components(),
                changed.values.len() == n,
                auto_requeue_time == n * REQUEUE_TIME,
                self.slides() == changed.note_all_stale(now, i as int),
            decreases n - i,
        {
            let away: i128 = now as i128 - self.last_present_time[i] as i128;
            if away > auto_requeue_time && !self.is_queued(i) {
                self.queue.push_back(i);
            }
            i = i + 1;
        }
        let ghost before = self.slides();
        let shown: usize = self.current_index;
        self.values.set(shown, values[shown].clone());
        assert(self.slides().values =~= before.values.update(shown as int, values@[shown as int]@));
        assert(before.wf());
        assert(self.slides().queue == before.queue);
        assert(self.slides().wf());
        shown
    }

    /// Describes the settings of the component: it has none.
    pub fn settings_description(&self) -> (description: SettingsDescription)
        ensures
            description.fields@.len() == setting_count(),
    {
        SettingsDescription::with_fields(Vec::new())
    }

    /// Sets the setting of the given index to the given value. The
    /// slideshow has no settings, so there is no index to call this with.
    pub fn set_value(&mut self, index: usize, value: Value)
        requires
            index < setting_count(),
        ensures
            final(self).slides() == old(self).slides(),
            final(self).components() == old(self).components(),
    {
    }
}

} // verus!
