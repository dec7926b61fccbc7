//! The progress of an iteration.
//!
//! [`IterProgress`] follows a sequence that is pulled item by item.  Whoever
//! pulls tells it after each pull whether an item came and how many the
//! sequence expects to have left, and writes the line that comes back.

use vstd::prelude::*;
use crate::progress::{shown, ProgressView};
use crate::step_progress::{StepProgress, StepProgressView, WithStepProgress};

verus! {

/// The progress of an iteration: active until the sequence is exhausted, then
/// finished for good.
#[derive(Debug)]
pub struct IterProgress {
    step_progress: StepProgress,
    finished: bool,
}

/// What an [`IterProgress`] holds.
pub struct IterProgressView {
    /// The tracker of the items pulled.
    pub tracker: StepProgressView,
    /// Whether the sequence was found exhausted.
    pub finished: bool,
}

impl IterProgressView {
    /// The number of items expected in all after a pull that gave an item and
    /// left `remaining` to expect: those pulled before, this one and those.
    pub open spec fn expected(self, remaining: usize) -> int {
        self.tracker.cur_step + remaining + 1
    }

    /// Whether a pull that gave an item can be counted.
    pub open spec fn can_count(self, remaining: usize) -> bool {
        self.expected(remaining) <= usize::MAX && self.tracker.cur_step + 1 < usize::MAX
    }

    /// The tracker with the total set that a pull which left `remaining`
    /// items tells.
    pub open spec fn retargeted(self, remaining: usize) -> StepProgressView {
        StepProgressView { max_step: Some(self.expected(remaining) as usize), ..self.tracker }
    }

    /// The state after a pull at `now`.  A pull that gave an item sets the
    /// expected total and counts one step; one that gave none draws the bar
    /// for the last time and finishes; once finished, nothing changes.
    pub open spec fn after_next(self, produced: bool, remaining: usize, now: u64)
        -> IterProgressView {
        if self.finished {
            self
        } else if produced {
            IterProgressView {
                tracker: self.retargeted(remaining).after_step(1, now),
                finished: false,
            }
        } else {
            IterProgressView { tracker: self.tracker.after_draw(true, now), finished: true }
        }
    }

    /// The text to write after a pull at `now`, if there is any.
    pub open spec fn next_line(
        self,
        produced: bool,
        remaining: usize,
        now: u64,
        detected: Option<usize>,
    ) -> Option<Seq<char>> {
        if self.finished {
            None
        } else if produced {
            self.retargeted(remaining).step_line(1, now, detected)
        } else {
            self.tracker.draw_line(true, now, detected)
        }
    }
}

impl View for IterProgress {
    type V = IterProgressView;

    closed spec fn view(&self) -> IterProgressView {
        IterProgressView { tracker: self.step_progress@, finished: self.finished }
    }
}

impl Clone for IterProgress {
    fn clone(&self) -> (progress: Self)
        ensures
            progress@ == self@,
    {
        Self { step_progress: self.step_progress.clone(), finished: self.finished }
    }
}

impl IterProgress {
    /// The progress of a sequence that expects at least `size_hint` items.
    pub fn new(size_hint: usize) -> (progress: Self)
        ensures
            progress@.tracker == (StepProgressView {
                max_step: Some(size_hint),
                ..StepProgressView::initial(progress@.tracker.progress)
            }),
            progress@.tracker.progress == ProgressView::initial(progress@.tracker.progress.clock),
            !progress@.finished,
    {
        Self { step_progress: StepProgress::new().with_max_step(size_hint), finished: false }
    }

    /// Whether the sequence was found exhausted.
    pub fn is_finished(&self) -> (finished: bool)
        ensures
            finished == self@.finished,
    {
        self.finished
    }

    /// Takes note of a pull at `now`: `produced` tells whether an item came,
    /// `remaining` how many items the sequence expects to have left.  Hands
    /// back the text to write.
    pub fn next_at(
        &mut self,
        produced: bool,
        remaining: usize,
        now: u64,
        detected: Option<usize>,
    ) -> (out: Option<String>)
        requires
            !old(self)@.finished && produced ==> old(self)@.can_count(remaining),
        ensures
            final(self)@ == old(self)@.after_next(produced, remaining, now),
            shown(out) == old(self)@.next_line(produced, remaining, now, detected),
    {
        if self.finished {
            return None;
        }
        if produced {
            let new_max_step: usize = self.step_progress.cur_step() + remaining + 1;
            self.step_progress.set_max_step(new_max_step);
            self.step_progress.step_at(1, now, detected)
        } else {
            self.finished = true;
            Some(self.step_progress.finish_at(now, detected))
        }
    }

    /// Takes note of a pull now, by the clock of the bar, and hands back the
    /// text to write.
    pub fn next(&mut self, produced: bool, remaining: usize) -> (out: Option<String>)
        requires
            !old(self)@.finished && produced ==> old(self)@.can_count(remaining),
        ensures
            exists|now: u64, detected: Option<usize>|
                {
                    &&& final(self)@ == old(self)@.after_next(produced, remaining, now)
                    &&& shown(out) == old(self)@.next_line(produced, remaining, now, detected)
                },
            old(self)@.finished ==> out is None && final(self)@ == old(self)@,
            !old(self)@.finished && !produced ==> out is Some && final(self)@.finished,
    {
        let (now, detected): (u64, Option<usize>) = self.step_progress.observe();
        let out = self.next_at(produced, remaining, now, detected);
        assert(self@ == old(self)@.after_next(produced, remaining, now) && shown(out) == old(
            self,
        )@.next_line(produced, remaining, now, detected));
        out
    }
}

/// The sequence is found exhausted once: the first pull that gives no item
/// draws the full bar with one end of line behind it and finishes; every pull
/// after that writes nothing and changes nothing.
pub proof fn lemma_finish_once(
    progress: IterProgressView,
    produced: bool,
    remaining: usize,
    now: u64,
    later: u64,
    detected: Option<usize>,
)
    requires
        !progress.finished,
    ensures
        progress.after_next(false, remaining, now).finished,
        progress.next_line(false, remaining, now, detected) is Some,
        progress.next_line(false, remaining, now, detected)->0.last() == '\n',
        progress.after_next(false, remaining, now).next_line(produced, remaining, later, detected)
            is None,
        progress.after_next(false, remaining, now).after_next(produced, remaining, later)
            == progress.after_next(false, remaining, now),
{
}

impl IterProgress {
    /// The tracker of the value is the one that its view shows, and the value
    /// with another tracker differs in nothing but the tracker.
    pub proof fn lemma_step_progress(self, tracker: StepProgress)
        ensures
            self.step_progress()@ == self@.tracker,
            self.replace_step_progress(tracker).step_progress() == tracker,
            self.replace_step_progress(tracker)@ == (IterProgressView {
                tracker: tracker@,
                finished: self@.finished,
            }),
    {
    }
}

impl WithStepProgress for IterProgress {
    closed spec fn step_progress(&self) -> StepProgress {
        self.step_progress
    }

    closed spec fn replace_step_progress(self, tracker: StepProgress) -> Self {
        IterProgress { step_progress: tracker, ..self }
    }

    proof fn lemma_replace_same(self) {
    }

    fn get_step_progress(&mut self) -> (tracker: &mut StepProgress) {
        &mut self.step_progress
    }
}

} // verus!
