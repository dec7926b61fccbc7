//! The progress of reading a source of bytes.
//!
//! [`FileProgress`] follows a source of known size that is read and sought
//! in.  Whoever reads tells it what each read and each seek gave, and writes
//! the line that comes back.

use vstd::prelude::*;
use crate::progress::{shown, ProgressView};
use crate::step_progress::{StepProgress, StepProgressView, WithStepProgress};

verus! {

/// The progress of reading a source of bytes: active until a read gives no
/// bytes, then finished for good.
#[derive(Debug)]
pub struct FileProgress {
    step_progress: StepProgress,
    finished: bool,
}

/// What a [`FileProgress`] holds.
pub struct FileProgressView {
    /// The tracker of the bytes read.
    pub tracker: StepProgressView,
    /// Whether a read has found the source exhausted.
    pub finished: bool,
}

impl FileProgressView {
    /// The state after a read of `bytes` bytes at `now`.  A read that gave
    /// bytes counts them; one that gave none draws the bar for the last time
    /// and finishes; once finished, nothing changes.
    pub open spec fn after_read(self, bytes: usize, now: u64) -> FileProgressView {
        if self.finished {
            self
        } else if bytes == 0 {
            FileProgressView { tracker: self.tracker.after_draw(true, now), finished: true }
        } else {
            FileProgressView { tracker: self.tracker.after_step(bytes, now), finished: false }
        }
    }

    /// The text to write after a read of `bytes` bytes at `now`, if there is
    /// any.
    pub open spec fn read_line(self, bytes: usize, now: u64, detected: Option<usize>) -> Option<
        Seq<char>,
    > {
        if self.finished {
            None
        } else if bytes == 0 {
            self.tracker.draw_line(true, now, detected)
        } else {
            self.tracker.step_line(bytes, now, detected)
        }
    }

    /// The bytes that a seek to `position` skips: those between the bytes
    /// counted and the position, where it lies beyond them.  A seek backwards
    /// skips nothing, and takes nothing back.
    pub open spec fn skipped(self, position: u64) -> int {
        if position > self.tracker.cur_step {
            position - self.tracker.cur_step
        } else {
            0
        }
    }

    /// The state after a seek to `position` at `now`: the bytes skipped are
    /// counted.
    pub open spec fn after_seek(self, position: u64, now: u64) -> FileProgressView {
        if self.finished || self.skipped(position) == 0 {
            self
        } else {
            FileProgressView {
                tracker: self.tracker.after_step(self.skipped(position) as usize, now),
                finished: false,
            }
        }
    }

    /// The line to write after a seek to `position` at `now`, if there is
    /// any.
    pub open spec fn seek_line(self, position: u64, now: u64, detected: Option<usize>) -> Option<
        Seq<char>,
    > {
        if self.finished || self.skipped(position) == 0 {
            None
        } else {
            self.tracker.step_line(self.skipped(position) as usize, now, detected)
        }
    }
}

impl View for FileProgress {
    type V = FileProgressView;

    closed spec fn view(&self) -> FileProgressView {
        FileProgressView { tracker: self.step_progress@, finished: self.finished }
    }
}

impl FileProgress {
    /// The progress of a source of `size` bytes.  Counts are shown in bytes,
    /// with magnitude prefixes.
    pub fn new(size: u64) -> (progress: Self)
        requires
            size <= usize::MAX,
        ensures
            progress@.tracker == (StepProgressView {
                humanize: true,
                unit: seq!['B'],
                max_step: Some(size as usize),
                ..StepProgressView::initial(progress@.tracker.progress)
            }),
            progress@.tracker.progress == ProgressView::initial(progress@.tracker.progress.clock),
            !progress@.finished,
    {
        proof {
            reveal_strlit("B");
            assert("B"@ =~= seq!['B']);
        }
        Self {
            step_progress: StepProgress::new().with_humanize(true).with_unit("B").with_max_step(
                size as usize,
            ),
            finished: false,
        }
    }

    /// Whether a read has found the source exhausted.
    pub fn is_finished(&self) -> (finished: bool)
        ensures
            finished == self@.finished,
    {
        self.finished
    }

    /// Takes note of a read at `now` that gave `bytes` bytes, and hands back
    /// the text to write.
    pub fn read_at(&mut self, bytes: usize, now: u64, detected: Option<usize>) -> (out: Option<
        String,
    >)
        requires
            !old(self)@.finished ==> old(self)@.tracker.cur_step + bytes < usize::MAX,
        ensures
            final(self)@ == old(self)@.after_read(bytes, now),
            shown(out) == old(self)@.read_line(bytes, now, detected),
    {
        if self.finished {
            return None;
        }
        if bytes == 0 {
            self.finished = true;
            Some(self.step_progress.finish_at(now, detected))
        } else {
            self.step_progress.step_at(bytes, now, detected)
        }
    }

    /// Takes note of a seek at `now` that led to `position`, counted from the
    /// start of the source, and hands back the line to write.
    pub fn seek_at(&mut self, position: u64, now: u64, detected: Option<usize>) -> (out: Option<
        String,
    >)
        requires
            !old(self)@.finished ==> position < usize::MAX,
        ensures
            final(self)@ == old(self)@.after_seek(position, now),
            shown(out) == old(self)@.seek_line(position, now, detected),
    {
        if self.finished {
            return None;
        }
        let cur_step: u64 = self.step_progress.cur_step() as u64;

        if position > cur_step {
            self.step_progress.step_at((position - cur_step) as usize, now, detected)
        } else {
            None
        }
    }

    /// Takes note of a read now, by the clock of the bar, that gave `bytes`
    /// bytes, and hands back the text to write.
    pub fn read(&mut self, bytes: usize) -> (out: Option<String>)
        requires
            !old(self)@.finished ==> old(self)@.tracker.cur_step + bytes < usize::MAX,
        ensures
            exists|now: u64, detected: Option<usize>|
                {
                    &&& final(self)@ == old(self)@.after_read(bytes, now)
                    &&& shown(out) == old(self)@.read_line(bytes, now, detected)
                },
            old(self)@.finished ==> out is None && final(self)@ == old(self)@,
            !old(self)@.finished && bytes == 0 ==> out is Some && final(self)@.finished,
    {
        let (now, detected): (u64, Option<usize>) = self.step_progress.observe();
        let out = self.read_at(bytes, now, detected);
        assert(self@ == old(self)@.after_read(bytes, now) && shown(out) == old(self)@.read_line(
            bytes,
            now,
            detected,
        ));
        out
    }

    /// Takes note of a seek now, by the clock of the bar, that led to
    /// `position`, and hands back the line to write.
    pub fn seek(&mut self, position: u64) -> (out: Option<String>)
        requires
            !old(self)@.finished ==> position < usize::MAX,
        ensures
            exists|now: u64, detected: Option<usize>|
                {
                    &&& final(self)@ == old(self)@.after_seek(position, now)
                    &&& shown(out) == old(self)@.seek_line(position, now, detected)
                },
            old(self)@.finished || position <= old(self)@.tracker.cur_step ==> out is None
                && final(self)@ == old(self)@,
    {
        let (now, detected): (u64, Option<usize>) = self.step_progress.observe();
        let out = self.seek_at(position, now, detected);
        assert(self@ == old(self)@.after_seek(position, now) && shown(out) == old(self)@.seek_line(
            position,
            now,
            detected,
        ));
        out
    }
}

impl FileProgress {
    /// The tracker of the value is the one that its view shows, and the value
    /// with another tracker differs in nothing but the tracker.
    pub proof fn lemma_step_progress(self, tracker: StepProgress)
        ensures
            self.step_progress()@ == self@.tracker,
            self.replace_step_progress(tracker).step_progress() == tracker,
            self.replace_step_progress(tracker)@ == (FileProgressView {
                tracker: tracker@,
                finished: self@.finished,
            }),
    {
    }
}

impl WithStepProgress for FileProgress {
    closed spec fn step_progress(&self) -> StepProgress {
        self.step_progress
    }

    closed spec fn replace_step_progress(self, tracker: StepProgress) -> Self {
        FileProgress { step_progress: tracker, ..self }
    }

    proof fn lemma_replace_same(self) {
    }

    fn get_step_progress(&mut self) -> (tracker: &mut StepProgress) {
        &mut self.step_progress
    }
}

} // verus!
