//! A progress bar that can only step forward.
//!
//! [`StepProgress`] counts the steps that were made, keeps the samples of the
//! last seconds to tell the current speed, and writes what it knows into the
//! extra informations of the bar that it holds.  Times are nanoseconds on the
//! clock of that bar, which starts when the tracker is made.

use vstd::prelude::*;
use vstd::string::*;
use crate::history::{
    evict, lemma_evict, lemma_sampled_ordered, rate, rate_of, sample_time, sampled, window_rate,
    StepHistory, StepHistoryView, HISTORY_DURATION,
};
use crate::progress::{shown, Fraction, Progress, ProgressView, WithProgress};
use crate::text::{
    decimal, duration_text, hundredths, push_decimal, push_duration, push_hundredths, push_tenths,
    round_div, rounded_div, tenths,
};
use crate::units::UnitMode;

verus! {

/// A count as it is shown: with two decimal places and a binary magnitude
/// prefix where counts are humanized, else as a plain number; the unit
/// behind it either way.
pub open spec fn count_text(humanize: bool, count: nat, unit: Seq<char>) -> Seq<char> {
    if humanize {
        let milli = count * 1000;
        hundredths(round_div(UnitMode::Binary.spec_scaled(milli), 10))
            + UnitMode::Binary.spec_prefix(UnitMode::Binary.spec_steps(milli)) + unit
    } else {
        decimal(count) + unit
    }
}

/// A speed, given in thousandths of a step per second, as it is shown: with
/// one decimal place, then a space, a binary magnitude prefix, the unit and
/// `/s`.
pub open spec fn rate_text(rate: nat, unit: Seq<char>) -> Seq<char> {
    tenths(round_div(UnitMode::Binary.spec_scaled(rate), 100)) + seq![' ']
        + UnitMode::Binary.spec_prefix(UnitMode::Binary.spec_steps(rate)) + unit + seq!['/', 's']
}

/// The time that the steps still to make will take, if they go as those made
/// until `elapsed` did: `elapsed` for each step made, one more counted, times
/// the steps between `cur_step` and `denominator`.
pub open spec fn remaining_nanos(cur_step: nat, denominator: nat, elapsed: nat) -> nat {
    let left: nat = if denominator >= cur_step {
        (denominator - cur_step) as nat
    } else {
        0
    };
    left * elapsed / (1 + cur_step)
}

/// The extra informations of a bar: the steps made, the steps in all, the
/// `duration` in nanoseconds and the `rate` in thousandths of a step per
/// second.
pub open spec fn annotation_text(
    humanize: bool,
    unit: Seq<char>,
    cur_step: nat,
    denominator: nat,
    duration: nat,
    rate: nat,
) -> Seq<char> {
    count_text(humanize, cur_step, unit) + seq!['/'] + count_text(humanize, denominator, unit)
        + seq![',', ' '] + duration_text(duration) + seq![' ', '('] + rate_text(rate, unit)
        + seq![')']
}

/// Appends a count as it is shown.
pub fn push_count(out: &mut String, humanize: bool, count: usize, unit: &str)
    ensures
        final(out)@ == old(out)@ + count_text(humanize, count as nat, unit@),
{
    if humanize {
        let scaled = UnitMode::Binary.scale(count as u128 * 1000);
        push_hundredths(out, rounded_div(scaled.milli, 10));
        out.append(UnitMode::Binary.prefix(scaled.steps));
    } else {
        push_decimal(out, count as u128);
    }
    out.append(unit);
    assert(out@ =~= old(out)@ + count_text(humanize, count as nat, unit@));
}

/// Appends a speed, given in thousandths of a step per second, as it is
/// shown.
pub fn push_rate(out: &mut String, rate: u128, unit: &str)
    ensures
        final(out)@ == old(out)@ + rate_text(rate as nat, unit@),
{
    let scaled = UnitMode::Binary.scale(rate);
    push_tenths(out, rounded_div(scaled.milli, 100));
    out.push(' ');
    out.append(UnitMode::Binary.prefix(scaled.steps));
    out.append(unit);
    out.push('/');
    out.push('s');
    assert(out@ =~= old(out)@ + rate_text(rate as nat, unit@));
}

/// The time that the steps still to make will take, in nanoseconds.
pub fn remaining(cur_step: usize, denominator: usize, elapsed: u64) -> (nanos: u128)
    ensures
        nanos == remaining_nanos(cur_step as nat, denominator as nat, elapsed as nat),
{
    let left: usize = if denominator >= cur_step {
        denominator - cur_step
    } else {
        0
    };
    assert(left as u128 * elapsed as u128 <= 0xffff_ffff_ffff_ffff * 0xffff_ffff_ffff_ffff)
        by (nonlinear_arith)
        requires
            left <= 0xffff_ffff_ffff_ffff,
            elapsed <= 0xffff_ffff_ffff_ffff,
    ;
    left as u128 * elapsed as u128 / (1 + cur_step as u128)
}

/// The extra informations of a bar.
pub fn annotation(
    humanize: bool,
    unit: &str,
    cur_step: usize,
    denominator: usize,
    duration: u128,
    rate: u128,
) -> (text: String)
    ensures
        text@ == annotation_text(
            humanize,
            unit@,
            cur_step as nat,
            denominator as nat,
            duration as nat,
            rate as nat,
        ),
{
    let mut text = String::new();
    push_count(&mut text, humanize, cur_step, unit);
    text.push('/');
    push_count(&mut text, humanize, denominator, unit);
    text.push(',');
    text.push(' ');
    let ghost counts = text@;
    push_duration(&mut text, duration);
    text.push(' ');
    text.push('(');
    push_rate(&mut text, rate, unit);
    text.push(')');
    assert(counts =~= count_text(humanize, cur_step as nat, unit@) + seq!['/'] + count_text(
        humanize,
        denominator as nat,
        unit@,
    ) + seq![',', ' ']);
    assert(text@ =~= counts + duration_text(duration as nat) + seq![' ', '('] + rate_text(
        rate as nat,
        unit@,
    ) + seq![')']);
    text
}

/// A progress bar that can only step forward.
#[derive(Debug)]
pub struct StepProgress {
    history: StepHistory,
    humanize: bool,
    max_step: Option<usize>,
    progress: Progress,
    unit: String,
}

/// What a [`StepProgress`] holds.
pub struct StepProgressView {
    /// The steps made so far.
    pub cur_step: usize,
    /// Whether counts are shown with magnitude prefixes.
    pub humanize: bool,
    /// The number of steps that is expected in all, where it is known.
    pub max_step: Option<usize>,
    /// The bar.
    pub progress: ProgressView,
    /// The samples of the last seconds, oldest first: the time of a redraw
    /// and one more than the steps made by then.
    pub time_history: Seq<(u64, usize)>,
    /// The unit that counts are shown in.
    pub unit: Seq<char>,
}

impl StepProgressView {
    /// What a new tracker with the bar `progress` holds: no steps, no
    /// expected total, and one sample at the start.
    pub open spec fn initial(progress: ProgressView) -> StepProgressView {
        StepProgressView {
            cur_step: 0,
            humanize: false,
            max_step: None,
            progress,
            time_history: seq![(0u64, 0usize)],
            unit: Seq::empty(),
        }
    }

    /// The steps and the samples of the tracker.
    pub open spec fn history(self) -> StepHistoryView {
        StepHistoryView { cur_step: self.cur_step, samples: self.time_history }
    }

    /// The invariant of a tracker: that of its history.
    pub open spec fn wf(self) -> bool {
        self.history().wf()
    }

    /// The number of steps that progress is measured against: the expected
    /// total, or where there is none the steps made so far.
    pub open spec fn denominator(self) -> usize {
        match self.max_step {
            Some(max_step) => max_step,
            None => self.cur_step,
        }
    }

    /// The current speed, in thousandths of a step per second.
    pub open spec fn speed(self) -> nat {
        window_rate(self.time_history, self.cur_step as nat)
    }

    /// The time of a sample taken at `now`.
    pub open spec fn sample_time(self, now: u64) -> u64 {
        sample_time(self.time_history, now)
    }

    /// The samples with the one taken at `now` behind them.
    pub open spec fn sampled(self, now: u64) -> Seq<(u64, usize)> {
        sampled(self.time_history, self.cur_step, now)
    }

    /// The progress made, as a fraction of the denominator.
    pub open spec fn fraction(self) -> Fraction {
        Fraction { part: self.cur_step as u64, whole: self.denominator() as u64 }
    }

    /// The extra informations that a redraw at `now` shows.  A last redraw
    /// shows the time that all steps took and their speed; another one shows
    /// the time that the steps still to make will take, and the current speed
    /// with the sample of this redraw counted in.
    pub open spec fn annotation(self, finished: bool, now: u64) -> Seq<char> {
        let elapsed = self.sample_time(now) as nat;
        let duration = if finished {
            elapsed
        } else {
            remaining_nanos(self.cur_step as nat, self.denominator() as nat, elapsed)
        };
        let rate = if finished {
            rate_of(self.cur_step as nat, elapsed)
        } else {
            window_rate(self.sampled(now), self.cur_step as nat)
        };
        annotation_text(
            self.humanize,
            self.unit,
            self.cur_step as nat,
            self.denominator() as nat,
            duration,
            rate,
        )
    }

    /// The tracker after a redraw at `now`: the bar shows the new extra
    /// informations and has been finished or updated, the new sample has
    /// been taken, and the samples that lie too far back have been dropped.
    pub open spec fn after_draw(self, finished: bool, now: u64) -> StepProgressView {
        let annotated = self.progress.with_extra_infos(self.annotation(finished, now));
        StepProgressView {
            progress: if finished {
                annotated.drawn_at(now)
            } else {
                annotated.after_update(now)
            },
            time_history: evict(self.sampled(now)),
            ..self
        }
    }

    /// The text that a redraw at `now` gives: at a last redraw the line of
    /// the full bar and an end of line; else the line at the progress made,
    /// where a redraw of the bar is due.
    pub open spec fn draw_line(self, finished: bool, now: u64, detected: Option<usize>) -> Option<
        Seq<char>,
    > {
        let annotated = self.progress.with_extra_infos(self.annotation(finished, now));
        if finished {
            Some(annotated.finish_line(detected))
        } else {
            annotated.update_line(self.fraction(), now, detected)
        }
    }

    /// The tracker with `count` more steps made.
    pub open spec fn advanced(self, count: usize) -> StepProgressView {
        StepProgressView { cur_step: (self.cur_step + count) as usize, ..self }
    }

    /// The tracker after `count` steps at `now`: the steps are counted, and
    /// the bar is redrawn where that is due.
    pub open spec fn after_step(self, count: usize, now: u64) -> StepProgressView {
        if self.progress.refresh_due(now) {
            self.advanced(count).after_draw(false, now)
        } else {
            self.advanced(count)
        }
    }

    /// The line that `count` steps at `now` give, where a redraw is due.
    pub open spec fn step_line(self, count: usize, now: u64, detected: Option<usize>) -> Option<
        Seq<char>,
    > {
        if self.progress.refresh_due(now) {
            self.advanced(count).draw_line(false, now, detected)
        } else {
            None
        }
    }

    /// The speed of all steps made until `now`, in thousandths of a step per
    /// second.
    pub open spec fn total_speed(self, now: u64) -> nat {
        rate_of(self.cur_step as nat, now as nat)
    }
}

impl View for StepProgress {
    type V = StepProgressView;

    closed spec fn view(&self) -> StepProgressView {
        StepProgressView {
            cur_step: self.history@.cur_step,
            humanize: self.humanize,
            max_step: self.max_step,
            progress: self.progress@,
            time_history: self.history@.samples,
            unit: self.unit@,
        }
    }
}

impl Clone for StepProgress {
    fn clone(&self) -> (tracker: Self)
        ensures
            tracker@ == self@,
    {
        Self {
            history: self.history.clone(),
            humanize: self.humanize,
            max_step: self.max_step,
            progress: self.progress.clone(),
            unit: self.unit.clone(),
        }
    }
}

impl Default for StepProgress {
    fn default() -> (tracker: Self)
        ensures
            tracker@ == StepProgressView::initial(tracker@.progress),
            tracker@.progress == ProgressView::initial(tracker@.progress.clock),
    {
        Self::new()
    }
}

impl StepProgress {
    /// The bar of the tracker.
    pub closed spec fn bar(&self) -> Progress {
        self.progress
    }

    /// The tracker with `progress` in the place of its bar.
    pub closed spec fn with_bar(self, progress: Progress) -> StepProgress {
        StepProgress { progress, ..self }
    }

    /// The bar of a tracker is the one that its view shows, and a tracker
    /// with another bar differs in nothing but the bar.
    pub proof fn lemma_bar(self, progress: Progress)
        ensures
            self.bar()@ == self@.progress,
            self.with_bar(progress).bar() == progress,
            self.with_bar(progress)@ == (StepProgressView { progress: progress@, ..self@ }),
    {
    }

    /// A new tracker with a new bar: no steps made, no total expected.
    pub fn new() -> (tracker: Self)
        ensures
            tracker@ == StepProgressView::initial(tracker@.progress),
            tracker@.progress == ProgressView::initial(tracker@.progress.clock),
            tracker@.wf(),
    {
        Self {
            history: StepHistory::new(),
            humanize: false,
            max_step: None,
            progress: Progress::new(),
            unit: String::new(),
        }
    }

    /// The bar of the tracker.
    pub fn progress(&self) -> (progress: &Progress)
        ensures
            *progress == self.bar(),
            progress@ == self@.progress,
    {
        &self.progress
    }

    /// The samples held, oldest first.
    pub fn samples(&self) -> (samples: Vec<(u64, usize)>)
        ensures
            samples@ == self@.time_history,
            self@.wf(),
    {
        self.history.samples()
    }

    /// The current speed, in thousandths of a step per second: that between
    /// the oldest and the newest sample.
    pub fn speed(&self) -> (r: u128)
        ensures
            r == self@.speed(),
    {
        self.history.speed()
    }

    /// The speed of all steps made until `now`, in thousandths of a step per
    /// second.
    pub fn total_speed_at(&self, now: u64) -> (r: u128)
        ensures
            r == self@.total_speed(now),
    {
        rate(self.history.cur_step(), now)
    }

    /// The speed of all steps made until now, by the clock of the bar.
    pub fn total_speed(&self) -> (r: u128)
        ensures
            exists|now: u64| r == self@.total_speed(now),
    {
        let now: u64 = self.progress.clock().now();
        let r = self.total_speed_at(now);
        assert(r == self@.total_speed(now));
        r
    }

    /// Counts `count` more steps at `now`, redraws the bar where that is due
    /// and hands back the line to write.
    pub fn step_at(&mut self, count: usize, now: u64, detected: Option<usize>) -> (out: Option<
        String,
    >)
        requires
            old(self)@.cur_step + count < usize::MAX,
        ensures
            final(self)@ == old(self)@.after_step(count, now),
            shown(out) == old(self)@.step_line(count, now, detected),
            final(self)@.wf(),
    {
        self.history.advance(count);

        if self.progress.need_refresh_at(now) {
            self.draw_at(false, now, detected)
        } else {
            proof {
                use_type_invariant(&self.history);
            }
            None
        }
    }

    /// Redraws the bar for the last time, at `now`, and hands back its line
    /// with an end of line behind it.
    pub fn finish_at(&mut self, now: u64, detected: Option<usize>) -> (out: String)
        ensures
            final(self)@ == old(self)@.after_draw(true, now),
            Some(out@) == old(self)@.draw_line(true, now, detected),
            final(self)@.wf(),
    {
        match self.draw_at(true, now, detected) {
            Some(text) => text,
            None => String::new(),
        }
    }

    /// Takes a sample at `now`, writes the state into the extra informations
    /// of the bar, redraws the bar (for the last time if `finished`) and drops
    /// the samples that lie too far back.  Hands back the text to write.
    pub fn draw_at(&mut self, finished: bool, now: u64, detected: Option<usize>) -> (out: Option<
        String,
    >)
        ensures
            final(self)@ == old(self)@.after_draw(finished, now),
            shown(out) == old(self)@.draw_line(finished, now, detected),
            final(self)@.wf(),
    {
        let cur_step: usize = self.history.cur_step();
        let (time, windowed): (u64, u128) = self.history.record(now);

        let nb_steps: usize = match self.max_step {
            Some(max_step) => max_step,
            None => cur_step,
        };

        let duration: u128 = if finished {
            time as u128
        } else {
            remaining(cur_step, nb_steps, time)
        };

        let speed: u128 = if finished {
            rate(cur_step, time)
        } else {
            windowed
        };

        let text = annotation(
            self.humanize,
            self.unit.as_str(),
            cur_step,
            nb_steps,
            duration,
            speed,
        );
        assert(text@ == old(self)@.annotation(finished, now));
        self.progress.set_extra_infos(text.as_str());

        let out: Option<String> = if finished {
            Some(self.progress.finished_at(now, detected))
        } else {
            self.progress.update_at(Fraction::new(cur_step as u64, nb_steps as u64), now, detected)
        };
        proof {
            use_type_invariant(&self.history);
        }
        out
    }

    /// The time now, by the clock of the bar, and the width of the terminal
    /// where the bar has no fixed display width and a terminal is found.
    pub fn observe(&self) -> (r: (u64, Option<usize>))
        ensures
            self@.progress.display_width is Some ==> r.1 is None,
    {
        (self.progress.clock().now(), self.progress.detect_width())
    }

    /// Counts `count` more steps, redraws the bar if the refresh delay has
    /// passed, by the clock of the bar, and hands back the line to write.
    pub fn step(&mut self, count: usize) -> (out: Option<String>)
        requires
            old(self)@.cur_step + count < usize::MAX,
        ensures
            exists|now: u64, detected: Option<usize>|
                {
                    &&& final(self)@ == old(self)@.after_step(count, now)
                    &&& shown(out) == old(self)@.step_line(count, now, detected)
                },
            final(self)@.cur_step == old(self)@.cur_step + count,
            final(self)@.wf(),
    {
        let (now, detected): (u64, Option<usize>) = self.observe();
        let out = self.step_at(count, now, detected);
        assert(self@ == old(self)@.after_step(count, now) && shown(out) == old(self)@.step_line(
            count,
            now,
            detected,
        ));
        out
    }

    /// Ends the steps: redraws the bar for the last time and hands back its
    /// line with an end of line behind it.
    pub fn finish(&mut self) -> (out: String)
        ensures
            exists|now: u64, detected: Option<usize>|
                {
                    &&& final(self)@ == old(self)@.after_draw(true, now)
                    &&& Some(out@) == old(self)@.draw_line(true, now, detected)
                },
            final(self)@.wf(),
    {
        let (now, detected): (u64, Option<usize>) = self.observe();
        let out = self.finish_at(now, detected);
        assert(self@ == old(self)@.after_draw(true, now) && Some(out@) == old(self)@.draw_line(
            true,
            now,
            detected,
        ));
        out
    }

    /// Redraws the bar now, by its clock (for the last time if `finished`),
    /// and hands back the text to write.
    pub fn draw(&mut self, finished: bool) -> (out: Option<String>)
        ensures
            exists|now: u64, detected: Option<usize>|
                {
                    &&& final(self)@ == old(self)@.after_draw(finished, now)
                    &&& shown(out) == old(self)@.draw_line(finished, now, detected)
                },
            finished ==> out is Some,
            final(self)@.wf(),
    {
        let (now, detected): (u64, Option<usize>) = self.observe();
        let out = self.draw_at(finished, now, detected);
        assert(self@ == old(self)@.after_draw(finished, now) && shown(out) == old(
            self,
        )@.draw_line(finished, now, detected));
        out
    }
}

/// A redraw keeps the invariant of a tracker: afterwards it holds at least
/// one sample, the newest of them taken at this redraw, and its samples span
/// no more than the history reaches.
pub proof fn lemma_after_draw(tracker: StepProgressView, finished: bool, now: u64)
    requires
        tracker.wf(),
    ensures
        tracker.after_draw(finished, now).wf(),
        tracker.after_draw(finished, now).time_history.len() >= 1,
        tracker.after_draw(finished, now).time_history.last() == (
            tracker.sample_time(now),
            (tracker.cur_step + 1) as usize,
        ),
        tracker.after_draw(finished, now).time_history.last().0 - tracker.after_draw(
            finished,
            now,
        ).time_history.first().0 <= HISTORY_DURATION,
        tracker.after_draw(finished, now).cur_step == tracker.cur_step,
{
    lemma_sampled_ordered(tracker.history(), now);
    lemma_evict(tracker.sampled(now));
}

/// Steps keep the invariant of a tracker, whether or not they redraw the
/// bar, and are all counted.
pub proof fn lemma_after_step(tracker: StepProgressView, count: usize, now: u64)
    requires
        tracker.wf(),
        tracker.cur_step + count < usize::MAX,
    ensures
        tracker.after_step(count, now).wf(),
        tracker.after_step(count, now).cur_step == tracker.cur_step + count,
        tracker.after_step(count, now).time_history.last().0 - tracker.after_step(
            count,
            now,
        ).time_history.first().0 <= HISTORY_DURATION,
{
    if tracker.progress.refresh_due(now) {
        lemma_after_draw(tracker.advanced(count), false, now);
    }
}

/// A value that holds a progress bar that can only step forward.  The
/// settings of its bar can be changed as those of any bar.
pub trait WithStepProgress: Sized {
    /// The tracker that the value holds.
    spec fn step_progress(&self) -> StepProgress;

    /// The value with `tracker` in the place of its tracker.
    spec fn replace_step_progress(self, tracker: StepProgress) -> Self;

    /// A value with its own tracker put in its place is the value itself.
    proof fn lemma_replace_same(self)
        ensures
            self.replace_step_progress(self.step_progress()) == self,
    ;

    /// The tracker, to read or to change it; the rest of the value stays as
    /// it was.
    fn get_step_progress(&mut self) -> (tracker: &mut StepProgress)
        ensures
            *tracker == old(self).step_progress(),
            final(self).step_progress() == *final(tracker),
            *final(self) == old(self).replace_step_progress(*final(tracker)),
    ;

    /// Changes whether counts are shown with magnitude prefixes.
    fn with_humanize(self, humanize: bool) -> (r: Self)
        ensures
            r.step_progress()@ == (StepProgressView { humanize, ..self.step_progress()@ }),
            r == self.replace_step_progress(r.step_progress()),
    {
        let mut this = self;
        this.get_step_progress().humanize = humanize;
        this
    }

    /// Changes the unit that counts are shown in.
    fn with_unit(self, unit: &str) -> (r: Self)
        ensures
            r.step_progress()@ == (StepProgressView { unit: unit@, ..self.step_progress()@ }),
            r == self.replace_step_progress(r.step_progress()),
    {
        let mut this = self;
        this.get_step_progress().unit = unit.to_owned();
        this
    }

    /// Sets the number of steps that is expected in all.
    fn with_max_step(self, max_step: usize) -> (r: Self)
        ensures
            r.step_progress()@ == (StepProgressView {
                max_step: Some(max_step),
                ..self.step_progress()@
            }),
            r == self.replace_step_progress(r.step_progress()),
    {
        let mut this = self;
        this.get_step_progress().max_step = Some(max_step);
        this
    }

    /// Sets the number of steps that is expected in all.
    fn set_max_step(&mut self, max_step: usize)
        ensures
            final(self).step_progress()@ == (StepProgressView {
                max_step: Some(max_step),
                ..old(self).step_progress()@
            }),
            *final(self) == old(self).replace_step_progress(final(self).step_progress()),
    {
        self.get_step_progress().max_step = Some(max_step)
    }

    /// The number of steps that is expected in all, where it is known.
    fn max_step(&mut self) -> (max_step: Option<usize>)
        ensures
            max_step == old(self).step_progress()@.max_step,
            *final(self) == *old(self),
    {
        let ghost before = *self;
        proof {
            before.lemma_replace_same();
        }
        self.get_step_progress().max_step
    }

    /// The steps made so far.
    fn cur_step(&mut self) -> (cur_step: usize)
        ensures
            cur_step == old(self).step_progress()@.cur_step,
            *final(self) == *old(self),
    {
        let ghost before = *self;
        proof {
            before.lemma_replace_same();
        }
        self.get_step_progress().history.cur_step()
    }
}

impl WithStepProgress for StepProgress {
    open spec fn step_progress(&self) -> StepProgress {
        *self
    }

    open spec fn replace_step_progress(self, tracker: StepProgress) -> Self {
        tracker
    }

    proof fn lemma_replace_same(self) {
    }

    fn get_step_progress(&mut self) -> (tracker: &mut StepProgress) {
        self
    }
}

impl<T> WithProgress for T where T: Sized + WithStepProgress {
    open spec fn progress_bar(&self) -> Progress {
        self.step_progress().bar()
    }

    open spec fn replace_progress_bar(self, progress: Progress) -> Self {
        self.replace_step_progress(self.step_progress().with_bar(progress))
    }

    fn update_progress<U>(self, update: U) -> (r: Self) where U: FnOnce(Progress) -> Progress {
        let mut this = self;
        let tracker = this.get_step_progress();
        let updated = update(tracker.progress.clone());
        tracker.progress = updated;
        this
    }
}

} // verus!
