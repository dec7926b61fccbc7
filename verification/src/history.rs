//! The steps made and the samples of the last seconds.
//!
//! A [`StepHistory`] counts steps and holds a window of samples, each the
//! time of a redraw and the steps counted by then, from which the current
//! speed is told.  Samples that lie further back than the window reaches are
//! dropped when a new one is taken; the newest always stays.

use std::collections::VecDeque;
use vstd::prelude::*;

verus! {

/// How far back the samples for the current speed reach, in nanoseconds.
pub const HISTORY_DURATION: u64 = 10_000_000_000;

/// Thousandths of a step per second that one step per nanosecond makes.
pub const MILLI_PER_NANO: u128 = 1_000_000_000_000;

/// Whether neither the times nor the counts of the samples ever go down.
pub open spec fn window_ordered(window: Seq<(u64, usize)>) -> bool {
    forall|i: int, j: int|
        0 <= i <= j < window.len() ==> window[i].0 <= window[j].0 && window[i].1 <= window[j].1
}

/// The time of a sample taken at `now` behind the samples of `window`: `now`,
/// or the time of the newest sample where `now` lies before it.
pub open spec fn sample_time(window: Seq<(u64, usize)>, now: u64) -> u64
    recommends
        window.len() > 0,
{
    if now >= window.last().0 {
        now
    } else {
        window.last().0
    }
}

/// The samples of `window` with the one taken at `now` behind them, which
/// counts one step more than the `cur_step` that were made.
pub open spec fn sampled(window: Seq<(u64, usize)>, cur_step: usize, now: u64) -> Seq<
    (u64, usize),
> {
    window.push((sample_time(window, now), (cur_step + 1) as usize))
}

/// A window without the samples at its front that lie further back from its
/// newest sample than the history reaches.
pub open spec fn evict(window: Seq<(u64, usize)>) -> Seq<(u64, usize)>
    decreases window.len(),
{
    if window.len() > 1 && window.last().0 - window.first().0 > HISTORY_DURATION {
        evict(window.drop_first())
    } else {
        window
    }
}

/// The speed of `count` steps in `nanos` nanoseconds, in thousandths of a
/// step per second; 0 where no time has passed.
pub open spec fn rate_of(count: nat, nanos: nat) -> nat {
    if nanos == 0 {
        0
    } else {
        count * (MILLI_PER_NANO as nat) / nanos
    }
}

/// The current speed that a window tells: that between its oldest and its
/// newest sample; where no time lies between them, the speed of all
/// `cur_step` steps since the start.
pub open spec fn window_rate(window: Seq<(u64, usize)>, cur_step: nat) -> nat
    recommends
        window.len() > 0,
{
    let oldest = window.first();
    let newest = window.last();
    if newest.0 > oldest.0 {
        rate_of((newest.1 - oldest.1) as nat, (newest.0 - oldest.0) as nat)
    } else {
        rate_of(cur_step, newest.0 as nat)
    }
}

/// A sample taken behind samples in order keeps them in order.
pub proof fn lemma_sampled_ordered(history: StepHistoryView, now: u64)
    requires
        history.wf(),
    ensures
        window_ordered(sampled(history.samples, history.cur_step, now)),
        sampled(history.samples, history.cur_step, now).len() >= 2,
        sampled(history.samples, history.cur_step, now).last().1 == history.cur_step + 1,
{
    let window = sampled(history.samples, history.cur_step, now);
    let n = history.samples.len() as int;
    assert forall|i: int, j: int| 0 <= i <= j < window.len() implies window[i].0 <= window[j].0
        && window[i].1 <= window[j].1 by {
        if j < n {
            assert(window[i] == history.samples[i]);
            assert(window[j] == history.samples[j]);
        } else if i < n {
            assert(window[i] == history.samples[i]);
            assert(history.samples[i].0 <= history.samples[n - 1].0);
            assert(history.samples[i].1 <= history.samples[n - 1].1);
        }
    }
}

/// What dropping the old samples leaves: a part of the window up to its
/// newest sample, not empty, that spans no more than the history; each
/// sample that was dropped lies further back from the newest than the
/// history reaches, and each that was kept lies within it.
pub proof fn lemma_evict(window: Seq<(u64, usize)>)
    requires
        window.len() >= 1,
        window_ordered(window),
    ensures
        1 <= evict(window).len() <= window.len(),
        evict(window) == window.subrange(
            window.len() - evict(window).len(),
            window.len() as int,
        ),
        evict(window).last() == window.last(),
        window_ordered(evict(window)),
        evict(window).last().0 - evict(window).first().0 <= HISTORY_DURATION,
        forall|i: int|
            0 <= i < window.len() - evict(window).len() ==> window.last().0 - (#[trigger] window[i]).0
                > HISTORY_DURATION,
        forall|i: int|
            window.len() - evict(window).len() <= i < window.len() ==> window.last().0
                - (#[trigger] window[i]).0 <= HISTORY_DURATION,
    decreases window.len(),
{
    if window.len() > 1 && window.last().0 - window.first().0 > HISTORY_DURATION {
        let rest = window.drop_first();
        assert(window_ordered(rest)) by {
            assert forall|i: int, j: int| 0 <= i <= j < rest.len() implies rest[i].0 <= rest[j].0
                && rest[i].1 <= rest[j].1 by {
                assert(rest[i] == window[i + 1]);
                assert(rest[j] == window[j + 1]);
            }
        }
        lemma_evict(rest);
        let kept = evict(rest);
        assert(rest.last() == window.last());
        assert(kept =~= window.subrange(window.len() - kept.len(), window.len() as int));
        assert forall|i: int| 0 <= i < window.len() - kept.len() implies window.last().0 - (
        #[trigger] window[i]).0 > HISTORY_DURATION by {
            if i > 0 {
                assert(window[i] == rest[i - 1]);
            }
        }
        assert forall|i: int| window.len() - kept.len() <= i < window.len() implies window.last().0
            - (#[trigger] window[i]).0 <= HISTORY_DURATION by {
            assert(window[i] == rest[i - 1]);
        }
    } else {
        assert(window =~= window.subrange(0, window.len() as int));
        assert forall|i: int| 0 <= i < window.len() implies window.last().0 - (
        #[trigger] window[i]).0 <= HISTORY_DURATION by {
            assert(window[0].0 <= window[i].0);
        }
    }
}

/// No speed is ever told from a division by no time: where the newest
/// sample is no later than the oldest, the current speed is that of all steps
/// since the start, and the speed of any steps in no time is 0.
pub proof fn lemma_rate_without_time(window: Seq<(u64, usize)>, cur_step: nat)
    requires
        window.len() >= 1,
        window.last().0 <= window.first().0,
    ensures
        window_rate(window, cur_step) == rate_of(cur_step, window.last().0 as nat),
        rate_of(cur_step, 0) == 0,
{
}

/// The speed of `count` steps in `nanos` nanoseconds, in thousandths of a
/// step per second; 0 where no time has passed.
pub fn rate(count: usize, nanos: u64) -> (r: u128)
    ensures
        r == rate_of(count as nat, nanos as nat),
{
    if nanos == 0 {
        0
    } else {
        assert(count as u128 * MILLI_PER_NANO <= 0xffff_ffff_ffff_ffff * 1_000_000_000_000)
            by (nonlinear_arith)
            requires
                count <= 0xffff_ffff_ffff_ffff,
                MILLI_PER_NANO == 1_000_000_000_000,
        ;
        count as u128 * MILLI_PER_NANO / (nanos as u128)
    }
}

/// The time between the oldest and the newest sample of a window.
fn window_span(window: &VecDeque<(u64, usize)>) -> (span: u64)
    requires
        window@.len() >= 1,
        window_ordered(window@),
    ensures
        span == window@.last().0 - window@.first().0,
        span > HISTORY_DURATION ==> window@.len() > 1,
{
    let oldest: (u64, usize) = window[0];
    let newest: (u64, usize) = window[window.len() - 1];
    newest.0 - oldest.0
}

/// The current speed that a window tells, in thousandths of a step per
/// second.
fn window_speed(window: &VecDeque<(u64, usize)>, cur_step: usize) -> (r: u128)
    requires
        window@.len() >= 1,
        window_ordered(window@),
    ensures
        r == window_rate(window@, cur_step as nat),
{
    let (old_time, old_iter): (u64, usize) = window[0];
    let (cur_time, cur_iter): (u64, usize) = window[window.len() - 1];
    if cur_time > old_time {
        rate(cur_iter - old_iter, cur_time - old_time)
    } else {
        rate(cur_step, cur_time)
    }
}

/// The steps made so far and the samples of the last seconds.
#[derive(Debug)]
pub struct StepHistory {
    cur_step: usize,
    samples: VecDeque<(u64, usize)>,
}

/// What a [`StepHistory`] holds.
pub struct StepHistoryView {
    /// The steps made so far.
    pub cur_step: usize,
    /// The samples, oldest first: the time of a redraw and one more than the
    /// steps made by then.
    pub samples: Seq<(u64, usize)>,
}

impl StepHistoryView {
    /// The invariant of a history: it holds at least one sample; neither the
    /// times nor the counts of its samples go down; the samples span no more
    /// than the history reaches; no sample counts more than one step beyond
    /// those made; and one more step can be counted.
    pub open spec fn wf(self) -> bool {
        &&& self.samples.len() >= 1
        &&& window_ordered(self.samples)
        &&& self.samples.last().0 - self.samples.first().0 <= HISTORY_DURATION
        &&& self.samples.last().1 <= self.cur_step + 1
        &&& self.cur_step < usize::MAX
    }
}

impl View for StepHistory {
    type V = StepHistoryView;

    closed spec fn view(&self) -> StepHistoryView {
        StepHistoryView { cur_step: self.cur_step, samples: self.samples@ }
    }
}

impl Clone for StepHistory {
    fn clone(&self) -> (history: Self)
        ensures
            history@ == self@,
    {
        proof {
            use_type_invariant(self);
        }
        let mut samples: VecDeque<(u64, usize)> = VecDeque::new();
        let mut i: usize = 0;
        while i < self.samples.len()
            invariant
                i <= self.samples@.len(),
                samples@ == self.samples@.subrange(0, i as int),
            decreases self.samples@.len() - i,
        {
            samples.push_back(self.samples[i]);
            i = i + 1;
            assert(samples@ =~= self.samples@.subrange(0, i as int));
        }
        assert(samples@ =~= self.samples@);
        Self { cur_step: self.cur_step, samples }
    }
}

impl StepHistory {
    /// Holds of every history.
    #[verifier::type_invariant]
    pub open spec fn inv(&self) -> bool {
        self@.wf()
    }

    /// A history with no steps made and one sample at the start.
    pub fn new() -> (history: Self)
        ensures
            history@ == (StepHistoryView { cur_step: 0, samples: seq![(0u64, 0usize)] }),
    {
        let mut samples: VecDeque<(u64, usize)> = VecDeque::new();
        samples.push_back((0, 0));
        assert(samples@ =~= seq![(0u64, 0usize)]);
        Self { cur_step: 0, samples }
    }

    /// The steps made so far.
    pub fn cur_step(&self) -> (cur_step: usize)
        ensures
            cur_step == self@.cur_step,
            cur_step < usize::MAX,
            self@.wf(),
    {
        proof {
            use_type_invariant(self);
        }
        self.cur_step
    }

    /// The samples held, oldest first.
    pub fn samples(&self) -> (samples: Vec<(u64, usize)>)
        ensures
            samples@ == self@.samples,
            self@.wf(),
    {
        proof {
            use_type_invariant(self);
        }
        let mut samples: Vec<(u64, usize)> = Vec::new();
        let mut i: usize = 0;
        while i < self.samples.len()
            invariant
                i <= self.samples@.len(),
                samples@ == self.samples@.subrange(0, i as int),
            decreases self.samples@.len() - i,
        {
            samples.push(self.samples[i]);
            i = i + 1;
            assert(samples@ =~= self.samples@.subrange(0, i as int));
        }
        assert(samples@ =~= self.samples@);
        samples
    }

    /// Counts `count` more steps.
    pub fn advance(&mut self, count: usize)
        requires
            old(self)@.cur_step + count < usize::MAX,
        ensures
            final(self)@ == (StepHistoryView {
                cur_step: (old(self)@.cur_step + count) as usize,
                ..old(self)@
            }),
    {
        proof {
            use_type_invariant(&*self);
        }
        self.cur_step = self.cur_step + count;
    }

    /// The current speed, in thousandths of a step per second: that between
    /// the oldest and the newest sample.
    pub fn speed(&self) -> (r: u128)
        ensures
            r == window_rate(self@.samples, self@.cur_step as nat),
    {
        proof {
            use_type_invariant(self);
        }
        window_speed(&self.samples, self.cur_step)
    }

    /// Takes a sample at `now` and drops the samples that lie too far back
    /// from it.  Hands back the time of the sample and the current speed with
    /// the new sample counted in, before any was dropped.
    pub fn record(&mut self, now: u64) -> (r: (u64, u128))
        ensures
            r.0 == sample_time(old(self)@.samples, now),
            r.1 == window_rate(
                sampled(old(self)@.samples, old(self)@.cur_step, now),
                old(self)@.cur_step as nat,
            ),
            final(self)@ == (StepHistoryView {
                samples: evict(sampled(old(self)@.samples, old(self)@.cur_step, now)),
                ..old(self)@
            }),
    {
        proof {
            use_type_invariant(&*self);
        }
        let newest: (u64, usize) = self.samples[self.samples.len() - 1];
        let time: u64 = if now >= newest.0 {
            now
        } else {
            newest.0
        };
        let sample: (u64, usize) = (time, self.cur_step + 1);

        // The window is worked on apart from the history, which holds the
        // new sample alone meanwhile.
        let mut window: VecDeque<(u64, usize)> = VecDeque::new();
        window.push_back(sample);
        core::mem::swap(&mut self.samples, &mut window);
        window.push_back(sample);
        let ghost full = window@;
        proof {
            assert(full == sampled(old(self)@.samples, old(self)@.cur_step, now));
            lemma_sampled_ordered(old(self)@, now);
        }
        let speed: u128 = window_speed(&window, self.cur_step);

        // Trim the history to a window of about ten seconds.
        while window_span(&window) > HISTORY_DURATION
            invariant
                window@.len() >= 1,
                window_ordered(window@),
                evict(window@) == evict(full),
            decreases window@.len(),
        {
            let ghost before = window@;
            window.pop_front();
            assert(window@ == before.drop_first());
            assert(window_ordered(window@)) by {
                assert forall|i: int, j: int| 0 <= i <= j < window@.len() implies window@[i].0
                    <= window@[j].0 && window@[i].1 <= window@[j].1 by {
                    assert(window@[i] == before[i + 1]);
                    assert(window@[j] == before[j + 1]);
                }
            }
        }
        proof {
            lemma_evict(full);
        }
        self.samples = window;
        (time, speed)
    }
}

} // verus!
