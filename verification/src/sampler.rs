//! The schedule of the sampling loop.
//!
//! The loop wakes at short intervals. At each wake it hands the sampler the
//! present instant, in milliseconds on a clock that never runs backwards, and
//! the supervisor; the sampler answers whether to stop, to go back to sleep, or
//! to ask for the memory of the child.

use crate::error::RunError;
use crate::supervisor::{Event, State, Supervisor};
use vstd::prelude::*;

verus! {

/// How long the sampling loop sleeps between two wakes, in milliseconds. It
/// is short, so that an interrupt ends the sampling within a moment, however
/// long the sampling interval is.
pub const WAKE_MILLIS: u64 = 100;

/// The sampling interval where the operator names none, in seconds.
pub const DEFAULT_INTERVAL: u64 = 60;

/// The answer to one wake of the sampling loop.
#[derive(Clone, Copy, Debug, PartialEq, Eq, Structural)]
pub enum Tick {
    /// The stop signal has fired: leave the loop, taking no further sample.
    Stop,
    /// No sample is due yet.
    Idle,
    /// A sample was due, but no process identifier is published yet.
    Skip,
    /// A sample is due: ask for the memory of this process.
    Probe(u32),
}

/// When the next sample is due.
#[derive(Clone, Copy, Debug, PartialEq, Eq, Structural)]
pub struct Sampler {
    /// The sampling interval, in seconds.
    pub interval: u64,
    /// The instant, in milliseconds, after which the next sample is due.
    pub next_due: u64,
}

impl Sampler {
    /// The sampling interval in milliseconds.
    pub open spec fn interval_ms(self) -> int {
        self.interval * 1000
    }

    /// A sample is due once the clock has passed `next_due`.
    pub open spec fn is_due(self, now: u64) -> bool {
        now > self.next_due
    }

    /// The instant one interval after `now` can be represented.
    pub open spec fn fits(self, now: u64) -> bool {
        now + self.interval_ms() <= u64::MAX
    }

    /// A sample is taken at `now`: one is due and the next can be scheduled.
    pub open spec fn samples_at(self, now: u64) -> bool {
        self.is_due(now) && self.fits(now)
    }

    /// The schedule after a sample taken at `now`.
    pub open spec fn rescheduled(self, now: u64) -> Sampler {
        Sampler { interval: self.interval, next_due: (now + self.interval_ms()) as u64 }
    }

    /// The schedule after a wake at `now` and the answer to it, with the
    /// supervisor in state `sup`.
    pub open spec fn tick(self, now: u64, sup: State) -> (Sampler, Result<Tick, RunError>) {
        if sup.stop {
            (self, Ok(Tick::Stop))
        } else if !self.is_due(now) {
            (self, Ok(Tick::Idle))
        } else if !self.fits(now) {
            (self, Err(RunError::Schedule))
        } else {
            (
                self.rescheduled(now),
                Ok(
                    match sup.pid {
                        Some(pid) => Tick::Probe(pid),
                        None => Tick::Skip,
                    },
                ),
            )
        }
    }

    /// The schedule after wakes at the instants `nows`, in order, while the
    /// stop signal has not fired.
    pub open spec fn after_wakes(self, nows: Seq<u64>) -> Sampler
        decreases nows.len(),
    {
        if nows.len() == 0 {
            self
        } else {
            let before = self.after_wakes(nows.drop_last());
            if before.samples_at(nows.last()) {
                before.rescheduled(nows.last())
            } else {
                before
            }
        }
    }

    /// Whether the wake at index `i` of `nows` takes a sample.
    pub open spec fn sampled(self, nows: Seq<u64>, i: int) -> bool
        recommends
            0 <= i < nows.len(),
    {
        self.after_wakes(nows.take(i)).samples_at(nows[i])
    }

    /// How many of the wakes at `nows` take a sample.
    pub open spec fn samples(self, nows: Seq<u64>) -> nat
        decreases nows.len(),
    {
        if nows.len() == 0 {
            0
        } else {
            let before = self.samples(nows.drop_last());
            if self.after_wakes(nows.drop_last()).samples_at(nows.last()) {
                before + 1
            } else {
                before
            }
        }
    }

    /// A sampler that was started at the instant `start`, in milliseconds, and
    /// samples every `interval` seconds.
    pub fn new(start: u64, interval: u64) -> (sampler: Sampler)
        ensures
            sampler == (Sampler { interval, next_due: start }),
    {
        Sampler { interval, next_due: start }
    }

    /// Answers one wake of the sampling loop at the instant `now`.
    ///
    /// On `Probe` and on `Skip` the next sample is scheduled one interval after
    /// `now`. The run fails, with the schedule unchanged, where that instant
    /// cannot be represented.
    pub fn on_tick(&mut self, now: u64, sup: &Supervisor) -> (answer: Result<Tick, RunError>)
        ensures
            (*final(self), answer) == old(self).tick(now, sup@),
    {
        if sup.stop_requested() {
            return Ok(Tick::Stop);
        }
        if now <= self.next_due {
            return Ok(Tick::Idle);
        }
        let step: u64 = match self.interval.checked_mul(1000) {
            Some(ms) => ms,
            None => {
                return Err(RunError::Schedule);
            },
        };
        let next: u64 = match now.checked_add(step) {
            Some(next) => next,
            None => {
                return Err(RunError::Schedule);
            },
        };
        self.next_due = next;
        match sup.pid() {
            Some(pid) => Ok(Tick::Probe(pid)),
            None => Ok(Tick::Skip),
        }
    }
}

/// After the stop signal has fired no wake takes a sample, whatever is
/// reported to the supervisor afterwards: the sampler answers `Stop` and its
/// schedule stays as it is.
pub proof fn no_sample_after_stop(s: Sampler, now: u64, sup: State, later: Seq<Event>)
    requires
        sup.stop,
    ensures
        s.tick(now, sup.run(later)) == (s, Ok::<Tick, RunError>(Tick::Stop)),
{
    crate::supervisor::stop_is_permanent(sup, later);
}

/// An interrupt ends the sampling: every wake after it is answered with
/// `Stop`.
pub proof fn no_sample_after_interrupt(s: Sampler, now: u64, sup: State, later: Seq<Event>)
    ensures
        s.tick(now, sup.after(Event::Interrupt).run(later)) == (
            s,
            Ok::<Tick, RunError>(Tick::Stop),
        ),
{
    no_sample_after_stop(s, now, sup.after(Event::Interrupt), later);
}

/// A spawn that fails ends the sampling: from then on every wake is answered
/// with `Stop`.
pub proof fn no_sample_after_failed_spawn(s: Sampler, now: u64, later: Seq<Event>)
    ensures
        s.tick(now, State::initial().after(Event::SpawnFailed).run(later)) == (
            s,
            Ok::<Tick, RunError>(Tick::Stop),
        ),
{
    no_sample_after_stop(s, now, State::initial().after(Event::SpawnFailed), later);
}

/// While no spawn has been reported no wake asks for a probe, so no record
/// is written for a command that was never started.
pub proof fn no_probe_without_spawn(s: Sampler, now: u64, events: Seq<Event>)
    requires
        forall|i: int| 0 <= i < events.len() ==> !(#[trigger] events[i] is Spawned),
    ensures
        !(s.tick(now, State::initial().run(events)).1 matches Ok(Tick::Probe(_))),
{
    crate::supervisor::no_spawn_no_pid(events);
}

/// A probe is asked only for the identifier that the supervisor has
/// published, and only while the stop signal has not fired.
pub proof fn probe_names_published_pid(s: Sampler, now: u64, sup: State, pid: u32)
    requires
        s.tick(now, sup).1 == Ok::<Tick, RunError>(Tick::Probe(pid)),
    ensures
        sup.pid == Some(pid),
        !sup.stop,
        s.samples_at(now),
{
}

/// While the stop signal has not fired, `after_wakes` is the schedule that
/// `tick` keeps: a wake takes a sample exactly when one is due and the next
/// can be scheduled.
pub proof fn wake_follows_schedule(s: Sampler, nows: Seq<u64>, now: u64, sup: State)
    requires
        !sup.stop,
    ensures
        s.after_wakes(nows).tick(now, sup).0 == s.after_wakes(nows.push(now)),
        s.after_wakes(nows).samples_at(now) <==> ({
            let answer = s.after_wakes(nows).tick(now, sup).1;
            answer matches Ok(t) && (t is Probe || t is Skip)
        }),
{
    assert(nows.push(now).drop_last() == nows);
}

/// The schedule keeps its interval, and the instant after which the next
/// sample is due never moves back.
pub proof fn schedule_moves_forward(s: Sampler, nows: Seq<u64>, k: int)
    requires
        0 <= k <= nows.len(),
    ensures
        s.after_wakes(nows).interval == s.interval,
        s.after_wakes(nows.take(k)).next_due <= s.after_wakes(nows).next_due,
    decreases nows.len(),
{
    if k == nows.len() {
        assert(nows.take(k) == nows);
        if nows.len() > 0 {
            schedule_moves_forward(s, nows.drop_last(), 0);
        }
    } else {
        assert(nows.drop_last().take(k) == nows.take(k));
        schedule_moves_forward(s, nows.drop_last(), k);
    }
}

/// Samples come in the order of the clock and more than one interval apart:
/// of two wakes that take a sample, the later one is later by more than the
/// interval.
pub proof fn samples_are_spaced(s: Sampler, nows: Seq<u64>, i: int, j: int)
    requires
        0 <= i < j < nows.len(),
        s.sampled(nows, i),
        s.sampled(nows, j),
    ensures
        nows[j] > nows[i] + s.interval_ms(),
{
    let upto_j = nows.take(j);
    assert(upto_j.take(i + 1) == nows.take(i + 1));
    assert(nows.take(i + 1).drop_last() == nows.take(i));
    schedule_moves_forward(s, nows.take(i), 0);
    schedule_moves_forward(s, upto_j, i + 1);
}

/// The sampling keeps pace with the clock. Where the first wake comes no
/// later than `wake` milliseconds after the first sample is due, each wake
/// no later than `wake` milliseconds after the one before, and the stop signal
/// does not fire, the samples taken up to the last wake, each counted as one
/// interval and one `wake`, cover the time from the start to that wake.
pub proof fn samples_keep_pace(s: Sampler, nows: Seq<u64>, wake: int)
    requires
        nows.len() > 0,
        wake >= 0,
        nows[0] <= s.next_due + wake,
        forall|i: int|
            0 <= i < nows.len() - 1 ==> nows[i] <= #[trigger] nows[i + 1] <= nows[i] + wake,
        forall|i: int| 0 <= i < nows.len() ==> s.fits(#[trigger] nows[i]),
    ensures
        nows.last() <= s.after_wakes(nows).next_due,
        s.after_wakes(nows).next_due <= s.next_due + s.samples(nows) * (s.interval_ms() + wake),
        nows.last() - s.next_due <= s.samples(nows) * (s.interval_ms() + wake),
    decreases nows.len(),
{
    let earlier = nows.drop_last();
    let before = s.after_wakes(earlier);
    let count = s.samples(earlier);
    let span = s.interval_ms() + wake;
    schedule_moves_forward(s, earlier, 0);
    if earlier.len() > 0 {
        assert(earlier[0] == nows[0]);
        assert forall|i: int| 0 <= i < earlier.len() - 1 implies
            earlier[i] <= #[trigger] earlier[i + 1] <= earlier[i] + wake by {
            assert(earlier[i] == nows[i] && earlier[i + 1] == nows[i + 1]);
        }
        assert forall|i: int| 0 <= i < earlier.len() implies s.fits(#[trigger] earlier[i]) by {
            assert(earlier[i] == nows[i]);
        }
        samples_keep_pace(s, earlier, wake);
        assert(earlier.last() == nows[nows.len() - 2]);
        assert(nows[nows.len() - 2] <= nows[nows.len() - 2 + 1] <= nows[nows.len() - 2] + wake);
    }
    assert(nows.last() <= before.next_due + wake);
    assert(s.fits(nows[nows.len() - 1]));
    assert((count + 1) * span == count * span + span) by (nonlinear_arith);
    assert(0 * span == 0) by (nonlinear_arith);
}

/// A run of `n` whole intervals takes at least `n - 1` samples. The run
/// starts when the first sample is due and ends no later than `wake`
/// milliseconds after its last wake; the wakes are as in `samples_keep_pace`.
/// Each sample may come up to `wake` milliseconds late and the next is
/// scheduled from when it came, so the count holds as long as that lateness
/// has not added up to two intervals: `(n - 1) * wake < 2 * interval`.
pub proof fn samples_of_a_run(s: Sampler, nows: Seq<u64>, wake: int, n: int)
    requires
        nows.len() > 0,
        wake >= 0,
        nows[0] <= s.next_due + wake,
        forall|i: int|
            0 <= i < nows.len() - 1 ==> nows[i] <= #[trigger] nows[i + 1] <= nows[i] + wake,
        forall|i: int| 0 <= i < nows.len() ==> s.fits(#[trigger] nows[i]),
        n >= 1,
        n * s.interval_ms() <= nows.last() + wake - s.next_due,
        (n - 1) * wake < 2 * s.interval_ms(),
    ensures
        s.samples(nows) >= n - 1,
{
    samples_keep_pace(s, nows, wake);
    let count = s.samples(nows) as int;
    let interval = s.interval_ms();
    if count <= n - 2 {
        assert(count * (interval + wake) <= (n - 2) * (interval + wake)) by (nonlinear_arith)
            requires
                count <= n - 2,
                interval + wake >= 0,
        ;
        assert((n - 2) * (interval + wake) == n * interval - 2 * interval + (n - 1) * wake - wake)
            by (nonlinear_arith);
    }
}

} // verus!
