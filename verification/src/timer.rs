//! Timers that count nanoseconds up to a period.
//!
//! A [`Timer`] holds plain numbers. The counting itself is left to the
//! engine's timer, through [`advance`].

use vstd::prelude::*;
use bevy::time::TimerMode;
use std::time::Duration;

verus! {

/// Whether a timer stops at its period or starts over.
#[derive(Clone, Copy, Debug, PartialEq, Eq)]
pub enum Mode {
    Once,
    Repeating,
}

/// A timer, times in nanoseconds.
#[derive(Clone, Copy, Debug, PartialEq, Eq)]
pub struct Timer {
    /// Time counted so far.
    pub elapsed: u64,
    /// The time after which the timer completes.
    pub period: u64,
    pub mode: Mode,
    /// Whether the last tick reached the period. A timer that runs once
    /// stays finished.
    pub finished: bool,
    /// How often the last tick completed the period.
    pub completions: u32,
}

/// What a tick of `delta` makes of a running timer: the time counted, whether
/// the period was reached, and how often it was completed. A timer that runs
/// once stops at its period. One that repeats keeps the remainder and counts
/// the periods, modulo 2^32; with a period of zero it stays at zero and
/// counts as many as the counter holds.
pub open spec fn advanced(elapsed: u64, period: u64, mode: Mode, delta: u64) -> (u64, bool, u32) {
    let total = elapsed + delta;
    if total < period {
        (total as u64, false, 0u32)
    } else if mode == Mode::Once {
        (period, true, 1u32)
    } else if period == 0 {
        (0u64, true, 0xFFFF_FFFFu32)
    } else {
        ((total % (period as int)) as u64, true, ((total / (period as int)) % 0x1_0000_0000) as u32)
    }
}

/// One call of `bevy::time::Timer::tick`. A timer of the given period and
/// mode is made by `Timer::new`, set to `elapsed` by `Timer::set_elapsed` and
/// ticked by `delta`; what `Timer::elapsed`, `Timer::finished` and
/// `Timer::times_finished_this_tick` then give comes back. The contract says
/// of it what [`advanced`] says, and is taken on trust.
#[verifier::external_body]
fn advance(elapsed: u64, period: u64, mode: Mode, delta: u64) -> (r: (u64, bool, u32))
    ensures
        r == advanced(elapsed, period, mode, delta),
{
    let mode = match mode {
        Mode::Once => TimerMode::Once,
        Mode::Repeating => TimerMode::Repeating,
    };
    let mut timer = bevy::time::Timer::new(Duration::from_nanos(period), mode);
    timer.set_elapsed(Duration::from_nanos(elapsed));
    timer.tick(Duration::from_nanos(delta));
    (timer.elapsed().as_nanos() as u64, timer.finished(), timer.times_finished_this_tick())
}

impl Timer {
    /// A timer at zero.
    pub open spec fn fresh(period: u64, mode: Mode) -> Timer {
        Timer { elapsed: 0, period, mode, finished: false, completions: 0 }
    }

    /// The timer after a tick of `delta`. A finished timer that runs once
    /// stays as it is, and completes nothing more.
    pub open spec fn ticked(self, delta: u64) -> Timer {
        if self.mode == Mode::Once && self.finished {
            Timer { completions: 0, ..self }
        } else {
            let a = advanced(self.elapsed, self.period, self.mode, delta);
            Timer { elapsed: a.0, finished: a.1, completions: a.2, ..self }
        }
    }

    pub fn new(period: u64, mode: Mode) -> (t: Timer)
        ensures
            t == Timer::fresh(period, mode),
    {
        Timer { elapsed: 0, period, mode, finished: false, completions: 0 }
    }

    /// Counts `delta` nanoseconds more.
    pub fn tick(&mut self, delta: u64)
        ensures
            *final(self) == old(self).ticked(delta),
    {
        let once = match self.mode {
            Mode::Once => true,
            Mode::Repeating => false,
        };
        if once && self.finished {
            self.completions = 0;
        } else {
            let a = advance(self.elapsed, self.period, self.mode, delta);
            self.elapsed = a.0;
            self.finished = a.1;
            self.completions = a.2;
        }
    }

    /// Whether the last tick reached the period.
    pub fn finished(&self) -> (b: bool)
        ensures
            b == self.finished,
    {
        self.finished
    }

    /// Whether the last tick completed the period.
    pub fn just_finished(&self) -> (b: bool)
        ensures
            b == (self.completions > 0),
    {
        self.completions > 0
    }
}

/// The timer after the first `n` of the ticks, one after the other.
pub open spec fn ticked_through(t: Timer, deltas: Seq<u64>, n: int) -> Timer
    decreases n,
{
    if n <= 0 {
        t
    } else {
        ticked_through(t, deltas, n - 1).ticked(deltas[n - 1])
    }
}

/// The time that the first `n` ticks add up to.
pub open spec fn total(deltas: Seq<u64>, n: int) -> int
    decreases n,
{
    if n <= 0 {
        0
    } else {
        total(deltas, n - 1) + deltas[n - 1]
    }
}

/// A repeating timer at zero, ticked by frames that each take some time and
/// add up to exactly its period, completes on the last of them, once, and
/// on none before; it is then back at zero.
pub proof fn lemma_period_completes(t: Timer, deltas: Seq<u64>, n: int)
    requires
        t.mode == Mode::Repeating,
        t.elapsed == 0,
        0 < t.period,
        0 <= n <= deltas.len(),
        forall|i: int| 0 <= i < deltas.len() ==> deltas[i] > 0,
        total(deltas, deltas.len() as int) == t.period,
    ensures
        0 < n < deltas.len() ==> ticked_through(t, deltas, n).completions == 0,
        n < deltas.len() ==> ticked_through(t, deltas, n).elapsed == total(deltas, n),
        n == deltas.len() && n > 0 ==> ticked_through(t, deltas, n).completions == 1
            && ticked_through(t, deltas, n).elapsed == 0,
        ticked_through(t, deltas, n).mode == Mode::Repeating,
        ticked_through(t, deltas, n).period == t.period,
    decreases n,
{
    if n > 0 {
        lemma_period_completes(t, deltas, n - 1);
        lemma_total_grows(deltas, n, deltas.len() as int);
        let p = t.period as int;
        if n == deltas.len() {
            assert(p % p == 0 && p / p == 1) by (nonlinear_arith)
                requires
                    p > 0,
            ;
        }
    }
}

/// More ticks of some time each add up to more time.
pub proof fn lemma_total_grows(deltas: Seq<u64>, m: int, n: int)
    requires
        0 <= m <= n <= deltas.len(),
        forall|i: int| 0 <= i < deltas.len() ==> deltas[i] > 0,
    ensures
        total(deltas, m) <= total(deltas, n),
        m < n ==> total(deltas, m) < total(deltas, n),
        0 <= total(deltas, m),
    decreases n - m,
{
    if m < n {
        lemma_total_grows(deltas, m, n - 1);
    } else {
        lemma_total_nonnegative(deltas, m);
    }
}

pub proof fn lemma_total_nonnegative(deltas: Seq<u64>, n: int)
    requires
        0 <= n <= deltas.len(),
    ensures
        0 <= total(deltas, n),
    decreases n,
{
    if n > 0 {
        lemma_total_nonnegative(deltas, n - 1);
    }
}

} // verus!
