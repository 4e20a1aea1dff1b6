use vstd::prelude::*;
use vstd::arithmetic::div_mod::{lemma_fundamental_div_mod, lemma_fundamental_div_mod_converse};

verus! {

/// Whether a timer stops once it completes or starts over.
#[derive(Clone, Copy, Debug, PartialEq, Eq, Structural)]
pub enum TimerMode {
    Once,
    Repeating,
}

/// A cooldown timer counted in ticks.
///
/// `just_finished` is an edge: it holds only after the tick on which the
/// timer reached its duration.
#[derive(Clone, Copy, Debug, PartialEq, Eq, Structural)]
pub struct Timer {
    pub duration: u32,
    pub elapsed: u32,
    pub mode: TimerMode,
    pub just_finished: bool,
}

impl Timer {
    /// A timer has a positive duration and never counts past it; a
    /// repeating timer stays strictly below it.
    pub open spec fn wf(self) -> bool {
        &&& self.duration > 0
        &&& self.elapsed <= self.duration
        &&& self.mode == TimerMode::Repeating ==> self.elapsed < self.duration
    }

    /// A one-shot timer is finished while it stands at its duration; a
    /// repeating one on the tick it wrapped.
    pub open spec fn is_finished(self) -> bool {
        match self.mode {
            TimerMode::Once => self.elapsed >= self.duration,
            TimerMode::Repeating => self.just_finished,
        }
    }

    /// The timer after `delta` more ticks.
    pub open spec fn ticked(self, delta: nat) -> Timer {
        let total = self.elapsed + delta;
        match self.mode {
            TimerMode::Once => if self.elapsed >= self.duration {
                Timer { just_finished: false, ..self }
            } else if total >= self.duration {
                Timer { elapsed: self.duration, just_finished: true, ..self }
            } else {
                Timer { elapsed: total as u32, just_finished: false, ..self }
            },
            TimerMode::Repeating => if total >= self.duration {
                Timer { elapsed: (total % (self.duration as int)) as u32, just_finished: true, ..self }
            } else {
                Timer { elapsed: total as u32, just_finished: false, ..self }
            },
        }
    }

    /// The timer started over from zero.
    pub open spec fn restarted(self) -> Timer {
        Timer { elapsed: 0, just_finished: false, ..self }
    }

    pub fn new(duration: u32, mode: TimerMode) -> (r: Timer)
        requires
            duration > 0,
        ensures
            r.wf(),
            r == (Timer { duration, elapsed: 0, mode, just_finished: false }),
    {
        Timer { duration, elapsed: 0, mode, just_finished: false }
    }

    pub fn finished(&self) -> (r: bool)
        ensures
            r == self.is_finished(),
    {
        match self.mode {
            TimerMode::Once => self.elapsed >= self.duration,
            TimerMode::Repeating => self.just_finished,
        }
    }

    /// Advances the timer by `delta` ticks.
    pub fn tick(&mut self, delta: u32)
        requires
            old(self).wf(),
        ensures
            *final(self) == old(self).ticked(delta as nat),
            final(self).wf(),
    {
        let total: u64 = self.elapsed as u64 + delta as u64;
        match self.mode {
            TimerMode::Once => {
                if self.elapsed >= self.duration {
                    self.just_finished = false;
                } else if total >= self.duration as u64 {
                    self.elapsed = self.duration;
                    self.just_finished = true;
                } else {
                    self.elapsed = total as u32;
                    self.just_finished = false;
                }
            },
            TimerMode::Repeating => {
                if total >= self.duration as u64 {
                    self.elapsed = (total % self.duration as u64) as u32;
                    self.just_finished = true;
                } else {
                    self.elapsed = total as u32;
                    self.just_finished = false;
                }
            },
        }
    }

    /// Starts the timer over from zero.
    pub fn reset(&mut self)
        ensures
            *final(self) == old(self).restarted(),
    {
        self.elapsed = 0;
        self.just_finished = false;
    }
}

/// One tick of a cooldown that starts over whenever it completes: the timer
/// after the tick, and whether it completed on it.
pub open spec fn cycle_step(t: Timer) -> (Timer, bool) {
    let u = t.ticked(1);
    if u.is_finished() {
        (u.restarted(), true)
    } else {
        (u, false)
    }
}

/// `n` ticks of `cycle_step`: the timer after them, and how many of them
/// completed it.
pub open spec fn cycle(t: Timer, n: nat) -> (Timer, nat)
    decreases n,
{
    if n == 0 {
        (t, 0)
    } else {
        let prev = cycle(t, (n - 1) as nat);
        let s = cycle_step(prev.0);
        (s.0, prev.1 + if s.1 {
            1nat
        } else {
            0nat
        })
    }
}

/// A one-shot timer of duration `d` that starts from zero and is started
/// over each time it completes has completed `n / d` times after `n` ticks,
/// and stands at `n % d`.
pub proof fn lemma_cycle_counts(t: Timer, n: nat)
    requires
        t.wf(),
        t.mode == TimerMode::Once,
        t.elapsed == 0,
        !t.just_finished,
    ensures
        cycle(t, n).1 == n / (t.duration as nat),
        cycle(t, n).0 == (Timer { elapsed: (n % (t.duration as nat)) as u32, ..t }),
    decreases n,
{
    let d = t.duration as int;
    if n == 0 {
        lemma_fundamental_div_mod_converse(0, d, 0, 0);
    } else {
        let m = (n - 1) as nat;
        lemma_cycle_counts(t, m);
        lemma_fundamental_div_mod(m as int, d);
        let q = m as int / d;
        let r = m as int % d;
        if r + 1 < d {
            lemma_fundamental_div_mod_converse(n as int, d, q, r + 1);
        } else {
            assert(n == (q + 1) * d) by (nonlinear_arith)
                requires
                    m == q * d + r,
                    r + 1 == d,
                    n == m + 1,
            ;
            lemma_fundamental_div_mod_converse(n as int, d, q + 1, 0);
        }
    }
}

} // verus!
