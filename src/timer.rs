use vstd::prelude::*;

verus! {

/// Whether a timer stops when it finishes or starts over.
#[derive(Clone, Copy, Debug, PartialEq, Eq, Structural)]
pub enum TimerMode {
    Once,
    Repeating,
}

/// A countdown over nanoseconds.
///
/// A `Once` timer that has finished stays finished, with its elapsed time
/// held at the duration, until it is reset. A `Repeating` timer wraps its
/// elapsed time modulo the duration and reports `finished` on the ticks
/// that crossed the end.
#[derive(Clone, Copy, Debug, PartialEq, Eq, Structural)]
pub struct Timer {
    pub duration_ns: u64,
    pub elapsed_ns: u64,
    pub mode: TimerMode,
    pub done: bool,
}

impl Timer {
    pub open spec fn wf(self) -> bool {
        match self.mode {
            TimerMode::Once => self.elapsed_ns <= self.duration_ns && (self.done
                ==> self.elapsed_ns == self.duration_ns),
            TimerMode::Repeating => self.elapsed_ns < self.duration_ns || self.elapsed_ns == 0,
        }
    }

    /// The timer after `delta_ns` more nanoseconds have passed.
    pub open spec fn ticked(self, delta_ns: u64) -> Timer {
        if self.mode == TimerMode::Once && self.done {
            self
        } else {
            let total = self.elapsed_ns + delta_ns;
            let elapsed = if total > u64::MAX {
                u64::MAX as int
            } else {
                total
            };
            if elapsed >= self.duration_ns {
                Timer {
                    elapsed_ns: match self.mode {
                        TimerMode::Once => self.duration_ns,
                        TimerMode::Repeating => if self.duration_ns == 0 {
                            0
                        } else {
                            (elapsed % (self.duration_ns as int)) as u64
                        },
                    },
                    done: true,
                    ..self
                }
            } else {
                Timer { elapsed_ns: elapsed as u64, done: false, ..self }
            }
        }
    }

    /// The timer started over: nothing elapsed, not finished.
    pub open spec fn restarted(self) -> Timer {
        Timer { elapsed_ns: 0, done: false, ..self }
    }

    /// A timer of `duration_ns` nanoseconds that has not started.
    pub open spec fn new_spec(duration_ns: u64, mode: TimerMode) -> Timer {
        Timer { duration_ns, elapsed_ns: 0, mode, done: false }
    }

    /// A timer of `duration_ns` nanoseconds that has not started.
    pub fn new(duration_ns: u64, mode: TimerMode) -> (r: Timer)
        ensures
            r == Timer::new_spec(duration_ns, mode),
            r.wf(),
    {
        Timer { duration_ns, elapsed_ns: 0, mode, done: false }
    }

    /// Advances the timer by `delta_ns` nanoseconds.
    pub fn tick(&mut self, delta_ns: u64)
        requires
            old(self).wf(),
        ensures
            *final(self) == old(self).ticked(delta_ns),
            final(self).wf(),
    {
        if self.mode == TimerMode::Once && self.done {
            return;
        }
        let elapsed: u64 = self.elapsed_ns.saturating_add(delta_ns);
        if elapsed >= self.duration_ns {
            match self.mode {
                TimerMode::Once => {
                    self.elapsed_ns = self.duration_ns;
                },
                TimerMode::Repeating => {
                    if self.duration_ns == 0 {
                        self.elapsed_ns = 0;
                    } else {
                        self.elapsed_ns = elapsed % self.duration_ns;
                    }
                },
            }
            self.done = true;
        } else {
            self.elapsed_ns = elapsed;
            self.done = false;
        }
    }

    /// Whether the timer reached its duration on its last tick (and, for a
    /// `Once` timer, any tick since it was last reset).
    pub fn finished(&self) -> (r: bool)
        ensures
            r == self.done,
    {
        self.done
    }

    /// Starts the timer over.
    pub fn reset(&mut self)
        requires
            old(self).wf(),
        ensures
            *final(self) == old(self).restarted(),
            final(self).wf(),
            !final(self).done,
    {
        self.elapsed_ns = 0;
        self.done = false;
    }
}

/// Resetting a finished `Once` timer makes it unfinished at once: a query
/// right after the reset reports false.
pub proof fn lemma_reset_clears_finished(t: Timer)
    requires
        t.wf(),
        t.mode == TimerMode::Once,
        t.done,
    ensures
        !t.restarted().done,
        t.restarted().wf(),
        t.restarted().elapsed_ns == 0,
{
}

/// A finished `Once` timer stays finished however long it is ticked.
pub proof fn lemma_once_stays_finished(t: Timer, delta_ns: u64)
    requires
        t.wf(),
        t.mode == TimerMode::Once,
        t.done,
    ensures
        t.ticked(delta_ns) == t,
{
}

/// A `Once` timer that has not reached its duration is not finished.
pub proof fn lemma_once_finished_iff_reached(t: Timer, delta_ns: u64)
    requires
        t.wf(),
        t.mode == TimerMode::Once,
        !t.done,
    ensures
        t.ticked(delta_ns).done <==> t.elapsed_ns + delta_ns >= t.duration_ns,
{
}

} // verus!
