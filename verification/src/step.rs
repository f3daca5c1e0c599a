//! The logical clock of the simulation: a step counter advanced in fixed
//! increments, with the current time always derived from the invariant
//! `cur_time == start_time + cur_step * step_width`.

use vstd::prelude::*;

verus! {

/// Mathematical model of the clock state.
pub struct StepModel {
    pub start_time: int,
    pub step_width: int,
    pub cur_step: int,
    pub cur_time: int,
}

impl StepModel {
    /// The clock invariant: the current time is derived from the step counter.
    pub open spec fn wf(self) -> bool {
        self.cur_time == self.start_time + self.cur_step * self.step_width
    }

    /// The model after one tick.
    pub open spec fn advanced(self) -> StepModel {
        StepModel {
            cur_step: self.cur_step + 1,
            cur_time: self.start_time + (self.cur_step + 1) * self.step_width,
            ..self
        }
    }

    /// The model after `n` ticks.
    pub open spec fn advanced_by(self, n: nat) -> StepModel
        decreases n,
    {
        if n == 0 {
            self
        } else {
            self.advanced_by((n - 1) as nat).advanced()
        }
    }

    /// A freshly initialized model: step counter zero, time at the start.
    pub open spec fn fresh(start_time: int, step_width: int) -> StepModel {
        StepModel { start_time, step_width, cur_step: 0, cur_time: start_time }
    }

    /// All fields lie in the machine range of the clock's counters.
    pub open spec fn bounded(self) -> bool {
        &&& 0 <= self.start_time <= u64::MAX
        &&& 0 <= self.step_width <= u64::MAX
        &&& 0 <= self.cur_step <= u64::MAX
        &&& 0 <= self.cur_time <= u64::MAX
    }
}

/// After `n` ticks from a well-formed clock, the step counter has grown by
/// `n` and the current time equals `start_time + cur_step * step_width`;
/// in particular, `n` ticks from a fresh clock land on
/// `start_time + n * step_width` with the counter at `n`.
pub proof fn lemma_advanced_by(m: StepModel, n: nat)
    requires
        m.wf(),
    ensures
        m.advanced_by(n).wf(),
        m.advanced_by(n).start_time == m.start_time,
        m.advanced_by(n).step_width == m.step_width,
        m.advanced_by(n).cur_step == m.cur_step + n,
        m.advanced_by(n).cur_time == m.start_time + (m.cur_step + n) * m.step_width,
    decreases n,
{
    if n == 0 {
    } else {
        lemma_advanced_by(m, (n - 1) as nat);
        let p = m.advanced_by((n - 1) as nat);
        assert(p.advanced().cur_time == p.start_time + (p.cur_step + 1) * p.step_width);
        assert((p.cur_step + 1) * p.step_width == p.cur_step * p.step_width + p.step_width)
            by (nonlinear_arith);
        assert((m.cur_step + n) * m.step_width == (m.cur_step + (n - 1)) * m.step_width
            + m.step_width) by (nonlinear_arith);
    }
}

/// The logical clock.
pub struct Step {
    start_time: u64,
    cur_time: u64,
    cur_step: u64,
    step_width: u64,
}

impl View for Step {
    type V = StepModel;

    closed spec fn view(&self) -> StepModel {
        StepModel {
            start_time: self.start_time as int,
            step_width: self.step_width as int,
            cur_step: self.cur_step as int,
            cur_time: self.cur_time as int,
        }
    }
}

impl Step {
    pub fn new(start_time: u64, step_width: u64) -> (r: Step)
        ensures
            r@ == StepModel::fresh(start_time as int, step_width as int),
            r@.wf(),
    {
        let r = Step { start_time, cur_time: start_time, cur_step: 0, step_width };
        proof {
            assert(0 * (step_width as int) == 0);
        }
        r
    }

    /// Advances the clock by one step and recomputes the current time from
    /// the invariant formula.
    pub fn next(&mut self)
        requires
            old(self)@.wf(),
            old(self)@.cur_time + old(self)@.step_width <= u64::MAX,
            old(self)@.cur_step + 1 <= u64::MAX,
        ensures
            final(self)@ == old(self)@.advanced(),
            final(self)@.wf(),
    {
        proof {
            let s = old(self)@.cur_step;
            let w = old(self)@.step_width;
            assert((s + 1) * w == s * w + w) by (nonlinear_arith);
        }
        self.cur_step = self.cur_step + 1;
        self.cur_time = self.start_time + self.cur_step * self.step_width;
    }

    /// Reinitializes all fields from a new start time and step width.
    pub fn reset(&mut self, start_time: u64, step_width: u64)
        ensures
            final(self)@ == StepModel::fresh(start_time as int, step_width as int),
            final(self)@.wf(),
    {
        self.start_time = start_time;
        self.cur_time = start_time;
        self.cur_step = 0;
        self.step_width = step_width;
        proof {
            assert(0 * (step_width as int) == 0);
        }
    }

    pub fn cur_time(&self) -> (r: u64)
        ensures
            r == self@.cur_time,
    {
        self.cur_time
    }

    pub fn cur_step(&self) -> (r: u64)
        ensures
            r == self@.cur_step,
    {
        self.cur_step
    }

    /// The clock's counters are machine words, so its model is bounded.
    pub proof fn view_bounded(&self)
        ensures
            self@.bounded(),
    {
    }

    /// Whether one more tick fits in the machine range of the counters.
    pub fn can_advance(&self) -> (r: bool)
        ensures
            r == (self@.cur_time + self@.step_width <= u64::MAX && self@.cur_step + 1
                <= u64::MAX),
    {
        self.cur_step < u64::MAX && self.cur_time <= u64::MAX - self.step_width
    }
}

} // verus!
