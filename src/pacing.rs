use vstd::prelude::*;

verus! {

/// The period of the timers in nanoseconds: 16,666,667 ns is 1 / 60 Hz.
pub const TIMER_PERIOD_NS: u64 = 16_666_667;

/// The number of nanoseconds in a second.
pub const NANOS_PER_SECOND: u64 = 1_000_000_000;

/// The period of one instruction at `cpu_speed` instructions per second, rounded to the
/// nearest nanosecond (halves up) and at least 1 ns; with a speed of 0 no instruction
/// ever becomes due.
pub open spec fn instruction_period(cpu_speed: u32) -> u64 {
    if cpu_speed == 0 {
        u64::MAX
    } else if (2 * NANOS_PER_SECOND + cpu_speed) / (2 * cpu_speed as int) == 0 {
        1
    } else {
        ((2 * NANOS_PER_SECOND + cpu_speed) / (2 * cpu_speed as int)) as u64
    }
}

/// What the pacer remembers between two updates.
pub struct PacerView {
    /// Time that has passed and has not yet made a timer tick.
    pub timer_lag_ns: nat,
    /// Time that has passed and has not yet made an instruction run.
    pub cpu_lag_ns: nat,
    /// The period of one instruction.
    pub instruction_period_ns: nat,
}

/// Decides, from the time that has passed, how many timer ticks and how many
/// instructions are due. Time left over is carried to the next update.
#[derive(Debug)]
pub struct Pacer {
    timer_lag_ns: u64,
    cpu_lag_ns: u64,
    instruction_period_ns: u64,
}

impl View for Pacer {
    type V = PacerView;

    closed spec fn view(&self) -> PacerView {
        PacerView {
            timer_lag_ns: self.timer_lag_ns as nat,
            cpu_lag_ns: self.cpu_lag_ns as nat,
            instruction_period_ns: self.instruction_period_ns as nat,
        }
    }
}

impl PacerView {
    /// Each lag is shorter than its period.
    pub open spec fn wf(self) -> bool {
        &&& self.instruction_period_ns > 0
        &&& self.timer_lag_ns < TIMER_PERIOD_NS
        &&& self.cpu_lag_ns < self.instruction_period_ns
    }
}

impl Pacer {
    /// A pacer for `cpu_speed` instructions per second, with no time carried over.
    pub fn new(cpu_speed: u32) -> (r: Pacer)
        ensures
            r@.wf(),
            r@.instruction_period_ns == instruction_period(cpu_speed),
            r@.timer_lag_ns == 0,
            r@.cpu_lag_ns == 0,
    {
        let instruction_period_ns = if cpu_speed == 0 {
            u64::MAX
        } else {
            let rounded = (2 * NANOS_PER_SECOND + cpu_speed as u64) / (2 * cpu_speed as u64);
            if rounded == 0 {
                1
            } else {
                rounded
            }
        };
        Pacer { timer_lag_ns: 0, cpu_lag_ns: 0, instruction_period_ns }
    }

    /// Adds `elapsed_ns` nanoseconds, and returns how many timer ticks and how many
    /// instructions are now due, in that order. What is left over of each is kept.
    pub fn update(&mut self, elapsed_ns: u64) -> (r: (u64, u64))
        requires
            old(self)@.wf(),
        ensures
            final(self)@.wf(),
            final(self)@.instruction_period_ns == old(self)@.instruction_period_ns,
            r.0 == (old(self)@.timer_lag_ns + elapsed_ns) / (TIMER_PERIOD_NS as int),
            final(self)@.timer_lag_ns == (old(self)@.timer_lag_ns + elapsed_ns) % (
            TIMER_PERIOD_NS as int),
            r.1 == (old(self)@.cpu_lag_ns + elapsed_ns) / (old(self)@.instruction_period_ns as int),
            final(self)@.cpu_lag_ns == (old(self)@.cpu_lag_ns + elapsed_ns) % (
            old(self)@.instruction_period_ns as int),
    {
        let timer_total = self.timer_lag_ns as u128 + elapsed_ns as u128;
        let ticks = timer_total / TIMER_PERIOD_NS as u128;
        let period = self.instruction_period_ns as u128;
        let cpu_total = self.cpu_lag_ns as u128 + elapsed_ns as u128;
        let steps = cpu_total / period;
        proof {
            lemma_quotient_fits(self.timer_lag_ns as int, elapsed_ns as int, TIMER_PERIOD_NS as int);
            lemma_quotient_fits(self.cpu_lag_ns as int, elapsed_ns as int, period as int);
        }
        self.timer_lag_ns = (timer_total % TIMER_PERIOD_NS as u128) as u64;
        self.cpu_lag_ns = (cpu_total % period) as u64;
        (ticks as u64, steps as u64)
    }
}

/// Time carried over plus the time elapsed, divided by the period, fits in 64 bits, and so
/// does the remainder.
proof fn lemma_quotient_fits(lag: int, elapsed: int, period: int)
    requires
        0 <= lag < period,
        period <= u64::MAX,
        0 <= elapsed <= u64::MAX,
    ensures
        0 <= (lag + elapsed) / period <= u64::MAX,
        0 <= (lag + elapsed) % period < period,
{
    vstd::arithmetic::div_mod::lemma_mod_bound(lag + elapsed, period);
    vstd::arithmetic::div_mod::lemma_div_pos_is_pos(lag + elapsed, period);
    if period == 1 {
        vstd::arithmetic::div_mod::lemma_div_basics(lag + elapsed);
    } else {
        vstd::arithmetic::div_mod::lemma_div_is_ordered_by_denominator(lag + elapsed, 2, period);
        assert((lag + elapsed) / 2 <= u64::MAX) by (nonlinear_arith)
            requires
                0 <= lag + elapsed <= 2 * u64::MAX,
        ;
    }
}

} // verus!
