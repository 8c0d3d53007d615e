use vstd::prelude::*;

verus! {

/// The delay and sound timers: two 8-bit counters that count down to zero.
#[derive(Debug)]
pub struct Timers {
    /// The delay timer, readable by programs.
    pub delay_timer: u8,
    /// The sound timer; a tone plays while it is non-zero.
    pub sound_timer: u8,
}

/// One tick of a timer: down by one, never below zero.
pub open spec fn tick(t: u8) -> u8 {
    if t == 0 {
        0
    } else {
        (t - 1) as u8
    }
}

/// `n` ticks of a timer that starts at `t`.
pub open spec fn ticks(t: u8, n: nat) -> u8
    decreases n,
{
    if n == 0 {
        t
    } else {
        tick(ticks(t, (n - 1) as nat))
    }
}

/// Ticking saturates: `n` ticks take `t` to `t - n`, and to 0 once it gets there. So
/// from 0 the timer stays 0 and never wraps round to 255.
pub proof fn lemma_ticks_saturate(t: u8, n: nat)
    ensures
        ticks(t, n) == if t >= n {
            t - n
        } else {
            0
        },
        t == 0 ==> ticks(t, n) == 0,
    decreases n,
{
    if n > 0 {
        lemma_ticks_saturate(t, (n - 1) as nat);
    }
}

impl Timers {
    /// Whether a tone should sound: while the sound timer is above zero.
    pub fn tone_on(&self) -> (r: bool)
        ensures
            r == (self.sound_timer > 0),
    {
        self.sound_timer > 0
    }

    /// Decreases each timer by 1 if it is greater than zero.
    pub fn count_down(&mut self)
        ensures
            final(self).delay_timer == tick(old(self).delay_timer),
            final(self).sound_timer == tick(old(self).sound_timer),
    {
        self.delay_timer = self.delay_timer.saturating_sub(1);
        self.sound_timer = self.sound_timer.saturating_sub(1);
    }
}

} // verus!
