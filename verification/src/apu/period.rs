use vstd::prelude::*;

verus! {

/// The eleven-bit period of a channel (NRx3 and the low bits of NRx4) and its divider.
pub struct Period {
    pub low: u8,
    pub high: u8,
    pub divider: u16,
    pub reloaded: bool,
}

pub const WAVE_CHANNEL_PERIOD_DELAY: u16 = 3;

/// The eleven-bit period value.
pub open spec fn period_value(low: u8, high: u8) -> u16 {
    ((high & 0b111) as u16 * 256 + low as u16) as u16
}

/// The value the divider is reloaded with: 2048 minus the period value.
pub open spec fn period_divider(low: u8, high: u8) -> u16 {
    (2048 - period_value(low, high)) as u16
}

/// The period value is eleven bits: the low register gives bits 0-7 and bits 0-2 of the high
/// register give bits 8-10, its other bits playing no part; the divider reloads with 2048
/// minus it, so with 1 to 2048.
pub proof fn law_period_bits(low: u8, high: u8)
    ensures
        period_value(low, high) == ((high & 0x07) as u16) << 8u16 | low as u16,
        period_value(low, high) < 2048,
        period_value(low, high) == period_value(low, high & 0x07),
        period_divider(low, high) + period_value(low, high) == 2048,
        1 <= period_divider(low, high) <= 2048,
{
    let h: u8 = high & 0x07;
    let l: u16 = low as u16;
    let hw: u16 = h as u16;
    assert(h < 8 && h & 0x07 == h) by (bit_vector)
        requires
            h == high & 0x07,
    ;
    assert(hw * 256 + l == hw << 8u16 | l) by (bit_vector)
        requires
            hw < 8,
            l < 256,
    ;
}

/// The divider after `steps` decrements, reloading with `reload` whenever it reaches zero,
/// together with the number of reloads.
pub open spec fn divider_after_steps(divider: u16, reload: u16, steps: nat) -> (u16, nat)
    decreases steps,
{
    if steps == 0 {
        (divider, 0)
    } else {
        let next = (divider - 1) as u16;
        if next == 0 {
            let rest = divider_after_steps(reload, reload, (steps - 1) as nat);
            (rest.0, rest.1 + 1)
        } else {
            divider_after_steps(next, reload, (steps - 1) as nat)
        }
    }
}

proof fn lemma_divider_after_steps_bounds(divider: u16, reload: u16, steps: nat)
    requires
        divider >= 1,
        reload >= 1,
    ensures
        divider_after_steps(divider, reload, steps).0 >= 1,
        divider_after_steps(divider, reload, steps).1 <= steps,
    decreases steps,
{
    if steps > 0 {
        let next = (divider - 1) as u16;
        if next == 0 {
            lemma_divider_after_steps_bounds(reload, reload, (steps - 1) as nat);
        } else {
            lemma_divider_after_steps_bounds(next, reload, (steps - 1) as nat);
        }
    }
}

pub proof fn lemma_period_value_bound(low: u8, high: u8)
    ensures
        period_value(low, high) <= 2047,
        1 <= period_divider(low, high) <= 2048,
{
    crate::utils::lemma_u8_and_bound(high, 0b111);
}

impl Period {
    pub fn new() -> (p: Self)
        ensures
            p == (Period { low: 0, high: 0, divider: 0, reloaded: false }),
    {
        Period { low: 0, high: 0, divider: 0, reloaded: false }
    }

    /// Decrements the divider `divider_increment` times, reloading it whenever it reaches zero,
    /// and returns how many reloads happened. `reloaded` records whether the last decrement
    /// reloaded the divider.
    pub fn step(&mut self, divider_increment: u8) -> (reloads: u8)
        requires
            old(self).divider >= 1 || divider_increment == 0,
        ensures
            ({
                let r = divider_after_steps(
                    old(self).divider,
                    period_divider(old(self).low, old(self).high),
                    divider_increment as nat,
                );
                &&& final(self).divider == r.0
                &&& reloads == r.1
                &&& final(self).reloaded == (r.1 > 0 && r.0 == period_divider(old(self).low, old(self).high))
            }),
            final(self).low == old(self).low,
            final(self).high == old(self).high,
            divider_increment > 0 ==> final(self).divider >= 1,
            divider_increment == 0 ==> final(self).divider == old(self).divider,
    {
        let ghost d0 = self.divider;
        let ghost pd = period_divider(self.low, self.high);
        proof {
            lemma_period_value_bound(self.low, self.high);
        }
        let mut remaining = divider_increment;
        let mut reloads: u8 = 0;
        self.reloaded = false;
        while remaining > 0
            invariant
                self.low == old(self).low,
                self.high == old(self).high,
                pd == period_divider(self.low, self.high),
                1 <= pd <= 2048,
                remaining <= divider_increment,
                remaining > 0 ==> self.divider >= 1,
                reloads as nat + (remaining as nat) <= divider_increment as nat,
                divider_increment == 0 ==> self.divider == d0,
                ({
                    let total = divider_after_steps(d0, pd, divider_increment as nat);
                    let rest = divider_after_steps(self.divider, pd, remaining as nat);
                    &&& total.0 == rest.0
                    &&& total.1 == reloads as nat + rest.1
                }),
                self.reloaded == (reloads > 0),
                remaining < divider_increment ==> self.divider >= 1,
            decreases remaining,
        {
            self.divider -= 1;
            if self.divider == 0 {
                self.divider = self.calculate_period_divider();
                reloads += 1;
                self.reloaded = true;
            }
            remaining -= 1;
        }
        if self.divider != self.calculate_period_divider() {
            self.reloaded = false;
        }
        reloads
    }

    pub fn calculate_period_value(&self) -> (v: u16)
        ensures
            v == period_value(self.low, self.high),
            v <= 2047,
    {
        proof {
            lemma_period_value_bound(self.low, self.high);
        }
        ((self.high & 0b111) as u16) * 256 + (self.low as u16)
    }

    pub fn calculate_period_divider(&self) -> (d: u16)
        ensures
            d == period_divider(self.low, self.high),
            1 <= d <= 2048,
    {
        2048 - self.calculate_period_value()
    }

    pub fn trigger(&mut self)
        ensures
            *final(self) == (Period { divider: period_divider(old(self).low, old(self).high), ..*old(self) }),
    {
        self.divider = self.calculate_period_divider();
    }

    pub fn apply_wave_channel_trigger_delay(&mut self)
        requires
            old(self).divider <= 65535 - WAVE_CHANNEL_PERIOD_DELAY,
        ensures
            *final(self) == (Period { divider: (old(self).divider + WAVE_CHANNEL_PERIOD_DELAY) as u16, ..*old(self) }),
    {
        self.divider += WAVE_CHANNEL_PERIOD_DELAY;
    }

    pub fn low(&self) -> (r: u8)
        ensures
            r == self.low,
    {
        self.low
    }

    pub fn set_low(&mut self, low: u8)
        ensures
            *final(self) == (Period { low, ..*old(self) }),
    {
        self.low = low;
    }

    pub fn high(&self) -> (r: u8)
        ensures
            r == self.high,
    {
        self.high
    }

    pub fn set_high(&mut self, high: u8)
        ensures
            *final(self) == (Period { high, ..*old(self) }),
    {
        self.high = high;
    }

    pub fn divider(&self) -> (r: u16)
        ensures
            r == self.divider,
    {
        self.divider
    }

    pub fn set_divider(&mut self, divider: u16)
        ensures
            *final(self) == (Period { divider, ..*old(self) }),
    {
        self.divider = divider;
    }

    pub fn reloaded(&self) -> (r: bool)
        ensures
            r == self.reloaded,
    {
        self.reloaded
    }

    pub fn set_reloaded(&mut self, reloaded: bool)
        ensures
            *final(self) == (Period { reloaded, ..*old(self) }),
    {
        self.reloaded = reloaded;
    }
}

} // verus!
