use vstd::prelude::*;

verus! {

pub const BASE_SPEED_RATE: u8 = 4;
pub const DIVIDER_RATE: u8 = 16;

/// The DIV, TIMA, TMA and TAC registers together with the internal clocks that drive them.
pub struct TimerRegisters {
    pub m_cycles_clock: u8,
    pub divider_clock: u8,
    pub base_clock: u8,
    pub divider: u8,
    pub counter: u8,
    pub modulo: u8,
    pub control: u8,
    pub interrupt: bool,
}

/// How many base clock ticks make the counter register advance, if the timer is on.
pub open spec fn counter_rate(control: u8) -> Option<u8> {
    let bits = control & 0x07;
    if bits == 4 {
        Some(64u8)
    } else if bits == 5 {
        Some(1u8)
    } else if bits == 6 {
        Some(4u8)
    } else if bits == 7 {
        Some(16u8)
    } else {
        None
    }
}

/// Bit 2 of TAC turns the timer on, and bits 0-1 pick how many base ticks make the counter
/// advance: 64, 1, 4 and 16 for 0 to 3 (4096, 262144, 65536 and 16384 Hz); the other bits play
/// no part.
pub proof fn law_timer_control(control: u8)
    ensures
        counter_rate(control) is Some <==> control & 0x04 != 0,
        control & 0x04 != 0 && control & 0x03 == 0 ==> counter_rate(control) == Some(64u8),
        control & 0x04 != 0 && control & 0x03 == 1 ==> counter_rate(control) == Some(1u8),
        control & 0x04 != 0 && control & 0x03 == 2 ==> counter_rate(control) == Some(4u8),
        control & 0x04 != 0 && control & 0x03 == 3 ==> counter_rate(control) == Some(16u8),
        counter_rate(control) == counter_rate(control & 0x07),
{
    let low: u8 = control & 0x07;
    assert((low == 4 <==> control & 0x04 != 0 && control & 0x03 == 0) && (low == 5 <==> control & 0x04 != 0
        && control & 0x03 == 1) && (low == 6 <==> control & 0x04 != 0 && control & 0x03 == 2) && (low == 7 <==> control
        & 0x04 != 0 && control & 0x03 == 3) && (control & 0x04 != 0 <==> low >= 4) && low < 8 && low & 0x07 == low) by (bit_vector)
        requires
            low == control & 0x07,
    ;
}

impl TimerRegisters {
    /// The internal clocks never sit at 255, so that one more tick never overflows them.
    pub open spec fn wf(&self) -> bool {
        &&& self.m_cycles_clock < 255
        &&& self.divider_clock < 255
        &&& self.base_clock < 255
    }

    /// The state after the divider register has been clocked once.
    pub open spec fn spec_after_div(self) -> TimerRegisters {
        let clock = self.divider_clock + 1;
        if clock >= DIVIDER_RATE {
            TimerRegisters { divider: ((self.divider + 1) % 256) as u8, divider_clock: 0, ..self }
        } else {
            TimerRegisters { divider_clock: clock as u8, ..self }
        }
    }

    /// The state after the counter register has been clocked once at the given rate.
    pub open spec fn spec_after_counter(self, rate: u8) -> TimerRegisters {
        let clock = self.base_clock + 1;
        if clock >= rate {
            if self.counter == 0xFF {
                TimerRegisters { base_clock: 0, counter: self.modulo, interrupt: true, ..self }
            } else {
                TimerRegisters { base_clock: 0, counter: (self.counter + 1) as u8, ..self }
            }
        } else {
            TimerRegisters { base_clock: clock as u8, ..self }
        }
    }

    /// The state after one machine cycle.
    pub open spec fn spec_step(self) -> TimerRegisters {
        let m = self.m_cycles_clock + 1;
        if m >= BASE_SPEED_RATE {
            let ticked = TimerRegisters { m_cycles_clock: (m - BASE_SPEED_RATE) as u8, ..self };
            let after_div = ticked.spec_after_div();
            match counter_rate(self.control) {
                Some(rate) => after_div.spec_after_counter(rate),
                None => after_div,
            }
        } else {
            TimerRegisters { m_cycles_clock: m as u8, ..self }
        }
    }

    pub fn new() -> (timers: Self)
        ensures
            timers.wf(),
            timers == (TimerRegisters {
                m_cycles_clock: 0,
                divider_clock: 0,
                base_clock: 0,
                divider: 0,
                counter: 0,
                modulo: 0,
                control: 0,
                interrupt: false,
            }),
    {
        TimerRegisters {
            m_cycles_clock: 0,
            divider_clock: 0,
            base_clock: 0,
            divider: 0,
            counter: 0,
            modulo: 0,
            control: 0,
            interrupt: false,
        }
    }

    fn get_counter_rate(&self) -> (rate: Option<u8>)
        ensures
            rate == counter_rate(self.control),
    {
        match self.control & 0x07 {
            0x04 => Some(64),
            0x05 => Some(1),
            0x06 => Some(4),
            0x07 => Some(16),
            _ => None,
        }
    }

    fn increment_div_register(&mut self)
        requires
            old(self).divider_clock < 255,
        ensures
            *final(self) == old(self).spec_after_div(),
    {
        self.divider_clock += 1;

        if self.divider_clock >= DIVIDER_RATE {
            self.divider = self.divider.wrapping_add(1);
            self.divider_clock = 0;
        }
    }

    fn increment_counter_register(&mut self, counter_rate: u8)
        requires
            old(self).base_clock < 255,
        ensures
            *final(self) == old(self).spec_after_counter(counter_rate),
    {
        self.base_clock += 1;

        if self.base_clock >= counter_rate {
            self.base_clock = 0;

            if self.counter == 0xFF {
                self.counter = self.modulo;
                self.interrupt = true;
            } else {
                self.counter += 1
            }
        }
    }

    /// Advances the timers by one machine cycle.
    pub fn step(&mut self)
        requires
            old(self).wf(),
        ensures
            *final(self) == old(self).spec_step(),
            final(self).wf(),
    {
        self.m_cycles_clock += 1;

        if self.m_cycles_clock >= BASE_SPEED_RATE {
            self.m_cycles_clock -= BASE_SPEED_RATE;

            self.increment_div_register();

            match self.get_counter_rate() {
                Some(counter_rate) => {
                    self.increment_counter_register(counter_rate);
                },
                _ => (),
            }
        }
    }

    /// Writing to DIV resets it, together with the clocks that drive it.
    pub fn set_divider(&mut self, value: u8)
        ensures
            *final(self) == (TimerRegisters {
                divider: value,
                divider_clock: 0,
                m_cycles_clock: 0,
                ..*old(self)
            }),
    {
        self.divider = value;
        self.divider_clock = 0;
        self.m_cycles_clock = 0;
    }

    pub fn divider(&self) -> (r: u8)
        ensures
            r == self.divider,
    {
        self.divider
    }

    pub fn counter(&self) -> (r: u8)
        ensures
            r == self.counter,
    {
        self.counter
    }

    pub fn set_counter(&mut self, value: u8)
        ensures
            *final(self) == (TimerRegisters { counter: value, ..*old(self) }),
    {
        self.counter = value;
    }

    pub fn modulo(&self) -> (r: u8)
        ensures
            r == self.modulo,
    {
        self.modulo
    }

    pub fn set_modulo(&mut self, value: u8)
        ensures
            *final(self) == (TimerRegisters { modulo: value, ..*old(self) }),
    {
        self.modulo = value;
    }

    pub fn control(&self) -> (r: u8)
        ensures
            r == self.control,
    {
        self.control
    }

    pub fn set_control(&mut self, value: u8)
        ensures
            *final(self) == (TimerRegisters { control: value, ..*old(self) }),
    {
        self.control = value;
    }

    pub fn interrupt(&self) -> (r: bool)
        ensures
            r == self.interrupt,
    {
        self.interrupt
    }

    pub fn set_interrupt(&mut self, value: bool)
        ensures
            *final(self) == (TimerRegisters { interrupt: value, ..*old(self) }),
    {
        self.interrupt = value;
    }
}

/// The timers after `n` machine cycles.
pub open spec fn steps(t: TimerRegisters, n: nat) -> TimerRegisters
    decreases n,
{
    if n == 0 { t } else { steps(t, (n - 1) as nat).spec_step() }
}

proof fn lemma_steps_add(t: TimerRegisters, a: nat, b: nat)
    ensures
        steps(t, a + b) == steps(steps(t, a), b),
    decreases b,
{
    if b > 0 {
        lemma_steps_add(t, a, (b - 1) as nat);
        assert(steps(t, a + b) == steps(t, (a + b - 1) as nat).spec_step());
    }
}

proof fn lemma_four_machine_cycles(t: TimerRegisters)
    requires
        t.m_cycles_clock == 0,
        t.divider_clock < DIVIDER_RATE,
    ensures
        steps(t, 4).m_cycles_clock == 0,
        steps(t, 4).divider_clock == (if t.divider_clock + 1 >= DIVIDER_RATE { 0 } else { t.divider_clock + 1 }),
        steps(t, 4).divider == (if t.divider_clock + 1 >= DIVIDER_RATE { (t.divider + 1) % 256 } else { t.divider as int }),
{
    reveal_with_fuel(steps, 5);
}

proof fn lemma_divider_phase(t: TimerRegisters, k: nat)
    requires
        k < DIVIDER_RATE,
        t.m_cycles_clock == 0,
        t.divider_clock == 0,
    ensures
        steps(t, 4 * k).m_cycles_clock == 0,
        steps(t, 4 * k).divider_clock == k,
        steps(t, 4 * k).divider == t.divider,
    decreases k,
{
    if k > 0 {
        lemma_divider_phase(t, (k - 1) as nat);
        lemma_steps_add(t, 4 * (k - 1) as nat, 4);
        assert(4 * (k - 1) as nat + 4 == 4 * k);
        lemma_four_machine_cycles(steps(t, 4 * (k - 1) as nat));
    }
}

/// The divider register advances by one every sixty-four machine cycles, whatever the
/// counter does.
pub proof fn law_divider_counts_every_sixty_four_cycles(t: TimerRegisters)
    requires
        t.m_cycles_clock == 0,
        t.divider_clock == 0,
    ensures
        steps(t, 64).divider == (t.divider + 1) % 256,
        steps(t, 64).divider_clock == 0,
        steps(t, 64).m_cycles_clock == 0,
{
    lemma_divider_phase(t, 15);
    lemma_steps_add(t, 60, 4);
    lemma_four_machine_cycles(steps(t, 60));
}

proof fn lemma_step_divider(s: TimerRegisters)
    requires
        s.m_cycles_clock < 4,
        s.divider_clock < 16,
    ensures
        s.m_cycles_clock == 3 ==> s.spec_step().m_cycles_clock == 0 && s.spec_step().divider_clock == (if s.divider_clock
            == 15 { 0 } else { s.divider_clock + 1 }) && s.spec_step().divider == (if s.divider_clock == 15 {
            (s.divider + 1) % 256
        } else {
            s.divider as int
        }),
        s.m_cycles_clock != 3 ==> s.spec_step().m_cycles_clock == s.m_cycles_clock + 1 && s.spec_step().divider_clock
            == s.divider_clock && s.spec_step().divider == s.divider,
{
    if s.m_cycles_clock == 3 {
        let ticked = TimerRegisters { m_cycles_clock: 0, ..s };
        let after_div = ticked.spec_after_div();
        match counter_rate(s.control) {
            Some(rate) => {
                assert(after_div.spec_after_counter(rate).divider == after_div.divider);
                assert(after_div.spec_after_counter(rate).divider_clock == after_div.divider_clock);
            },
            None => {},
        }
    }
}

proof fn lemma_divider_phases(t: TimerRegisters, k: nat)
    requires
        t.m_cycles_clock == 0,
        t.divider_clock == 0,
    ensures
        steps(t, k).m_cycles_clock == k % 4,
        steps(t, k).divider_clock == (k / 4) % 16,
        steps(t, k).divider == (t.divider + (k / 4) / 16) % 256,
    decreases k,
{
    if k > 0 {
        let j = (k - 1) as nat;
        lemma_divider_phases(t, j);
        let s = steps(t, j);
        assert(steps(t, k) == s.spec_step());
        let q = j / 4;
        assert(j % 4 < 4 && q % 16 < 16) by (nonlinear_arith);
        lemma_step_divider(s);
        assert(j % 4 == 3 ==> k % 4 == 0 && k / 4 == q + 1) by (nonlinear_arith)
            requires k == j + 1, q == j / 4;
        assert(j % 4 != 3 ==> k % 4 == j % 4 + 1 && k / 4 == q) by (nonlinear_arith)
            requires k == j + 1, q == j / 4;
        assert(q % 16 == 15 ==> (q + 1) % 16 == 0 && (q + 1) / 16 == q / 16 + 1) by (nonlinear_arith);
        assert(q % 16 != 15 ==> (q + 1) % 16 == q % 16 + 1 && (q + 1) / 16 == q / 16) by (nonlinear_arith);
        assert(q % 16 == 15 ==> (t.divider + (q + 1) / 16) % 256 == ((t.divider + q / 16) % 256 + 1) % 256);
    }
}

/// After DIV is written (which clears its clocks), it reads the written value plus one for
/// every sixty-four machine cycles since, wrapping from 0xFF to 0x00, whatever the counter does.
pub proof fn law_divider_counts_machine_cycles(t: TimerRegisters, k: nat)
    requires
        t.m_cycles_clock == 0,
        t.divider_clock == 0,
    ensures
        steps(t, k).divider == (t.divider + k / 64) % 256,
{
    lemma_divider_phases(t, k);
    assert((k / 4) / 16 == k / 64) by (nonlinear_arith);
}

proof fn lemma_four_machine_cycles_counter(t: TimerRegisters, rate: u8)
    requires
        t.m_cycles_clock == 0,
        counter_rate(t.control) == Some(rate),
        t.base_clock < rate,
    ensures
        steps(t, 4).m_cycles_clock == 0,
        steps(t, 4).control == t.control,
        steps(t, 4).modulo == t.modulo,
        steps(t, 4).base_clock == (if t.base_clock + 1 >= rate { 0 } else { t.base_clock + 1 }),
        steps(t, 4).counter == (if t.base_clock + 1 >= rate {
            if t.counter == 0xFF { t.modulo as int } else { t.counter + 1 }
        } else {
            t.counter as int
        }),
        steps(t, 4).interrupt == (t.interrupt || (t.base_clock + 1 >= rate && t.counter == 0xFF)),
{
    reveal_with_fuel(steps, 5);
}

proof fn lemma_counter_phase(t: TimerRegisters, rate: u8, k: nat)
    requires
        counter_rate(t.control) == Some(rate),
        k < rate,
        t.m_cycles_clock == 0,
        t.base_clock == 0,
    ensures
        steps(t, 4 * k).m_cycles_clock == 0,
        steps(t, 4 * k).control == t.control,
        steps(t, 4 * k).modulo == t.modulo,
        steps(t, 4 * k).base_clock == k,
        steps(t, 4 * k).counter == t.counter,
        steps(t, 4 * k).interrupt == t.interrupt,
    decreases k,
{
    if k > 0 {
        lemma_counter_phase(t, rate, (k - 1) as nat);
        lemma_steps_add(t, 4 * (k - 1) as nat, 4);
        assert(4 * (k - 1) as nat + 4 == 4 * k);
        lemma_four_machine_cycles_counter(steps(t, 4 * (k - 1) as nat), rate);
    }
}

/// With the timer on, the counter register advances once every `rate` base clock ticks of four
/// machine cycles each (64, 1, 4 or 16 by TAC); on overflow it reloads the modulo and requests
/// the timer interrupt.
pub proof fn law_counter_counts_at_its_rate(t: TimerRegisters, rate: u8)
    requires
        counter_rate(t.control) == Some(rate),
        t.m_cycles_clock == 0,
        t.base_clock == 0,
    ensures
        steps(t, 4 * rate as nat).counter == (if t.counter == 0xFF { t.modulo as int } else { t.counter + 1 }),
        steps(t, 4 * rate as nat).base_clock == 0,
        steps(t, 4 * rate as nat).interrupt == (t.interrupt || t.counter == 0xFF),
{
    let k = (rate - 1) as nat;
    lemma_counter_phase(t, rate, k);
    lemma_steps_add(t, 4 * k, 4);
    assert(4 * k + 4 == 4 * rate as nat);
    lemma_four_machine_cycles_counter(steps(t, 4 * k), rate);
}

} // verus!
