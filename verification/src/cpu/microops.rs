use crate::address_bus::{accessible, clock_frame, read_value, written, AddressBus};
use crate::cpu::{register_value, pair_value, with_pair, with_register, with_flags, z_flag, n_flag, h_flag, c_flag, BusActivityEntry, BusActivityType, Cpu, Register, RegisterPair, Registers};
use crate::utils::{as_bytes, as_word, bit_is_set, get_t_cycle_increment, t_cycle_increment};
use vstd::prelude::*;

verus! {

/// Addresses whose contents no device changes while the processor waits for the bus: neither
/// boot ROM nor OAM nor I/O registers.
pub open spec fn stable_address(address: u16) -> bool {
    address > 0x00FE && !(0x0200 <= address <= 0x08FF) && !(0xFE00 <= address < 0xFF80)
}

/// The byte a processor read of an address gives, where it does not depend on what the other
/// devices do during the access.
pub open spec fn known_read(b: AddressBus, address: u16) -> Option<u8> {
    if b.processor_test_mode {
        Some(b.processor_test_ram@[address as int])
    } else if stable_address(address) {
        Some(read_value(b, address))
    } else {
        None
    }
}

/// The bus after a processor write reaches it.
pub open spec fn bus_write_result(a: AddressBus, b: AddressBus, address: u16, value: u8) -> bool {
    if a.processor_test_mode {
        b == (AddressBus { processor_test_ram: b.processor_test_ram, ..a })
            && b.processor_test_ram@ == a.processor_test_ram@.update(address as int, value)
    } else if !accessible(a, address) {
        b == a
    } else {
        written(a, b, address, value)
    }
}

/// A machine cycle, then a processor write.
pub open spec fn cycled_write(a: AddressBus, b: AddressBus, address: u16, value: u8) -> bool {
    exists|mid: AddressBus| clock_frame(a, mid) && #[trigger] bus_write_result(mid, b, address, value)
}

/// A processor write, then any number of machine cycles of the other devices.
pub open spec fn write_then_cycles(a: AddressBus, b: AddressBus, write: (u16, u8)) -> bool {
    exists|after: AddressBus| #[trigger] cycled_write(a, after, write.0, write.1) && clock_frame(after, b)
}

/// The bus states a run of writes goes through: the first after machine cycles from `a`, then
/// one state after each write and the machine cycles that follow it, the last being `b`.
pub open spec fn write_run(a: AddressBus, b: AddressBus, writes: Seq<(u16, u8)>, states: Seq<AddressBus>) -> bool {
    &&& states.len() == writes.len() + 1
    &&& clock_frame(a, states[0])
    &&& states.last() == b
    &&& forall|i: int| 0 <= i < writes.len() ==> #[trigger] write_then_cycles(states[i], states[i + 1], writes[i])
}

/// The bus goes from `a` to `b` through the given processor writes, in order, each after a
/// machine cycle, with machine cycles of the other devices before, between and after them:
/// memory changes by these writes and by no other.
pub open spec fn wrote(a: AddressBus, b: AddressBus, writes: Seq<(u16, u8)>) -> bool {
    exists|states: Seq<AddressBus>| #[trigger] write_run(a, b, writes, states)
}

proof fn lemma_write_then_more_cycles(a: AddressBus, b: AddressBus, c: AddressBus, write: (u16, u8))
    requires
        write_then_cycles(a, b, write),
        clock_frame(b, c),
    ensures
        write_then_cycles(a, c, write),
{
    let after = choose|after: AddressBus| #[trigger] cycled_write(a, after, write.0, write.1) && clock_frame(after, b);
    lemma_clock_frame_trans(after, b, c);
}

pub proof fn lemma_wrote_nothing(a: AddressBus, b: AddressBus)
    requires
        clock_frame(a, b),
    ensures
        wrote(a, b, Seq::empty()),
{
    assert(write_run(a, b, Seq::empty(), seq![b]));
}

/// Writes followed by one more write.
pub proof fn lemma_wrote_push(a: AddressBus, mid: AddressBus, b: AddressBus, writes: Seq<(u16, u8)>, address: u16, value: u8)
    requires
        wrote(a, mid, writes),
        cycled_write(mid, b, address, value),
    ensures
        wrote(a, b, writes.push((address, value))),
{
    let states = choose|states: Seq<AddressBus>| #[trigger] write_run(a, mid, writes, states);
    let w = writes.push((address, value));
    let s2 = states.push(b);
    assert(clock_frame(b, b));
    assert(cycled_write(mid, b, (address, value).0, (address, value).1));
    assert(write_then_cycles(mid, b, (address, value)));
    assert forall|i: int| 0 <= i < w.len() implies #[trigger] write_then_cycles(s2[i], s2[i + 1], w[i]) by {
        if i < writes.len() {
            assert(write_then_cycles(states[i], states[i + 1], writes[i]));
        }
    }
    assert(write_run(a, b, w, s2));
}

/// Machine cycles after the writes change nothing that the writes say.
pub proof fn lemma_wrote_then_cycles(a: AddressBus, b: AddressBus, c: AddressBus, writes: Seq<(u16, u8)>)
    requires
        wrote(a, b, writes),
        clock_frame(b, c),
    ensures
        wrote(a, c, writes),
{
    let states = choose|states: Seq<AddressBus>| #[trigger] write_run(a, b, writes, states);
    let n = writes.len() as int;
    let s2 = states.update(n, c);
    if n == 0 {
        lemma_clock_frame_trans(a, b, c);
    } else {
        let k = n - 1;
        assert(write_then_cycles(states[k], states[k + 1], writes[k]));
        lemma_write_then_more_cycles(states[n - 1], b, c, writes[n - 1]);
    }
    assert forall|i: int| 0 <= i < writes.len() implies #[trigger] write_then_cycles(s2[i], s2[i + 1], writes[i]) by {
        if i < n - 1 {
            assert(write_then_cycles(states[i], states[i + 1], writes[i]));
        }
    }
    assert(write_run(a, c, writes, s2));
}

/// Machine cycles before the writes change nothing that the writes say.
pub proof fn lemma_cycles_then_wrote(a: AddressBus, b: AddressBus, c: AddressBus, writes: Seq<(u16, u8)>)
    requires
        clock_frame(a, b),
        wrote(b, c, writes),
    ensures
        wrote(a, c, writes),
{
    let states = choose|states: Seq<AddressBus>| #[trigger] write_run(b, c, writes, states);
    lemma_clock_frame_trans(a, b, states[0]);
    assert forall|i: int| 0 <= i < writes.len() implies #[trigger] write_then_cycles(states[i], states[i + 1], writes[i]) by {
        assert(write_run(b, c, writes, states));
    }
    assert(write_run(a, c, writes, states));
}

/// Two runs of writes, one after the other.
pub proof fn lemma_wrote_concat(a: AddressBus, b: AddressBus, c: AddressBus, first: Seq<(u16, u8)>, second: Seq<(u16, u8)>)
    requires
        wrote(a, b, first),
        wrote(b, c, second),
    ensures
        wrote(a, c, first + second),
{
    let s1 = choose|states: Seq<AddressBus>| #[trigger] write_run(a, b, first, states);
    let s2 = choose|states: Seq<AddressBus>| #[trigger] write_run(b, c, second, states);
    let n1 = first.len() as int;
    let w = first + second;
    let s = s1.subrange(0, n1) + s2;
    assert(s.len() == w.len() + 1);
    if n1 == 0 {
        lemma_clock_frame_trans(a, b, s2[0]);
        assert(s[0] == s2[0]);
    } else {
        assert(s[0] == s1[0]);
        let k = n1 - 1;
        assert(write_then_cycles(s1[k], s1[k + 1], first[k]));
        lemma_write_then_more_cycles(s1[n1 - 1], b, s2[0], first[n1 - 1]);
    }
    assert(s.last() == s2.last());
    assert forall|i: int| 0 <= i < w.len() implies #[trigger] write_then_cycles(s[i], s[i + 1], w[i]) by {
        if i < n1 - 1 {
            assert(write_then_cycles(s1[i], s1[i + 1], first[i]));
        } else if i == n1 - 1 {
        } else {
            let j = i - n1;
            assert(write_then_cycles(s2[j], s2[j + 1], second[j]));
            assert(s[i] == s2[j]);
            assert(s[i + 1] == s2[j + 1]);
            assert(w[i] == second[j]);
        }
    }
    assert(write_run(a, c, w, s));
}

/// A write after machine cycles, as a run of one write.
pub proof fn lemma_wrote_one(a: AddressBus, b: AddressBus, address: u16, value: u8)
    requires
        cycled_write(a, b, address, value),
    ensures
        wrote(a, b, seq![(address, value)]),
{
    lemma_wrote_nothing(a, a);
    lemma_wrote_push(a, a, b, Seq::empty(), address, value);
    assert(Seq::<(u16, u8)>::empty().push((address, value)) =~= seq![(address, value)]);
}

/// A stack push of a word: the high byte below SP, then the low byte below it.
pub open spec fn stack_writes(stack_pointer: u16, word: u16) -> Seq<(u16, u8)> {
    seq![(stack_pointer.wrapping_sub(1), (word / 256) as u8), (stack_pointer.wrapping_sub(1).wrapping_sub(1), (word % 256) as u8)]
}

/// Only the bus, the clock and the bus record may differ.
pub open spec fn same_processor(a: Cpu, b: Cpu) -> bool {
    b == (Cpu {
        address_bus: b.address_bus,
        instruction_clock_cycles: b.instruction_clock_cycles,
        opcode_bus_activity: b.opcode_bus_activity,
        ..a
    })
}

/// The clock after one machine cycle.
pub open spec fn cycled_clock(c: Cpu) -> u8 {
    ((c.instruction_clock_cycles + t_cycle_increment(c.address_bus.speed_switch.cgb_double_speed)) % 256) as u8
}

/// The clock after a number of machine cycles at one speed, counted modulo 256.
pub open spec fn elapsed_clock(start: u8, double_speed: bool, cycles: nat) -> u8 {
    ((start + cycles * t_cycle_increment(double_speed)) % 256) as u8
}

proof fn lemma_elapsed_clock_step(start: u8, double_speed: bool, cycles: nat)
    ensures
        elapsed_clock(start, double_speed, cycles + 1)
            == ((elapsed_clock(start, double_speed, cycles) + t_cycle_increment(double_speed)) % 256) as u8,
{
    let inc = t_cycle_increment(double_speed) as int;
    let a = start + cycles * inc;
    assert((cycles + 1) * inc == cycles * inc + inc) by (nonlinear_arith);
    assert(((a % 256) + inc) % 256 == (a + inc) % 256) by {
        vstd::arithmetic::div_mod::lemma_add_mod_noop(a, inc, 256);
    }
}

pub proof fn lemma_clock_frame_trans(a: AddressBus, b: AddressBus, c: AddressBus)
    requires
        clock_frame(a, b),
        clock_frame(b, c),
    ensures
        clock_frame(a, c),
{
}

/// A machine cycle of the other devices leaves stable addresses reading as they did.
pub proof fn lemma_stable_read(a: AddressBus, b: AddressBus, address: u16)
    requires
        clock_frame(a, b),
        stable_address(address),
    ensures
        read_value(a, address) == read_value(b, address),
        accessible(b, address),
        known_read(a, address) == known_read(b, address),
{
}

/// The little-endian word that processor reads of an address and of the address after it
/// give, where both bytes are known.
pub open spec fn known_word(b: AddressBus, address: u16) -> Option<u16> {
    match (known_read(b, address), known_read(b, address.wrapping_add(1))) {
        (Some(low), Some(high)) => Some((high as int * 256 + low as int) as u16),
        _ => None,
    }
}

/// A byte that a read would give with certainty still reads the same after a machine cycle.
pub proof fn lemma_known_read_kept(a: AddressBus, b: AddressBus, address: u16)
    requires
        clock_frame(a, b),
        known_read(a, address) is Some,
    ensures
        known_read(b, address) == known_read(a, address),
{
    if !a.processor_test_mode {
        lemma_stable_read(a, b, address);
    }
}

impl Cpu {
    pub fn step_one_machine_cycle(&mut self)
        requires
            old(self).wf(),
        ensures
            final(self).wf(),
            same_processor(*old(self), *final(self)),
            final(self).opcode_bus_activity == old(self).opcode_bus_activity,
            final(self).instruction_clock_cycles == cycled_clock(*old(self)),
            clock_frame(old(self).address_bus, final(self).address_bus),
            final(self).address_bus.timers == old(self).address_bus.timers.spec_step(),
    {
        let double_speed_mode = self.address_bus.speed_switch.cgb_double_speed;
        let t_cycle_increment = get_t_cycle_increment(double_speed_mode);
        self.instruction_clock_cycles = self.instruction_clock_cycles.wrapping_add(t_cycle_increment);
        self.address_bus.sync();
    }

    pub fn step_machine_cycles(&mut self, cycles: u8)
        requires
            old(self).wf(),
        ensures
            final(self).wf(),
            same_processor(*old(self), *final(self)),
            final(self).opcode_bus_activity == old(self).opcode_bus_activity,
            clock_frame(old(self).address_bus, final(self).address_bus),
            final(self).instruction_clock_cycles == elapsed_clock(old(self).instruction_clock_cycles, old(self).address_bus.speed_switch.cgb_double_speed, cycles as nat),
            final(self).address_bus.timers == crate::cpu::timers::steps(old(self).address_bus.timers, cycles as nat),
    {
        let mut i: u8 = 0;
        while i < cycles
            invariant
                i <= cycles,
                self.wf(),
                same_processor(*old(self), *self),
                self.opcode_bus_activity == old(self).opcode_bus_activity,
                clock_frame(old(self).address_bus, self.address_bus),
                self.instruction_clock_cycles == elapsed_clock(old(self).instruction_clock_cycles, old(self).address_bus.speed_switch.cgb_double_speed, i as nat),
                self.address_bus.timers == crate::cpu::timers::steps(old(self).address_bus.timers, i as nat),
            decreases cycles - i,
        {
            let ghost before = self.address_bus;
            let ghost clock_before = self.instruction_clock_cycles;
            self.step_one_machine_cycle();
            proof {
                lemma_clock_frame_trans(old(self).address_bus, before, self.address_bus);
                lemma_elapsed_clock_step(old(self).instruction_clock_cycles, old(self).address_bus.speed_switch.cgb_double_speed, i as nat);
            }
            i += 1;
        }
    }

    /// Records a bus access at the current machine cycle, after empty entries for the cycles
    /// since the last access.
    fn record_bus_activity(&mut self, bus_activity_entry: BusActivityEntry)
        ensures
            *final(self) == (Cpu { opcode_bus_activity: final(self).opcode_bus_activity, ..*old(self) }),
            final(self).opcode_bus_activity@.last() == Some(bus_activity_entry),
            final(self).opcode_bus_activity@.len() > old(self).opcode_bus_activity@.len(),
            final(self).opcode_bus_activity@.subrange(0, old(self).opcode_bus_activity@.len() as int) == old(self).opcode_bus_activity@,
    {
        let double_speed_mode = self.address_bus.speed_switch.cgb_double_speed;
        let t_cycle_increment = get_t_cycle_increment(double_speed_mode);
        let current_machine_cycle = (self.instruction_clock_cycles / t_cycle_increment) as usize;
        let recorded_cycles = self.opcode_bus_activity.len();
        let ghost original = self.opcode_bus_activity@;

        if current_machine_cycle >= 1 && current_machine_cycle - 1 > recorded_cycles {
            let cycles_with_no_activity = (current_machine_cycle - 1) - recorded_cycles;
            let mut i: usize = 0;
            while i < cycles_with_no_activity
                invariant
                    i <= cycles_with_no_activity,
                    self.opcode_bus_activity@.len() == original.len() + i,
                    self.opcode_bus_activity@.subrange(0, original.len() as int) == original,
                    *self == (Cpu { opcode_bus_activity: self.opcode_bus_activity, ..*old(self) }),
                decreases cycles_with_no_activity - i,
            {
                self.opcode_bus_activity.push(None);
                assert(self.opcode_bus_activity@.subrange(0, original.len() as int) =~= original);
                i += 1;
            }
        }

        self.opcode_bus_activity.push(Some(bus_activity_entry));
        assert(self.opcode_bus_activity@.subrange(0, original.len() as int) =~= original);
    }

    fn record_bus_read(&mut self, address: u16, value: u8)
        ensures
            *final(self) == (Cpu { opcode_bus_activity: final(self).opcode_bus_activity, ..*old(self) }),
            final(self).opcode_bus_activity@.last() == Some(BusActivityEntry { address, value, activity_type: BusActivityType::Read }),
    {
        let bus_activity_entry = BusActivityEntry { address, value, activity_type: BusActivityType::Read };
        self.record_bus_activity(bus_activity_entry);
    }

    fn record_bus_write(&mut self, address: u16, value: u8)
        ensures
            *final(self) == (Cpu { opcode_bus_activity: final(self).opcode_bus_activity, ..*old(self) }),
            final(self).opcode_bus_activity@.last() == Some(BusActivityEntry { address, value, activity_type: BusActivityType::Write }),
    {
        let bus_activity_entry = BusActivityEntry { address, value, activity_type: BusActivityType::Write };
        self.record_bus_activity(bus_activity_entry);
    }

    /// A machine cycle, then a read of the bus.
    pub fn read_byte_from_memory(&mut self, address: u16) -> (byte: u8)
        requires
            old(self).wf(),
        ensures
            final(self).wf(),
            same_processor(*old(self), *final(self)),
            final(self).instruction_clock_cycles == cycled_clock(*old(self)),
            clock_frame(old(self).address_bus, final(self).address_bus),
            known_read(old(self).address_bus, address) matches Some(v) ==> byte == v,
    {
        self.step_one_machine_cycle();
        let ghost mid = self.address_bus;
        let byte = self.address_bus.read_byte(address);
        proof {
            if !mid.processor_test_mode && accessible(mid, address) {
                lemma_clock_frame_trans(old(self).address_bus, mid, self.address_bus);
            }
            if stable_address(address) {
                lemma_stable_read(old(self).address_bus, mid, address);
            }
        }

        if self.address_bus.processor_test_mode {
            self.record_bus_read(address, byte);
        }

        byte
    }

    /// Two reads: the low byte, then the high byte at the next address.
    pub fn read_word_from_memory(&mut self, address: u16) -> (word: u16)
        requires
            old(self).wf(),
        ensures
            final(self).wf(),
            same_processor(*old(self), *final(self)),
            clock_frame(old(self).address_bus, final(self).address_bus),
            known_read(old(self).address_bus, address) is Some && known_read(old(self).address_bus, address.wrapping_add(1)) is Some
                ==> word == known_read(old(self).address_bus, address.wrapping_add(1))->0 as int * 256 + known_read(old(self).address_bus, address)->0 as int,
    {
        let ghost start = self.address_bus;
        let first_byte = self.read_byte_from_memory(address);
        let ghost mid = self.address_bus;
        let second_byte = self.read_byte_from_memory(address.wrapping_add(1));
        proof {
            lemma_clock_frame_trans(start, mid, self.address_bus);
            if stable_address(address.wrapping_add(1)) {
                lemma_stable_read(start, mid, address.wrapping_add(1));
            }
        }
        as_word(first_byte, second_byte)
    }

    /// A machine cycle, then a write to the bus.
    pub fn store_byte_in_memory(&mut self, address: u16, byte: u8)
        requires
            old(self).wf(),
        ensures
            final(self).wf(),
            same_processor(*old(self), *final(self)),
            final(self).instruction_clock_cycles == cycled_clock(*old(self)),
            cycled_write(old(self).address_bus, final(self).address_bus, address, byte),
            wrote(old(self).address_bus, final(self).address_bus, seq![(address, byte)]),
    {
        self.step_one_machine_cycle();
        let ghost mid = self.address_bus;
        self.address_bus.write_byte(address, byte);
        assert(bus_write_result(mid, self.address_bus, address, byte));
        proof {
            lemma_wrote_one(old(self).address_bus, self.address_bus, address, byte);
        }

        if self.address_bus.processor_test_mode {
            self.record_bus_write(address, byte);
        }
    }

    /// Two writes: the low byte, then the high byte at the next address.
    pub fn store_word_in_memory(&mut self, address: u16, word: u16)
        requires
            old(self).wf(),
        ensures
            final(self).wf(),
            same_processor(*old(self), *final(self)),
            exists|mid: Cpu| {
                &&& #[trigger] cycled_write(old(self).address_bus, mid.address_bus, address, (word % 256) as u8)
                &&& mid.instruction_clock_cycles == cycled_clock(*old(self))
                &&& cycled_write(mid.address_bus, final(self).address_bus, address.wrapping_add(1), (word / 256) as u8)
                &&& final(self).instruction_clock_cycles == cycled_clock(mid)
            },
            wrote(old(self).address_bus, final(self).address_bus, seq![(address, (word % 256) as u8), (address.wrapping_add(1), (word / 256) as u8)]),
    {
        let (first_byte, second_byte) = as_bytes(word);
        self.store_byte_in_memory(address, first_byte);
        let ghost mid = *self;
        self.store_byte_in_memory(address.wrapping_add(1), second_byte);
        assert(cycled_write(old(self).address_bus, mid.address_bus, address, (word % 256) as u8));
        proof {
            lemma_wrote_one(old(self).address_bus, mid.address_bus, address, (word % 256) as u8);
            lemma_wrote_push(old(self).address_bus, mid.address_bus, self.address_bus, seq![(address, (word % 256) as u8)],
                address.wrapping_add(1), (word / 256) as u8);
            assert(seq![(address, (word % 256) as u8)].push((address.wrapping_add(1), (word / 256) as u8))
                =~= seq![(address, (word % 256) as u8), (address.wrapping_add(1), (word / 256) as u8)]);
        }
    }

    pub fn read_from_register(&self, register: &Register) -> (value: u8)
        ensures
            value == register_value(self.registers, *register),
    {
        match register {
            Register::A => self.registers.a,
            Register::B => self.registers.b,
            Register::C => self.registers.c,
            Register::D => self.registers.d,
            Register::E => self.registers.e,
            Register::F => self.registers.f,
            Register::H => self.registers.h,
            Register::L => self.registers.l,
        }
    }

    pub fn store_in_register(&mut self, register: Register, value: u8)
        ensures
            *final(self) == (Cpu { registers: with_register(old(self).registers, register, value), ..*old(self) }),
    {
        match register {
            Register::A => self.registers.a = value,
            Register::B => self.registers.b = value,
            Register::C => self.registers.c = value,
            Register::D => self.registers.d = value,
            Register::E => self.registers.e = value,
            Register::F => self.registers.f = value,
            Register::H => self.registers.h = value,
            Register::L => self.registers.l = value,
        }
    }

    pub fn read_from_register_pair(&self, register_pair: &RegisterPair) -> (value: u16)
        ensures
            value == pair_value(self.registers, *register_pair),
    {
        let first_byte = self.read_from_register(&register_pair.first);
        let second_byte = self.read_from_register(&register_pair.second);
        (first_byte as u16) * 256 + (second_byte as u16)
    }

    pub fn store_in_register_pair(&mut self, register_pair: RegisterPair, value: u16)
        ensures
            *final(self) == (Cpu { registers: with_pair(old(self).registers, register_pair, value), ..*old(self) }),
    {
        self.store_in_register(register_pair.first, (value / 256) as u8);
        self.store_in_register(register_pair.second, (value % 256) as u8);
    }

    /// Sets all four flags at once.
    pub fn set_flags(&mut self, z: bool, n: bool, h: bool, c: bool)
        ensures
            *final(self) == (Cpu { registers: Registers { f: with_flags(old(self).registers.f, z, n, h, c), ..old(self).registers }, ..*old(self) }),
    {
        let zb: u8 = if z { 0x80 } else { 0 };
        let nb: u8 = if n { 0x40 } else { 0 };
        let hb: u8 = if h { 0x20 } else { 0 };
        let cb: u8 = if c { 0x10 } else { 0 };
        self.registers.f = (self.registers.f & 0x0F) | zb | nb | hb | cb;
    }

    pub fn set_flag_z(&mut self, flag: bool)
        ensures
            *final(self) == (Cpu { registers: Registers { f: with_flags(old(self).registers.f, flag, n_flag(old(self).registers.f), h_flag(old(self).registers.f), c_flag(old(self).registers.f)), ..old(self).registers }, ..*old(self) }),
    {
        let n = self.is_n_flag_set();
        let h = self.is_h_flag_set();
        let c = self.is_c_flag_set();
        self.set_flags(flag, n, h, c);
    }

    pub fn set_flag_n(&mut self, flag: bool)
        ensures
            *final(self) == (Cpu { registers: Registers { f: with_flags(old(self).registers.f, z_flag(old(self).registers.f), flag, h_flag(old(self).registers.f), c_flag(old(self).registers.f)), ..old(self).registers }, ..*old(self) }),
    {
        let z = self.is_z_flag_set();
        let h = self.is_h_flag_set();
        let c = self.is_c_flag_set();
        self.set_flags(z, flag, h, c);
    }

    pub fn set_flag_h(&mut self, flag: bool)
        ensures
            *final(self) == (Cpu { registers: Registers { f: with_flags(old(self).registers.f, z_flag(old(self).registers.f), n_flag(old(self).registers.f), flag, c_flag(old(self).registers.f)), ..old(self).registers }, ..*old(self) }),
    {
        let z = self.is_z_flag_set();
        let n = self.is_n_flag_set();
        let c = self.is_c_flag_set();
        self.set_flags(z, n, flag, c);
    }

    pub fn set_flag_c(&mut self, flag: bool)
        ensures
            *final(self) == (Cpu { registers: Registers { f: with_flags(old(self).registers.f, z_flag(old(self).registers.f), n_flag(old(self).registers.f), h_flag(old(self).registers.f), flag), ..old(self).registers }, ..*old(self) }),
    {
        let z = self.is_z_flag_set();
        let n = self.is_n_flag_set();
        let h = self.is_h_flag_set();
        self.set_flags(z, n, h, flag);
    }

    pub fn is_z_flag_set(&self) -> (r: bool)
        ensures
            r == z_flag(self.registers.f),
    {
        crate::utils::is_bit_set(self.registers.f, 7)
    }

    pub fn is_n_flag_set(&self) -> (r: bool)
        ensures
            r == n_flag(self.registers.f),
    {
        crate::utils::is_bit_set(self.registers.f, 6)
    }

    pub fn is_h_flag_set(&self) -> (r: bool)
        ensures
            r == h_flag(self.registers.f),
    {
        crate::utils::is_bit_set(self.registers.f, 5)
    }

    pub fn is_c_flag_set(&self) -> (r: bool)
        ensures
            r == c_flag(self.registers.f),
    {
        crate::utils::is_bit_set(self.registers.f, 4)
    }

    /// Reads the byte at the program counter and moves past it.
    pub fn read_next_instruction_byte(&mut self) -> (byte: u8)
        requires
            old(self).wf(),
        ensures
            final(self).wf(),
            final(self).registers == (Registers { program_counter: old(self).registers.program_counter.wrapping_add(1), ..old(self).registers }),
            same_processor(Cpu { registers: final(self).registers, ..*old(self) }, *final(self)),
            clock_frame(old(self).address_bus, final(self).address_bus),
            known_read(old(self).address_bus, old(self).registers.program_counter) matches Some(v) ==> byte == v,
    {
        let byte = self.read_byte_from_memory(self.registers.program_counter);
        self.registers.program_counter = self.registers.program_counter.wrapping_add(1);
        byte
    }

    /// Reads the little-endian word at the program counter and moves past it.
    pub fn read_next_instruction_word(&mut self) -> (word: u16)
        requires
            old(self).wf(),
        ensures
            final(self).wf(),
            final(self).registers == (Registers { program_counter: old(self).registers.program_counter.wrapping_add(2), ..old(self).registers }),
            same_processor(Cpu { registers: final(self).registers, ..*old(self) }, *final(self)),
            clock_frame(old(self).address_bus, final(self).address_bus),
            known_word(old(self).address_bus, old(self).registers.program_counter) matches Some(w) ==> word == w,
    {
        let word = self.read_word_from_memory(self.registers.program_counter);
        self.registers.program_counter = self.registers.program_counter.wrapping_add(2);
        word
    }
}

} // verus!
