//! Minimal i8254 programmable interval timer. Only counter 0 (system timer,
//! interrupt line 0) is functional; counters 1 and 2 only keep what is
//! written to them.
use vstd::prelude::*;

verus! {

/// Oscillator frequency in Hz.
pub const PIT_FREQUENCY: u64 = 1_193_182;

/// The interrupt line that the timer raises.
pub const PIT_IRQ_LINE: u32 = 0;

/// Per-counter state.
#[derive(Clone, Copy, PartialEq, Eq, Structural, Debug)]
pub struct PitCounter {
    pub reload_value: u16,
    pub mode: u8,
    pub rw_mode: u8,
    pub latch_value: Option<u16>,
    pub read_lsb: bool,
    pub write_lsb: bool,
}

/// What a write does to the timer.
#[derive(Clone, Copy, PartialEq, Eq, Structural, Debug)]
pub enum TimerChange {
    /// The timer goes on as before.
    Keep,
    /// The timer, if it runs, is stopped.
    Stop,
    /// The timer, if it runs, is stopped and one with this interval started.
    Restart { interval_ns: u64 },
}

/// What the timer does next.
#[derive(Clone, Copy, PartialEq, Eq, Structural, Debug)]
pub enum TimerStep {
    /// Sleep for the interval.
    Sleep,
    /// Raise the interrupt line.
    Raise,
    /// End.
    End,
}

/// A counter after reset.
pub open spec fn reset_counter() -> PitCounter {
    PitCounter {
        reload_value: 0,
        mode: 0,
        rw_mode: 3,
        latch_value: None,
        read_lsb: true,
        write_lsb: true,
    }
}

/// What a read shows: the latched value, else the reload value.
pub open spec fn shown(c: PitCounter) -> u16 {
    match c.latch_value {
        Some(v) => v,
        None => c.reload_value,
    }
}

/// The byte that a read gives: the low or the high one as the access mode
/// says, in turn where it says both.
pub open spec fn read_value(c: PitCounter) -> int {
    if c.rw_mode == 1 || c.rw_mode == 3 && c.read_lsb {
        shown(c) as int % 256
    } else if c.rw_mode == 2 || c.rw_mode == 3 {
        shown(c) as int / 256
    } else {
        0
    }
}

/// The counter after a read. The latch is released with the last byte.
pub open spec fn after_read(c: PitCounter) -> PitCounter {
    if c.rw_mode == 1 || c.rw_mode == 2 {
        PitCounter { latch_value: None, ..c }
    } else if c.rw_mode == 3 && c.read_lsb {
        PitCounter { read_lsb: false, ..c }
    } else if c.rw_mode == 3 {
        PitCounter { read_lsb: true, latch_value: None, ..c }
    } else {
        c
    }
}

/// The counter after a write of one byte to its reload value.
pub open spec fn after_write(c: PitCounter, val: u8) -> PitCounter {
    if c.rw_mode == 1 {
        PitCounter { reload_value: val as u16, ..c }
    } else if c.rw_mode == 2 {
        PitCounter { reload_value: (val * 256) as u16, ..c }
    } else if c.rw_mode == 3 && c.write_lsb {
        PitCounter {
            reload_value: (c.reload_value as int / 256 * 256 + val) as u16,
            write_lsb: false,
            ..c
        }
    } else if c.rw_mode == 3 {
        PitCounter {
            reload_value: (c.reload_value as int % 256 + val * 256) as u16,
            write_lsb: true,
            ..c
        }
    } else {
        c
    }
}

/// A write of one byte completes the reload value.
pub open spec fn completes(c: PitCounter) -> bool {
    c.rw_mode == 1 || c.rw_mode == 2 || c.rw_mode == 3 && !c.write_lsb
}

/// The counter has an access mode and one of the eight modes, and is in the
/// middle of a value only where it takes both bytes.
pub open spec fn is_valid(c: PitCounter) -> bool {
    &&& 1 <= c.rw_mode <= 3
    &&& c.mode <= 7
    &&& c.rw_mode != 3 ==> c.read_lsb && c.write_lsb
}

impl PitCounter {
    /// A counter after reset: both bytes, low first.
    pub fn new() -> (c: PitCounter)
        ensures
            c == reset_counter(),
    {
        PitCounter {
            reload_value: 0,
            mode: 0,
            rw_mode: 3,
            latch_value: None,
            read_lsb: true,
            write_lsb: true,
        }
    }

    /// Read the current counter value (latched or reload).
    /// Returns one byte at a time based on rw_mode sequencing.
    pub fn read_byte(&mut self) -> (byte: u8)
        ensures
            byte == read_value(*old(self)),
            *final(self) == after_read(*old(self)),
    {
        let value: u16 = match self.latch_value {
            Some(v) => v,
            None => self.reload_value,
        };
        match self.rw_mode {
            1 => {
                self.latch_value = None;
                (value % 256) as u8
            },
            2 => {
                self.latch_value = None;
                (value / 256) as u8
            },
            3 => {
                if self.read_lsb {
                    self.read_lsb = false;
                    (value % 256) as u8
                } else {
                    self.read_lsb = true;
                    self.latch_value = None;
                    (value / 256) as u8
                }
            },
            _ => 0,
        }
    }

    /// Write one byte to the counter reload register.
    /// Returns Some(reload_value) when the full value has been written.
    pub fn write_byte(&mut self, val: u8) -> (done: Option<u16>)
        ensures
            *final(self) == after_write(*old(self), val),
            done == if completes(*old(self)) {
                Some(final(self).reload_value)
            } else {
                None
            },
    {
        match self.rw_mode {
            1 => {
                self.reload_value = val as u16;
                Some(self.reload_value)
            },
            2 => {
                self.reload_value = val as u16 * 256;
                Some(self.reload_value)
            },
            3 => {
                if self.write_lsb {
                    self.reload_value = self.reload_value / 256 * 256 + val as u16;
                    self.write_lsb = false;
                    None
                } else {
                    self.reload_value = self.reload_value % 256 + val as u16 * 256;
                    self.write_lsb = true;
                    Some(self.reload_value)
                }
            },
            _ => None,
        }
    }
}

/// Minimal i8254 PIT device. Only counter 0 generates timer interrupts, on
/// the given interrupt chip.
pub struct Pit<C> {
    counters: [PitCounter; 3],
    irq_chip: C,
}

/// Counters after a command. A read-back command is ignored; a command
/// without access mode latches the selected counter; any other one sets its
/// mode and access mode.
pub open spec fn after_command(counters: Seq<PitCounter>, val: u8) -> Seq<PitCounter> {
    let idx = val as int / 64;
    let rw_mode = val as int / 16 % 4;
    if idx == 3 {
        counters
    } else if rw_mode == 0 {
        counters.update(
            idx,
            PitCounter { latch_value: Some(counters[idx].reload_value), ..counters[idx] },
        )
    } else {
        counters.update(
            idx,
            PitCounter {
                rw_mode: rw_mode as u8,
                mode: (val as int / 2 % 8) as u8,
                write_lsb: true,
                read_lsb: true,
                ..counters[idx]
            },
        )
    }
}

/// The timer of counter 0. It runs only in the rate generator and square wave
/// modes, and only with a reload value.
pub open spec fn timer_of(c: PitCounter) -> TimerChange {
    if c.reload_value == 0 || c.mode != 2 && c.mode != 3 {
        TimerChange::Stop
    } else {
        TimerChange::Restart {
            interval_ns: (c.reload_value * 1_000_000_000 / PIT_FREQUENCY as int) as u64,
        }
    }
}

impl<C> Pit<C> {
    /// The counters.
    pub closed spec fn counters(&self) -> Seq<PitCounter> {
        self.counters@
    }

    /// The interrupt chip.
    pub closed spec fn chip(&self) -> C {
        self.irq_chip
    }

    /// All counters are valid.
    pub open spec fn wf(&self) -> bool {
        forall|i: int| 0 <= i < self.counters().len() ==> is_valid(#[trigger] self.counters()[i])
    }

    /// There are three counters.
    pub proof fn has_three_counters(&self)
        ensures
            self.counters().len() == 3,
    {
    }

    /// A timer with all counters reset, and not running.
    pub fn new(irq_chip: C) -> (pit: Pit<C>)
        ensures
            pit.counters() == seq![reset_counter(), reset_counter(), reset_counter()],
            pit.chip() == irq_chip,
            pit.wf(),
    {
        let pit = Pit {
            counters: [PitCounter::new(), PitCounter::new(), PitCounter::new()],
            irq_chip,
        };
        assert(pit.counters() =~= seq![reset_counter(), reset_counter(), reset_counter()]);
        pit
    }

    /// The interrupt chip that the timer raises its line on.
    pub fn irq_chip(&self) -> (chip: &C)
        ensures
            *chip == self.chip(),
    {
        &self.irq_chip
    }

    /// Start (or restart) the timer for counter 0.
    pub fn start_timer(&self) -> (change: TimerChange)
        ensures
            change == timer_of(self.counters()[0]),
    {
        let reload: u16 = self.counters[0].reload_value;
        if reload == 0 {
            return TimerChange::Stop;
        }
        let mode: u8 = self.counters[0].mode;
        if mode != 2 && mode != 3 {
            return TimerChange::Stop;
        }
        TimerChange::Restart { interval_ns: reload as u64 * 1_000_000_000 / PIT_FREQUENCY }
    }

    /// Handle a write to the command register (port 0x43).
    pub fn write_command(&mut self, val: u8)
        ensures
            final(self).counters() == after_command(old(self).counters(), val),
            final(self).chip() == old(self).chip(),
            old(self).wf() ==> final(self).wf(),
    {
        let counter_sel: u8 = val / 64;
        if counter_sel == 3 {
            return;
        }
        let idx: usize = counter_sel as usize;
        let rw_mode: u8 = val / 16 % 4;
        let mut counter: PitCounter = self.counters[idx];
        if rw_mode == 0 {
            counter.latch_value = Some(counter.reload_value);
        } else {
            counter.rw_mode = rw_mode;
            counter.mode = val / 2 % 8;
            counter.write_lsb = true;
            counter.read_lsb = true;
        }
        self.counters[idx] = counter;
    }

    /// Reads one byte from a port. Ports that are no counters read zero.
    pub fn read(&mut self, _vcpuid: u64, offset: u64, data: &mut [u8])
        ensures
            final(self).chip() == old(self).chip(),
            old(self).wf() ==> final(self).wf(),
            final(self).counters() == if old(data)@.len() > 0 && offset <= 2 {
                old(self).counters().update(
                    offset as int,
                    after_read(old(self).counters()[offset as int]),
                )
            } else {
                old(self).counters()
            },
            final(data)@ == if old(data)@.len() == 0 {
                old(data)@
            } else {
                old(data)@.update(
                    0,
                    if offset <= 2 {
                        read_value(old(self).counters()[offset as int]) as u8
                    } else {
                        0
                    },
                )
            },
    {
        if data.len() == 0 {
            return;
        }
        if offset <= 2 {
            let mut counter: PitCounter = self.counters[offset as usize];
            data[0] = counter.read_byte();
            self.counters[offset as usize] = counter;
        } else {
            data[0] = 0;
        }
    }

    /// Writes one byte to a port, and says what becomes of the timer.
    pub fn write(&mut self, _vcpuid: u64, offset: u64, data: &[u8]) -> (change: TimerChange)
        ensures
            final(self).chip() == old(self).chip(),
            old(self).wf() ==> final(self).wf(),
            final(self).counters() == if data@.len() == 0 || offset > 3 {
                old(self).counters()
            } else if offset == 3 {
                after_command(old(self).counters(), data@[0])
            } else {
                old(self).counters().update(
                    offset as int,
                    after_write(old(self).counters()[offset as int], data@[0]),
                )
            },
            change == if data@.len() > 0 && offset == 0 && completes(old(self).counters()[0]) {
                timer_of(final(self).counters()[0])
            } else {
                TimerChange::Keep
            },
    {
        if data.len() == 0 {
            return TimerChange::Keep;
        }
        let val: u8 = data[0];
        if offset <= 2 {
            let idx: usize = offset as usize;
            let mut counter: PitCounter = self.counters[idx];
            let done = counter.write_byte(val);
            self.counters[idx] = counter;
            if done.is_some() && idx == 0 {
                return self.start_timer();
            }
        } else if offset == 3 {
            self.write_command(val);
        }
        TimerChange::Keep
    }
}

/// What a timer does next, whether it has just slept and while it has not
/// been stopped.
pub fn timer_step(slept: bool, running: bool) -> (step: TimerStep)
    ensures
        step == if !running {
            TimerStep::End
        } else if slept {
            TimerStep::Raise
        } else {
            TimerStep::Sleep
        },
{
    if !running {
        TimerStep::End
    } else if slept {
        TimerStep::Raise
    } else {
        TimerStep::Sleep
    }
}

/// Counters are valid after reset and stay so, whatever is read from them,
/// written to them or commanded.
pub proof fn counters_stay_valid(counters: Seq<PitCounter>, idx: int, val: u8)
    requires
        counters.len() == 3,
        forall|i: int| 0 <= i < 3 ==> is_valid(#[trigger] counters[i]),
        0 <= idx < 3,
    ensures
        is_valid(reset_counter()),
        is_valid(after_read(counters[idx])),
        is_valid(after_write(counters[idx], val)),
        is_valid(after_command(counters, val)[idx]),
        after_command(counters, val).len() == 3,
{
}

/// A valid counter always answers: a byte that is written completes the
/// reload value or is the first of two, and a byte that is read is one of
/// the shown value.
pub proof fn valid_counters_answer(c: PitCounter, val: u8)
    requires
        is_valid(c),
    ensures
        completes(c) || completes(after_write(c, val)),
        read_value(c) == shown(c) as int % 256 || read_value(c) == shown(c) as int / 256,
{
}

/// The reload value of a counter whose two bytes are written, low first, is
/// made of those bytes, and two reads give them back in the same order.
pub proof fn reads_give_back_writes(c: PitCounter, low: u8, high: u8)
    requires
        c.rw_mode == 3,
        c.write_lsb,
        c.read_lsb,
        c.latch_value is None,
    ensures
        ({
            let written = after_write(after_write(c, low), high);
            &&& completes(after_write(c, low)) && !completes(c)
            &&& written.reload_value == low + 256 * high
            &&& read_value(written) == low
            &&& read_value(after_read(written)) == high
            &&& after_read(after_read(written)) == written
        }),
{
}

/// A latched counter shows the value of the moment of the latch, whatever is
/// written before it is read, and then the reload value again.
pub proof fn latch_holds_until_read(counters: Seq<PitCounter>, idx: int, low: u8, high: u8)
    requires
        counters.len() == 3,
        0 <= idx < 3,
        counters[idx].rw_mode == 3,
        counters[idx].write_lsb,
        counters[idx].read_lsb,
    ensures
        ({
            let latched = after_command(counters, (idx * 64) as u8)[idx];
            let written = after_write(after_write(latched, low), high);
            let v = counters[idx].reload_value;
            &&& read_value(written) + 256 * read_value(after_read(written)) == v
            &&& shown(after_read(after_read(written))) == low + 256 * high
        }),
{
    let latched = after_command(counters, (idx * 64) as u8)[idx];
    assert((idx * 64) as u8 as int / 64 == idx);
    assert((idx * 64) as u8 as int / 16 % 4 == 0);
    assert(latched.latch_value == Some(counters[idx].reload_value));
    let written = after_write(after_write(latched, low), high);
    assert(written.latch_value == latched.latch_value);
    assert(written.reload_value == low + 256 * high);
}

/// A command reaches one counter only.
pub proof fn commands_reach_one_counter(counters: Seq<PitCounter>, val: u8, idx: int)
    requires
        counters.len() == 3,
        0 <= idx < 3,
        idx != val as int / 64,
    ensures
        after_command(counters, val)[idx] == counters[idx],
        after_command(counters, val).len() == 3,
{
}

/// The timer of a counter ticks in time: it runs exactly in the two periodic
/// modes with a reload value, and its interval is the time of as many ticks of
/// the oscillator, 1193182 of which make a second, cut to whole nanoseconds.
pub open spec fn ticks_in_time(c: PitCounter, change: TimerChange) -> bool {
    let ticks = c.reload_value as int;
    match change {
        TimerChange::Restart { interval_ns } => {
            &&& ticks > 0 && (c.mode == 2 || c.mode == 3)
            &&& interval_ns * 1_193_182 <= ticks * 1_000_000_000 < (interval_ns + 1) * 1_193_182
        },
        TimerChange::Stop => ticks == 0 || c.mode < 2 || c.mode > 3,
        TimerChange::Keep => false,
    }
}

proof fn lemma_timer_ticks_in_time(c: PitCounter)
    ensures
        ticks_in_time(c, timer_of(c)),
{
    let ticks = c.reload_value as int;
    let ns = ticks * 1_000_000_000 / 1_193_182;
    assert(0 <= ns <= 65_535 * 1_000_000_000);
}

/// The interval is the time of the reload value's ticks of the oscillator, in
/// either of the periodic modes.
pub proof fn interval_is_the_time_of_the_ticks<C>(pit: Pit<C>, change: TimerChange)
    requires
        call_ensures(Pit::<C>::start_timer, (&pit,), change),
    ensures
        ticks_in_time(pit.counters()[0], change),
{
    lemma_timer_ticks_in_time(pit.counters()[0]);
}

/// A longer reload value gives no shorter interval, and ten times the reload
/// value ten times the interval, but for less than ten nanoseconds.
pub proof fn intervals_scale_with_the_reload_value<C>(
    a: Pit<C>,
    b: Pit<C>,
    short_ns: u64,
    long_ns: u64,
)
    requires
        call_ensures(
            Pit::<C>::start_timer,
            (&a,),
            TimerChange::Restart { interval_ns: short_ns },
        ),
        call_ensures(Pit::<C>::start_timer, (&b,), TimerChange::Restart { interval_ns: long_ns }),
        a.counters()[0].reload_value <= b.counters()[0].reload_value,
    ensures
        short_ns <= long_ns,
        b.counters()[0].reload_value == 10 * a.counters()[0].reload_value ==> 10 * short_ns
            <= long_ns < 10 * short_ns + 10,
{
    interval_is_the_time_of_the_ticks(a, TimerChange::Restart { interval_ns: short_ns });
    interval_is_the_time_of_the_ticks(b, TimerChange::Restart { interval_ns: long_ns });
}

/// A command selects the counter in bits 6 and 7, the bytes that are accessed
/// in bits 4 and 5 and the mode in bits 1 to 3. Without bytes it latches; with
/// selection 3 it does nothing. It never changes the reload value.
pub proof fn commands_are_read_by_bits<C>(pit: &mut Pit<C>, val: u8, i: int)
    requires
        call_ensures(Pit::<C>::write_command, (pit, val), ()),
        0 <= i < 3,
    ensures
        ({
            let before = old(pit).counters()[i];
            let after = final(pit).counters()[i];
            let bytes = (val >> 4) & 3;
            &&& after.reload_value == before.reload_value
            &&& (val >> 6) != i ==> after == before
            &&& (val >> 6) == i && bytes == 0 ==> after.latch_value == Some(before.reload_value)
                && after.mode == before.mode && after.rw_mode == before.rw_mode
                && after.read_lsb == before.read_lsb && after.write_lsb == before.write_lsb
            &&& (val >> 6) == i && bytes != 0 ==> after.rw_mode == bytes && after.mode == (val
                >> 1) & 7 && after.read_lsb && after.write_lsb && after.latch_value
                == before.latch_value
        }),
{
    old(pit).has_three_counters();
    assert(val >> 6 == val / 64 && (val >> 4) & 3 == val / 16 % 4 && (val >> 1) & 7 == val / 2 % 8
        && val / 64 < 4) by (bit_vector);
}

/// A write to the port of a counter reaches that counter alone, and one to
/// the port behind them is a command. The timer changes only with the byte
/// that completes the reload value of counter 0.
pub proof fn ports_reach_their_counters<C>(
    pit: &mut Pit<C>,
    vcpu: u64,
    offset: u64,
    data: &[u8],
    change: TimerChange,
    i: int,
)
    requires
        call_ensures(Pit::<C>::write, (pit, vcpu, offset, data), change),
        old(pit).wf(),
        data@.len() > 0,
        0 <= i < 3,
    ensures
        ({
            let before = old(pit).counters()[i];
            let after = final(pit).counters()[i];
            let val = data@[0];
            &&& offset != 3 && offset != i ==> after == before
            &&& offset == i && before.rw_mode == 1 ==> after.reload_value == val
            &&& offset == i && before.rw_mode == 2 ==> after.reload_value == 256 * val
            &&& offset == i && before.rw_mode == 3 && before.write_lsb ==> after.reload_value
                - before.reload_value == val - before.reload_value % 256 && !after.write_lsb
            &&& offset == i && before.rw_mode == 3 && !before.write_lsb ==> after.reload_value
                == before.reload_value % 256 + 256 * val && after.write_lsb
            &&& offset == i ==> after.mode == before.mode && after.rw_mode == before.rw_mode
                && after.latch_value == before.latch_value && after.read_lsb == before.read_lsb
            &&& change is Keep <==> offset != 0 || old(pit).counters()[0].rw_mode == 3
                && old(pit).counters()[0].write_lsb
            &&& change is Keep || ticks_in_time(final(pit).counters()[0], change)
        }),
{
    old(pit).has_three_counters();
    lemma_timer_ticks_in_time(final(pit).counters()[0]);
}

/// Programming counter 0 by a command that asks for both bytes and two writes,
/// the low byte first, starts the timer for the value made of the bytes in
/// the mode of the command, whatever the timer did before.
pub proof fn programmed_timer_runs<C>(
    commanded: &mut Pit<C>,
    halfway: &mut Pit<C>,
    complete: &mut Pit<C>,
    command: &[u8],
    low: &[u8],
    high: &[u8],
    changes: (TimerChange, TimerChange, TimerChange),
)
    requires
        call_ensures(Pit::<C>::write, (commanded, 0, 3, command), changes.0),
        call_ensures(Pit::<C>::write, (halfway, 0, 0, low), changes.1),
        call_ensures(Pit::<C>::write, (complete, 0, 0, high), changes.2),
        *old(halfway) == *final(commanded),
        *old(complete) == *final(halfway),
        command@.len() == 1,
        low@.len() == 1,
        high@.len() == 1,
        command@[0] >> 6 == 0,
        (command@[0] >> 4) & 3 == 3,
    ensures
        ({
            let c = final(complete).counters()[0];
            &&& changes.0 is Keep && changes.1 is Keep
            &&& c.reload_value == low@[0] + 256 * high@[0]
            &&& c.mode == (command@[0] >> 1) & 7
            &&& ticks_in_time(c, changes.2)
        }),
{
    let val = command@[0];
    old(commanded).has_three_counters();
    assert(val >> 6 == val / 64 && (val >> 4) & 3 == val / 16 % 4 && (val >> 1) & 7 == val / 2 % 8)
        by (bit_vector);
    lemma_timer_ticks_in_time(final(complete).counters()[0]);
}

/// A read of a counter's port gives a byte of what the counter shows: the
/// latched value, or the reload value without one. It changes no other
/// counter and neither the reload value nor the mode. Other ports read zero.
pub proof fn reads_show_their_counter<C>(
    pit: &mut Pit<C>,
    vcpu: u64,
    offset: u64,
    data: &mut [u8],
    i: int,
)
    requires
        call_ensures(Pit::<C>::read, (pit, vcpu, offset, data), ()),
        old(pit).wf(),
        old(data)@.len() > 0,
        0 <= i < 3,
    ensures
        final(data)@.len() == old(data)@.len(),
        forall|k: int| 1 <= k < old(data)@.len() ==> final(data)@[k] == old(data)@[k],
        offset > 2 ==> final(data)@[0] == 0,
        ({
            let before = old(pit).counters()[i];
            let after = final(pit).counters()[i];
            let value = match before.latch_value {
                Some(v) => v as int,
                None => before.reload_value as int,
            };
            let low = before.rw_mode == 1 || before.rw_mode == 3 && before.read_lsb;
            &&& offset != i ==> after == before
            &&& offset == i && low ==> (value - final(data)@[0]) % 256 == 0
            &&& offset == i && !low ==> 256 * final(data)@[0] <= value < 256 * final(data)@[0] + 256
            &&& after.reload_value == before.reload_value && after.mode == before.mode
                && after.rw_mode == before.rw_mode && after.write_lsb == before.write_lsb
            &&& offset == i ==> (after.latch_value == if before.rw_mode == 3 && before.read_lsb {
                before.latch_value
            } else {
                None
            })
            &&& offset == i && before.rw_mode == 3 ==> after.read_lsb == !before.read_lsb
        }),
{
    old(pit).has_three_counters();
}

/// A timer sleeps, then raises its line, and so on until it is stopped.
pub proof fn timer_alternates(slept: bool, running: bool, step: TimerStep)
    requires
        call_ensures(timer_step, (slept, running), step),
    ensures
        step is End <==> !running,
        step is Raise <==> running && slept,
        step is Sleep <==> running && !slept,
{
}

/// A counter by itself takes and gives bytes as its access mode says: the low
/// byte, the high byte, or both in turn, low first.
pub proof fn counters_take_bytes_in_turn(
    c: &mut PitCounter,
    val: u8,
    done: Option<u16>,
)
    requires
        call_ensures(PitCounter::write_byte, (c, val), done),
        is_valid(*old(c)),
    ensures
        old(c).rw_mode == 1 ==> final(c).reload_value == val,
        old(c).rw_mode == 2 ==> final(c).reload_value == 256 * val,
        old(c).rw_mode == 3 && old(c).write_lsb ==> final(c).reload_value - old(c).reload_value
            == val - old(c).reload_value % 256,
        old(c).rw_mode == 3 && !old(c).write_lsb ==> final(c).reload_value == old(c).reload_value
            % 256 + 256 * val,
        done is None <==> old(c).rw_mode == 3 && old(c).write_lsb,
        done matches Some(v) ==> v == final(c).reload_value,
        final(c).mode == old(c).mode && final(c).latch_value == old(c).latch_value,
{
}

/// A new timer has all counters at zero, taking both bytes, low first, in a
/// mode in which none runs.
pub proof fn new_timers_do_not_run<C>(chip: C, pit: Pit<C>, change: TimerChange, i: int)
    requires
        call_ensures(Pit::<C>::new, (chip,), pit),
        call_ensures(Pit::<C>::start_timer, (&pit,), change),
        0 <= i < 3,
    ensures
        change is Stop,
        pit.chip() == chip,
        pit.counters()[i].reload_value == 0,
        pit.counters()[i].rw_mode == 3 && pit.counters()[i].write_lsb && pit.counters()[i].read_lsb,
        pit.counters()[i].latch_value is None,
{
}

} // verus!
