//! The timer peripheral: 128 bytes of RAM, the interval timer and the two
//! switch ports.
use vstd::prelude::*;
use crate::fault::{BusAccessable, Fault};

verus! {

/// The interval timer: an 8-bit down-counter decremented once every
/// `interval` cycles.
#[derive(Clone, Copy, Debug, PartialEq, Eq, Structural)]
pub struct IntervalTimer {
    /// The counter's value (INTIM).
    pub intim: u8,
    /// Cycles between decrements: 1, 8, 64 or 1024.
    pub interval: u16,
    /// False once the counter has passed 0: it then drops every cycle.
    pub active: bool,
    /// Cycles left until the next decrement.
    pub counter: u16,
    /// Set by a write to an interval register; the first decrement comes one
    /// cycle after it.
    pub trigger: bool,
}

pub open spec fn is_interval(n: u16) -> bool {
    n == 1 || n == 8 || n == 64 || n == 1024
}

impl IntervalTimer {
    pub open spec fn wf(self) -> bool {
        self.counter >= 1 && is_interval(self.interval)
    }

    /// One cycle of the timer.
    pub open spec fn tick_spec(self) -> IntervalTimer {
        if self.trigger {
            IntervalTimer { counter: 1, active: true, trigger: false, ..self }
        } else if self.active {
            if self.counter == 1 {
                let v = (if self.intim == 0 { 0xFFu8 } else { (self.intim - 1) as u8 });
                if v == 0xFF {
                    IntervalTimer { intim: v, active: false, counter: 1, ..self }
                } else {
                    IntervalTimer { intim: v, counter: self.interval, ..self }
                }
            } else {
                IntervalTimer { counter: (self.counter - 1) as u16, ..self }
            }
        } else {
            IntervalTimer { intim: (if self.intim == 0 { 0xFFu8 } else { (self.intim - 1) as u8 }), ..self }
        }
    }
}

/// The timer after a write of `value` to the register that selects
/// `interval`.
pub open spec fn armed(t: IntervalTimer, value: u8, interval: u16) -> IntervalTimer {
    IntervalTimer { intim: value, interval, trigger: true, ..t }
}

/// The interval selected by a write to one of the four timer registers.
pub open spec fn interval_of(addr: u16) -> u16 {
    if addr == 0x294 { 1 } else if addr == 0x295 { 8 } else if addr == 0x296 { 64 } else { 1024 }
}

/// `n` cycles of the timer.
pub open spec fn timer_ticks(t: IntervalTimer, n: nat) -> IntervalTimer
    decreases n,
{
    if n == 0 { t } else { timer_ticks(t, (n - 1) as nat).tick_spec() }
}

proof fn lemma_one_tick(t: IntervalTimer)
    ensures
        timer_ticks(t, 1) == t.tick_spec(),
{
    reveal_with_fuel(timer_ticks, 2);
}

proof fn lemma_ticks_split(t: IntervalTimer, a: nat, b: nat)
    ensures
        timer_ticks(t, a + b) == timer_ticks(timer_ticks(t, a), b),
    decreases b,
{
    if b > 0 {
        lemma_ticks_split(t, a, (b - 1) as nat);
        assert(timer_ticks(t, a + b) == timer_ticks(t, (a + b - 1) as nat).tick_spec());
    }
}

/// Counting by an interval, the cycles before the next decrement run out
/// without changing the counter's value.
proof fn lemma_wait(t: IntervalTimer, n: nat)
    requires
        t.active,
        !t.trigger,
        t.counter == n + 1,
    ensures
        timer_ticks(t, n) == (IntervalTimer { counter: 1, ..t }),
    decreases n,
{
    if n > 0 {
        let next = t.tick_spec();
        assert(next == (IntervalTimer { counter: n as u16, ..t }));
        lemma_wait(next, (n - 1) as nat);
        lemma_ticks_split(t, 1, (n - 1) as nat);
        lemma_one_tick(t);
    }
}

/// One interval: a decrement, then the wait for the next.
proof fn lemma_interval(t: IntervalTimer)
    requires
        t.wf(),
        t.active,
        !t.trigger,
        t.counter == 1,
        t.intim > 0,
    ensures
        timer_ticks(t, t.interval as nat) == (IntervalTimer { intim: (t.intim - 1) as u8, ..t }),
{
    let next = t.tick_spec();
    assert(next == (IntervalTimer { intim: (t.intim - 1) as u8, counter: t.interval, ..t }));
    lemma_wait(next, (t.interval - 1) as nat);
    lemma_ticks_split(t, 1, (t.interval - 1) as nat);
    lemma_one_tick(t);
}

proof fn lemma_countdown(t: IntervalTimer, j: nat)
    requires
        t.wf(),
        t.active,
        !t.trigger,
        t.counter == 1,
        j <= t.intim,
    ensures
        timer_ticks(t, (t.interval * j) as nat) == (IntervalTimer { intim: (t.intim - j) as u8, ..t }),
    decreases j,
{
    if j > 0 {
        lemma_countdown(t, (j - 1) as nat);
        let mid = IntervalTimer { intim: (t.intim - (j - 1)) as u8, ..t };
        lemma_interval(mid);
        assert(t.interval * j == t.interval * (j - 1) + t.interval) by (nonlinear_arith);
        lemma_ticks_split(t, (t.interval * (j - 1)) as nat, t.interval as nat);
    }
}

/// A write of `v` to the register of interval `k`: after 1 + k * v cycles
/// the counter reads 0; on the next cycle it passes 0 to 0xFF and from then
/// on drops every cycle.
pub proof fn lemma_timer_underflow(t: IntervalTimer, v: u8, k: u16)
    requires
        t.wf(),
        is_interval(k),
    ensures
        timer_ticks(armed(t, v, k), (1 + k * v) as nat).intim == 0,
        timer_ticks(armed(t, v, k), (2 + k * v) as nat).intim == 0xFF,
        !timer_ticks(armed(t, v, k), (2 + k * v) as nat).active,
{
    let a = armed(t, v, k);
    let start = a.tick_spec();
    lemma_one_tick(a);
    lemma_countdown(start, v as nat);
    lemma_ticks_split(a, 1, (k * v) as nat);
    let zero = timer_ticks(a, (1 + k * v) as nat);
    assert(zero == (IntervalTimer { intim: 0, ..start }));
    assert(timer_ticks(a, (2 + k * v) as nat) == zero.tick_spec());
}

pub struct PiaView {
    pub ram: Seq<u8>,
    pub timer: IntervalTimer,
}

/// What a write does: RAM at 0x80..=0xFF, the four interval registers at
/// 0x294..=0x297. Any other register faults.
pub open spec fn pia_write(s: PiaView, addr: u16, data: u8) -> Result<PiaView, Fault> {
    if 0x80 <= addr <= 0xFF {
        Ok(PiaView { ram: s.ram.update(addr - 0x80, data), ..s })
    } else if 0x294 <= addr <= 0x297 {
        Ok(PiaView { timer: armed(s.timer, data, interval_of(addr)), ..s })
    } else {
        Err(Fault::UnsupportedRegister(addr))
    }
}

/// The value a read returns: RAM, the two switch ports at their fixed values,
/// or the timer's counter. Other registers fault.
pub open spec fn pia_read_value(s: PiaView, addr: u16) -> Result<u8, Fault> {
    if 0x80 <= addr <= 0xFF {
        Ok(s.ram[addr - 0x80])
    } else if addr == 0x280 {
        Ok(0xFF)
    } else if addr == 0x282 {
        Ok(0x3F)
    } else if addr == 0x284 {
        Ok(s.timer.intim)
    } else {
        Err(Fault::UnsupportedRegister(addr))
    }
}

/// The state after a read: reading the counter sets it back to counting by
/// its interval; no other read changes anything.
pub open spec fn pia_after_read(s: PiaView, addr: u16) -> PiaView {
    if addr == 0x284 {
        PiaView { timer: IntervalTimer { active: true, ..s.timer }, ..s }
    } else {
        s
    }
}

pub struct Pia {
    pub ram: Vec<u8>,
    pub timer: IntervalTimer,
}

impl View for Pia {
    type V = PiaView;

    open spec fn view(&self) -> PiaView {
        PiaView { ram: self.ram@, timer: self.timer }
    }
}

impl Pia {
    pub open spec fn wf(&self) -> bool {
        self.ram@.len() == 128 && self.timer.wf()
    }

    /// One CPU-rate cycle of the timer.
    pub fn cycle(&mut self)
        requires
            old(self).wf(),
        ensures
            final(self).wf(),
            final(self).ram@ == old(self).ram@,
            final(self).timer == old(self).timer.tick_spec(),
    {
        if self.timer.trigger {
            self.timer.counter = 1;
            self.timer.active = true;
            self.timer.trigger = false;
        } else if self.timer.active {
            self.timer.counter = self.timer.counter - 1;
            if self.timer.counter == 0 {
                self.timer.intim = self.timer.intim.wrapping_sub(1);
                if self.timer.intim == 0xFF {
                    self.timer.active = false;
                    self.timer.counter = 1;
                } else {
                    self.timer.counter = self.timer.interval;
                }
            }
        } else {
            self.timer.intim = self.timer.intim.wrapping_sub(1);
        }
    }

    fn setup_intim(&mut self, intim: u8, interval: u16)
        requires
            is_interval(interval),
        ensures
            final(self).ram@ == old(self).ram@,
            final(self).timer == armed(old(self).timer, intim, interval),
    {
        self.timer.intim = intim;
        self.timer.interval = interval;
        self.timer.trigger = true;
    }

    /// The counter's value, read without the side effect of a bus read.
    pub fn intim(&self) -> (r: u8)
        ensures
            r == self.timer.intim,
    {
        self.timer.intim
    }

    /// Whether the counter has passed 0 and now drops every cycle.
    pub fn is_free_running(&self) -> (r: bool)
        ensures
            r == !self.timer.active,
    {
        !self.timer.active
    }
}

impl Default for Pia {
    /// RAM cleared; the counter at 0x0A, counting by 1024.
    fn default() -> (r: Pia)
        ensures
            r.wf(),
            forall|i: int| 0 <= i < 128 ==> r.ram@[i] == 0,
            r.timer == (IntervalTimer { intim: 0x0A, interval: 1024, active: true, counter: 1, trigger: false }),
    {
        Pia {
            ram: crate::memory::zeroed_bytes(128),
            timer: IntervalTimer { intim: 0x0A, interval: 1024, active: true, counter: 1, trigger: false },
        }
    }
}

impl BusAccessable for Pia {
    open spec fn valid(&self) -> bool {
        self.wf()
    }

    fn write(&mut self, addr: u16, data: u8) -> (r: Result<(), Fault>)
        ensures
            r is Ok <==> pia_write(old(self)@, addr, data) is Ok,
            r is Ok ==> final(self)@ == pia_write(old(self)@, addr, data)->Ok_0,
            r is Err ==> r->Err_0 == pia_write(old(self)@, addr, data)->Err_0 && *final(self) == *old(self),
    {
        if 0x80 <= addr && addr <= 0xFF {
            self.ram.set((addr - 0x80) as usize, data);
            Ok(())
        } else if addr == 0x294 {
            self.setup_intim(data, 1);
            Ok(())
        } else if addr == 0x295 {
            self.setup_intim(data, 8);
            Ok(())
        } else if addr == 0x296 {
            self.setup_intim(data, 64);
            Ok(())
        } else if addr == 0x297 {
            self.setup_intim(data, 1024);
            Ok(())
        } else {
            Err(Fault::UnsupportedRegister(addr))
        }
    }

    fn read(&mut self, addr: u16) -> (r: Result<u8, Fault>)
        ensures
            r == pia_read_value(old(self)@, addr),
            r is Ok ==> final(self)@ == pia_after_read(old(self)@, addr),
            r is Err ==> *final(self) == *old(self),
    {
        if 0x80 <= addr && addr <= 0xFF {
            Ok(self.ram[(addr - 0x80) as usize])
        } else if addr == 0x280 {
            Ok(0xFF)
        } else if addr == 0x282 {
            Ok(0x3F)
        } else if addr == 0x284 {
            self.timer.active = true;
            Ok(self.timer.intim)
        } else {
            Err(Fault::UnsupportedRegister(addr))
        }
    }
}

} // verus!
