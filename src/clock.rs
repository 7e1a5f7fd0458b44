//! The master clock: one oscillator tick of the video chip, which renders,
//! gates the CPU and, on every third tick, clocks the CPU and the timer.
use vstd::prelude::*;
use crate::bus::{unit_outcome, Bus, BusView};
use crate::cpu::{Cpu, CpuView};
use crate::engine::cycle_spec;
use crate::fault::Fault;
use crate::ops::with_cpu;
use crate::pia::PiaView;
use crate::tia::{next_count, CycleCounter, Tia, TiaRegs, TiaView, FRAME_PIXELS, FRAME_LINES, LINE_CLOCKS};

verus! {

/// The counters when a new frame begins: the scanline and the frame's CPU
/// cycle count restart, the frame count advances.
pub open spec fn frame_start(c: CycleCounter) -> CycleCounter {
    CycleCounter { frame_cpu_counter: 0, scanline: 0, frame_counter: next_count(c.frame_counter), ..c }
}

/// The end of a tick: the oscillator advances; a new scanline releases
/// WSYNC; a VSYNC rising edge latched during the tick starts a frame.
pub open spec fn end_of_tick(t: TiaView) -> TiaView {
    let c = t.cycles.osc_spec();
    let r = if c.color_clock == 0 { TiaRegs { wsync: false, ..t.regs } } else { t.regs };
    if r.vsync_trigger {
        TiaView { regs: TiaRegs { vsync_trigger: false, ..r }, cycles: frame_start(c), ..t }
    } else {
        TiaView { regs: r, cycles: c, ..t }
    }
}

/// The CPU and then the timer, each one cycle, counted in the frame's CPU
/// cycles.
pub open spec fn phi_spec(m: BusView) -> Result<BusView, Fault> {
    let counted = BusView {
        tia: TiaView {
            cycles: CycleCounter { frame_cpu_counter: next_count(m.tia.cycles.frame_cpu_counter), ..m.tia.cycles },
            ..m.tia
        },
        ..m
    };
    match cycle_spec(counted) {
        Err(f) => Err(f),
        Ok(m2) => Ok(BusView { pia: PiaView { timer: m2.pia.timer.tick_spec(), ..m2.pia }, ..m2 }),
    }
}

/// One oscillator tick of the whole machine.
pub open spec fn tick_spec(m: BusView) -> Result<BusView, Fault> {
    let drawn = BusView { tia: Tia::render_spec(m.tia), ..m };
    let gated = with_cpu(drawn, CpuView { rdy: !drawn.tia.regs.wsync, ..drawn.cpu });
    let clocked = if gated.tia.cycles.div3 == 0 { phi_spec(gated) } else { Ok(gated) };
    match clocked {
        Err(f) => Err(f),
        Ok(m2) => Ok(BusView { tia: end_of_tick(m2.tia), ..m2 }),
    }
}

/// Clocks the CPU and then the timer.
fn phi(bus: &mut Bus) -> (r: Result<(), Fault>)
    requires
        old(bus).wf(),
    ensures
        final(bus).wf(),
        unit_outcome(r, final(bus)@, phi_spec(old(bus)@)),
{
    bus.tia.cycles.frame_cpu_counter = bus.tia.cycles.frame_cpu_counter.wrapping_add(1);
    match Cpu::cycle(bus) {
        Ok(()) => {},
        Err(f) => return Err(f),
    }
    bus.pia.cycle();
    Ok(())
}

fn close_tick(tia: &mut Tia)
    requires
        old(tia).wf(),
    ensures
        final(tia).wf(),
        final(tia)@ == end_of_tick(old(tia)@),
{
    tia.cycles.osc_cycle();
    if tia.cycles.color_clock == 0 {
        tia.regs.wsync = false;
    }
    if tia.regs.vsync_trigger {
        tia.cycles.frame_cpu_counter = 0;
        tia.cycles.scanline = 0;
        tia.cycles.frame_counter = tia.cycles.frame_counter.wrapping_add(1);
        tia.regs.vsync_trigger = false;
    }
}

impl Tia {
    /// One oscillator tick: draws the pixel under the beam, sets the CPU's
    /// ready line from WSYNC, clocks the CPU and then the timer when the
    /// divide-by-3 counter is 0, and advances the beam.
    pub fn cycle(bus: &mut Bus) -> (r: Result<(), Fault>)
        requires
            old(bus).wf(),
        ensures
            final(bus).wf(),
            unit_outcome(r, final(bus)@, tick_spec(old(bus)@)),
    {
        bus.tia.render();
        bus.cpu.rdy = !bus.tia.regs.wsync;
        if bus.tia.cycles.div3 == 0 {
            match phi(bus) {
                Ok(()) => {},
                Err(f) => return Err(f),
            }
        }
        close_tick(&mut bus.tia);
        Ok(())
    }
}

/// `n` oscillator ticks of the beam counters.
pub open spec fn osc_ticks(c: CycleCounter, n: nat) -> CycleCounter
    decreases n,
{
    if n == 0 { c } else { osc_ticks(c, (n - 1) as nat).osc_spec() }
}

proof fn lemma_osc_step(c: CycleCounter)
    requires
        c.wf(),
    ensures
        c.osc_spec().wf(),
        c.osc_spec().position() == (c.position() + 1) % (FRAME_PIXELS as int),
        c.osc_spec().frame_counter == c.frame_counter,
{
    let n = c.osc_spec();
    assert(c.position() < FRAME_PIXELS) by (nonlinear_arith)
        requires
            c.scanline < FRAME_LINES,
            c.color_clock < LINE_CLOCKS,
            c.position() == c.scanline * LINE_CLOCKS + c.color_clock,
    ;
    if c.color_clock + 1 == LINE_CLOCKS {
        assert(c.position() + 1 == (c.scanline + 1) * LINE_CLOCKS) by (nonlinear_arith)
            requires
                c.position() == c.scanline * LINE_CLOCKS + c.color_clock,
                c.color_clock + 1 == LINE_CLOCKS,
        ;
        if c.scanline + 1 == FRAME_LINES {
            assert(c.position() + 1 == FRAME_PIXELS);
        } else {
            assert(n.position() == (c.scanline + 1) * LINE_CLOCKS);
            assert(n.position() < FRAME_PIXELS) by (nonlinear_arith)
                requires
                    n.position() == (c.scanline + 1) * LINE_CLOCKS,
                    c.scanline + 1 < FRAME_LINES,
            ;
        }
    }
}

proof fn lemma_osc_ticks(c: CycleCounter, n: nat)
    requires
        c.wf(),
    ensures
        osc_ticks(c, n).wf(),
        osc_ticks(c, n).position() == (c.position() + n) % (FRAME_PIXELS as int),
        osc_ticks(c, n).frame_counter == c.frame_counter,
    decreases n,
{
    if n > 0 {
        lemma_osc_ticks(c, (n - 1) as nat);
        let prev = osc_ticks(c, (n - 1) as nat);
        lemma_osc_step(prev);
        assert(((c.position() + (n - 1)) % (FRAME_PIXELS as int) + 1) % (FRAME_PIXELS as int)
            == (c.position() + n) % (FRAME_PIXELS as int)) by {
            vstd::arithmetic::div_mod::lemma_add_mod_noop(c.position() + (n - 1), 1, FRAME_PIXELS as int);
            vstd::arithmetic::div_mod::lemma_small_mod(1, FRAME_PIXELS as nat);
        };
    }
}

/// `n` ends of tick of the video chip, with no register writes between.
pub open spec fn tia_ticks(t: TiaView, n: nat) -> TiaView
    decreases n,
{
    if n == 0 { t } else { end_of_tick(tia_ticks(t, (n - 1) as nat)) }
}

proof fn lemma_tia_ticks_first(t: TiaView, n: nat)
    ensures
        tia_ticks(t, n + 1) == tia_ticks(end_of_tick(t), n),
    decreases n,
{
    if n == 0 {
        reveal_with_fuel(tia_ticks, 2);
    } else {
        lemma_tia_ticks_first(t, (n - 1) as nat);
    }
}

/// With no edge latched, the counters just follow the oscillator.
proof fn lemma_quiet_ticks(t: TiaView, n: nat)
    requires
        !t.regs.vsync_trigger,
    ensures
        tia_ticks(t, n).cycles == osc_ticks(t.cycles, n),
        !tia_ticks(t, n).regs.vsync_trigger,
    decreases n,
{
    if n > 0 {
        lemma_quiet_ticks(t, (n - 1) as nat);
    }
}

/// A VSYNC rising edge latched at the start of a scanline starts a frame at
/// the end of that tick, whatever VSYNC's level. With no further VSYNC
/// write, three frames' worth of oscillator ticks (228 x 262 x 3) after the
/// edge the beam is back at scanline 0, colour-clock 0, and the frame count
/// has advanced exactly once.
pub proof fn lemma_frame_period(t: TiaView)
    requires
        t.regs.vsync_trigger,
        t.cycles.wf(),
        t.cycles.color_clock == 0,
    ensures
        tia_ticks(t, 3 * FRAME_PIXELS as nat).cycles.scanline == 0,
        tia_ticks(t, 3 * FRAME_PIXELS as nat).cycles.color_clock == 0,
        tia_ticks(t, 3 * FRAME_PIXELS as nat).cycles.frame_counter == next_count(t.cycles.frame_counter),
{
    let first = end_of_tick(t);
    let s = first.cycles;
    assert(s == frame_start(t.cycles.osc_spec()));
    assert(!first.regs.vsync_trigger);
    assert(s.position() == 1);
    let n = (3 * FRAME_PIXELS - 1) as nat;
    lemma_tia_ticks_first(t, n);
    lemma_quiet_ticks(first, n);
    lemma_osc_ticks(s, n);
    let e = osc_ticks(s, n);
    assert((1 + n as int) % (FRAME_PIXELS as int) == 0);
    assert(e.position() == 0);
    assert(e.scanline == 0 && e.color_clock == 0) by (nonlinear_arith)
        requires
            e.position() == e.scanline * LINE_CLOCKS + e.color_clock,
            e.position() == 0,
    ;
}

} // verus!
