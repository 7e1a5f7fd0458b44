//! The bus: the single owner of the machine's state, routing every access by
//! address to the peripheral that owns it.
use vstd::prelude::*;
use crate::cartridge::Cartridge;
use crate::cpu::{Cpu, CpuView};
use crate::fault::{BusAccessable, Fault};
use crate::pia::{pia_after_read, pia_read_value, pia_write, Pia, PiaView};
use crate::tia::{tia_read, tia_write, Tia, TiaView};

verus! {

/// The whole machine as plain values.
pub struct BusView {
    pub tia: TiaView,
    pub cpu: CpuView,
    pub pia: PiaView,
    pub rom: Seq<u8>,
}

pub open spec fn tia_reads(addr: u16) -> bool {
    addr <= 0x0D || (0x30 <= addr <= 0x3D)
}

pub open spec fn tia_writes(addr: u16) -> bool {
    addr <= 0x2C
}

pub open spec fn pia_owns(addr: u16) -> bool {
    (0x80 <= addr <= 0xFF) || (0x280 <= addr <= 0x297)
}

pub open spec fn stack_owns(addr: u16) -> bool {
    0x100 <= addr <= 0x1FF
}

pub open spec fn rom_owns(addr: u16) -> bool {
    addr >= 0xF000
}

/// Whether some peripheral owns an address for writing.
pub open spec fn write_mapped(addr: u16) -> bool {
    tia_writes(addr) || pia_owns(addr) || stack_owns(addr) || rom_owns(addr)
}

/// Whether some peripheral owns an address for writing; a write anywhere
/// else is ignored, and a host that reports such writes asks here first.
pub fn is_write_mapped(addr: u16) -> (r: bool)
    ensures
        r == write_mapped(addr),
{
    addr <= 0x2C || (0x80 <= addr && addr <= 0xFF) || (0x280 <= addr && addr <= 0x297) || (0x100 <= addr
        && addr <= 0x1FF) || addr >= 0xF000
}

/// A read: the value and the machine after it. An address that no
/// peripheral owns reads as 0.
pub open spec fn read_spec(m: BusView, addr: u16) -> Result<(u8, BusView), Fault> {
    if tia_reads(addr) {
        match tia_read(addr) {
            Ok(v) => Ok((v, m)),
            Err(f) => Err(f),
        }
    } else if pia_owns(addr) {
        match pia_read_value(m.pia, addr) {
            Ok(v) => Ok((v, BusView { pia: pia_after_read(m.pia, addr), ..m })),
            Err(f) => Err(f),
        }
    } else if stack_owns(addr) {
        Ok((m.cpu.stack[addr - 0x100], m))
    } else if rom_owns(addr) {
        Ok((Cartridge::read_spec(m.rom, addr), m))
    } else {
        Ok((0, m))
    }
}

/// A write: the machine after it. A write to an address that no peripheral
/// owns is ignored.
#[verifier::opaque]
pub open spec fn write_spec(m: BusView, addr: u16, data: u8) -> Result<BusView, Fault> {
    if tia_writes(addr) {
        match tia_write(m.tia.regs, addr, data) {
            Ok(r) => Ok(BusView { tia: TiaView { regs: r, ..m.tia }, ..m }),
            Err(f) => Err(f),
        }
    } else if pia_owns(addr) {
        match pia_write(m.pia, addr, data) {
            Ok(p) => Ok(BusView { pia: p, ..m }),
            Err(f) => Err(f),
        }
    } else if stack_owns(addr) {
        Ok(BusView { cpu: CpuView { stack: m.cpu.stack.update(addr - 0x100, data), ..m.cpu }, ..m })
    } else if rom_owns(addr) {
        Err(Fault::UnsupportedRegister(addr))
    } else {
        Ok(m)
    }
}

/// `r` and `post` are what `s` describes: its value and machine, or its
/// fault.
pub open spec fn value_outcome<T>(r: Result<T, Fault>, post: BusView, s: Result<(T, BusView), Fault>) -> bool {
    &&& (r is Ok <==> s is Ok)
    &&& (s is Ok ==> r->Ok_0 == s->Ok_0.0 && post == s->Ok_0.1)
    &&& (s is Err ==> r->Err_0 == s->Err_0)
}

/// `r` and `post` are what `s` describes: its machine, or its fault.
pub open spec fn unit_outcome(r: Result<(), Fault>, post: BusView, s: Result<BusView, Fault>) -> bool {
    &&& (r is Ok <==> s is Ok)
    &&& (s is Ok ==> post == s->Ok_0)
    &&& (s is Err ==> r->Err_0 == s->Err_0)
}

/// A read leaves the CPU's state as it was.
pub proof fn lemma_read_keeps_cpu(m: BusView, addr: u16)
    requires
        read_spec(m, addr) is Ok,
    ensures
        read_spec(m, addr)->Ok_0.1.cpu == m.cpu,
{
    reveal(read_spec);
}

/// Reading any register but the timer's counter changes nothing, so reading
/// it twice in a row gives the same value twice.
pub proof fn lemma_read_side_effect_free(m: BusView, addr: u16)
    requires
        addr != 0x284,
        read_spec(m, addr) is Ok,
    ensures
        read_spec(m, addr)->Ok_0.1 == m,
        read_spec(read_spec(m, addr)->Ok_0.1, addr) == read_spec(m, addr),
{
    reveal(read_spec);
}

pub struct Bus {
    pub tia: Tia,
    pub cpu: Cpu,
    pub pia: Pia,
    pub cart: Cartridge,
}

impl View for Bus {
    type V = BusView;

    open spec fn view(&self) -> BusView {
        BusView { tia: self.tia@, cpu: self.cpu@, pia: self.pia@, rom: self.cart.rom@ }
    }
}

impl Bus {
    pub open spec fn wf(&self) -> bool {
        self.tia.wf() && self.cpu.wf() && self.pia.wf() && self.cart.wf()
    }
}

impl Default for Bus {
    /// The machine at power-on: registers, latches, counters and memories
    /// cleared, the ready line high, a blank cartridge, the timer counting
    /// 0x0A down by 1024.
    fn default() -> (r: Bus)
        ensures
            r.wf(),
            r.cpu.pc == 0 && r.cpu.sp == 0 && r.cpu.acc == 0 && r.cpu.x == 0 && r.cpu.y == 0,
            r.cpu.status == crate::status::StatusReg::power_on(),
            r.cpu.rdy && r.cpu.prefetch is None && r.cpu.procedure is None,
            r.tia.regs == crate::tia::TiaRegs::power_on(),
            r.tia.cycles == (crate::tia::CycleCounter {
                osc: 0,
                div3: 0,
                scanline: 0,
                color_clock: 0,
                frame_cpu_counter: 0,
                frame_counter: 0,
            }),
            r.pia.timer == (crate::pia::IntervalTimer { intim: 0x0A, interval: 1024, active: true, counter: 1, trigger: false }),
            forall|i: int| 0 <= i < 4096 ==> r.cart.rom@[i] == 0,
            r.cart.rom@.len() == 4096,
    {
        Bus { tia: Tia::default(), cpu: Cpu::default(), pia: Pia::default(), cart: Cartridge::default() }
    }
}

impl BusAccessable for Bus {
    open spec fn valid(&self) -> bool {
        self.wf()
    }

    fn write(&mut self, addr: u16, data: u8) -> (r: Result<(), Fault>)
        ensures
            unit_outcome(r, final(self)@, write_spec(old(self)@, addr, data)),
            r is Err ==> final(self)@ == old(self)@,
            !write_mapped(addr) ==> r is Ok && final(self)@ == old(self)@,
    {
        reveal(write_spec);
        if addr <= 0x2C {
            self.tia.write(addr, data)
        } else if (0x80 <= addr && addr <= 0xFF) || (0x280 <= addr && addr <= 0x297) {
            self.pia.write(addr, data)
        } else if 0x100 <= addr && addr <= 0x1FF {
            self.cpu.write(addr, data)
        } else if addr >= 0xF000 {
            self.cart.write(addr, data)
        } else {
            Ok(())
        }
    }

    fn read(&mut self, addr: u16) -> (r: Result<u8, Fault>)
        ensures
            value_outcome(r, final(self)@, read_spec(old(self)@, addr)),
            r is Err ==> final(self)@ == old(self)@,
    {
        reveal(read_spec);
        if addr <= 0x0D || (0x30 <= addr && addr <= 0x3D) {
            self.tia.read(addr)
        } else if (0x80 <= addr && addr <= 0xFF) || (0x280 <= addr && addr <= 0x297) {
            self.pia.read(addr)
        } else if 0x100 <= addr && addr <= 0x1FF {
            self.cpu.read(addr)
        } else if addr >= 0xF000 {
            self.cart.read(addr)
        } else {
            Ok(0)
        }
    }
}

} // verus!
