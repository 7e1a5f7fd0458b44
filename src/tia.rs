//! The video chip: the oscillator and beam position counters, the write-side
//! registers, the playfield and colour lookups, and the framebuffer.
use vstd::prelude::*;
use crate::fault::{BusAccessable, Fault};

verus! {

/// Colour-clocks per scanline.
pub const LINE_CLOCKS: usize = 228;
/// Scanlines per frame.
pub const FRAME_LINES: usize = 262;
/// Pixels in the framebuffer: one per colour-clock of a frame.
pub const FRAME_PIXELS: usize = 59736;
/// Colour-clocks of horizontal blank before the visible part of a line.
pub const LEFT_BORDER: usize = 68;

/// The NTSC palette, indexed by a colour register's value over two.
pub const NTSC_COLOR_LUT: [u32; 128] = [
    0x000000, 0x404040, 0x6C6C6C, 0x909090, 0xB0B0B0, 0xC8C8C8, 0xDCDCDC, 0xECECEC,
    0x444400, 0x646410, 0x848424, 0xA0A034, 0xB8B840, 0xD0D050, 0xE8E85C, 0xFCFC68,
    0x000000, 0x404040, 0x6C6C6C, 0x909090, 0xB0B0B0, 0xC8C8C8, 0xDCDCDC, 0xECECEC,
    0x444400, 0x646410, 0x848424, 0xA0A034, 0xB8B840, 0xD0D050, 0xE8E85C, 0xFCFC68,
    0x000000, 0x404040, 0x6C6C6C, 0x909090, 0xB0B0B0, 0xC8C8C8, 0xDCDCDC, 0xECECEC,
    0x78005C, 0x8C2074, 0xA03C88, 0xB0589C, 0xC070B0, 0xD084C0, 0xDC9CD0, 0xECB0E0,
    0x480078, 0x602090, 0x783CA4, 0x8C58B8, 0xA070CC, 0xB484DC, 0xC49CEC, 0xD4B0FC,
    0x444400, 0x646410, 0x848424, 0xA0A034, 0xB8B840, 0xD0D050, 0xE8E85C, 0xFCFC68,
    0x000000, 0x404040, 0x6C6C6C, 0x909090, 0xB0B0B0, 0xC8C8C8, 0xDCDCDC, 0xECECEC,
    0x444400, 0x646410, 0x848424, 0xA0A034, 0xB8B840, 0xD0D050, 0xE8E85C, 0xFCFC68,
    0x000000, 0x404040, 0x6C6C6C, 0x909090, 0xB0B0B0, 0xC8C8C8, 0xDCDCDC, 0xECECEC,
    0x444400, 0x646410, 0x848424, 0xA0A034, 0xB8B840, 0xD0D050, 0xE8E85C, 0xFCFC68,
    0x000000, 0x404040, 0x6C6C6C, 0x909090, 0xB0B0B0, 0xC8C8C8, 0xDCDCDC, 0xECECEC,
    0x444400, 0x646410, 0x848424, 0xA0A034, 0xB8B840, 0xD0D050, 0xE8E85C, 0xFCFC68,
    0x000000, 0x404040, 0x6C6C6C, 0x909090, 0xB0B0B0, 0xC8C8C8, 0xDCDCDC, 0xECECEC,
    0x444400, 0x646410, 0x848424, 0xA0A034, 0xB8B840, 0xD0D050, 0xE8E85C, 0xFCFC68,
];

/// A 64-bit counter's successor, wrapping.
pub open spec fn next_count(n: u64) -> u64 {
    if n == u64::MAX { 0 } else { (n + 1) as u64 }
}

/// The oscillator and beam position.
#[derive(Clone, Copy, Debug, PartialEq, Eq, Structural)]
pub struct CycleCounter {
    pub osc: u64,
    /// The divide-by-3 counter: the CPU runs on the ticks where it is 0.
    pub div3: u8,
    pub scanline: usize,
    pub color_clock: usize,
    pub frame_cpu_counter: u64,
    pub frame_counter: u64,
}

impl CycleCounter {
    pub open spec fn wf(self) -> bool {
        self.div3 < 3 && self.scanline < FRAME_LINES && self.color_clock < LINE_CLOCKS
    }

    /// One oscillator tick: the colour-clock wraps at 228 into the next
    /// scanline, the scanline wraps at 262 back to 0.
    pub open spec fn osc_spec(self) -> CycleCounter {
        let cc = self.color_clock + 1;
        let sl = self.scanline + 1;
        CycleCounter {
            osc: next_count(self.osc),
            div3: ((self.div3 + 1) % 3) as u8,
            color_clock: if cc == LINE_CLOCKS { 0 } else { cc as usize },
            scanline: if cc == LINE_CLOCKS { if sl == FRAME_LINES { 0 } else { sl as usize } } else { self.scanline },
            ..self
        }
    }

    /// The beam's place in the frame, counted in colour-clocks.
    pub open spec fn position(self) -> int {
        self.scanline * LINE_CLOCKS + self.color_clock
    }

    pub fn osc_cycle(&mut self)
        requires
            old(self).wf(),
        ensures
            final(self).wf(),
            *final(self) == old(self).osc_spec(),
    {
        self.osc = self.osc.wrapping_add(1);
        self.div3 = self.div3 + 1;
        if self.div3 == 3 {
            self.div3 = 0;
        }
        self.color_clock = self.color_clock + 1;
        if self.color_clock == LINE_CLOCKS {
            self.scanline = self.scanline + 1;
            self.color_clock = 0;
            if self.scanline == FRAME_LINES {
                self.scanline = 0;
            }
        }
    }

    /// The framebuffer index of the beam's place.
    pub fn pixel_index(&self) -> (r: usize)
        requires
            self.wf(),
        ensures
            r == self.position(),
            r < FRAME_PIXELS,
    {
        proof {
            assert(self.scanline * LINE_CLOCKS + self.color_clock < FRAME_PIXELS) by (nonlinear_arith)
                requires
                    self.scanline < FRAME_LINES,
                    self.color_clock < LINE_CLOCKS,
            ;
        }
        (self.scanline * LINE_CLOCKS) + self.color_clock
    }
}

impl Default for CycleCounter {
    fn default() -> (r: CycleCounter)
        ensures
            r == (CycleCounter { osc: 0, div3: 0, scanline: 0, color_clock: 0, frame_cpu_counter: 0, frame_counter: 0 }),
    {
        CycleCounter { osc: 0, div3: 0, scanline: 0, color_clock: 0, frame_cpu_counter: 0, frame_counter: 0 }
    }
}

/// The write-side latches and registers.
#[derive(Clone, Copy, Debug, PartialEq, Eq, Structural)]
pub struct TiaRegs {
    pub vsync: bool,
    /// Latched by a rising edge of VSYNC.
    pub vsync_trigger: bool,
    pub vblank: bool,
    /// Set by a write to WSYNC: the CPU is halted until the next scanline.
    pub wsync: bool,
    pub colupf: u8,
    pub colubk: u8,
    pub ctrlpf: u8,
    pub pf0: u8,
    pub pf1: u8,
    pub pf2: u8,
}

impl TiaRegs {
    pub open spec fn power_on() -> TiaRegs {
        TiaRegs {
            vsync: false,
            vsync_trigger: false,
            vblank: false,
            wsync: false,
            colupf: 0,
            colubk: 0,
            ctrlpf: 0,
            pf0: 0,
            pf1: 0,
            pf2: 0,
        }
    }
}

/// What a write does to the registers. RSYNC (0x03) faults; registers that
/// are not modelled ignore the write.
pub open spec fn tia_write(r: TiaRegs, addr: u16, data: u8) -> Result<TiaRegs, Fault> {
    if addr == 0x00 {
        let v = data & 0x02 != 0;
        Ok(TiaRegs { vsync: v, vsync_trigger: r.vsync_trigger || (!r.vsync && v), ..r })
    } else if addr == 0x01 {
        Ok(TiaRegs { vblank: data & 0xC2 != 0, ..r })
    } else if addr == 0x02 {
        Ok(TiaRegs { wsync: true, ..r })
    } else if addr == 0x03 {
        Err(Fault::UnsupportedRegister(addr))
    } else if addr == 0x08 {
        Ok(TiaRegs { colupf: data & 0xFE, ..r })
    } else if addr == 0x09 {
        Ok(TiaRegs { colubk: data & 0xFE, ..r })
    } else if addr == 0x0A {
        Ok(TiaRegs { ctrlpf: data & 0x37, ..r })
    } else if addr == 0x0D {
        Ok(TiaRegs { pf0: data & 0xF0, ..r })
    } else if addr == 0x0E {
        Ok(TiaRegs { pf1: data, ..r })
    } else if addr == 0x0F {
        Ok(TiaRegs { pf2: data, ..r })
    } else {
        Ok(r)
    }
}

/// What a read returns: the collision latches read clear, the two fire
/// buttons read released, the collision registers that are not modelled
/// fault, and every other address reads 0. Reads change nothing.
pub open spec fn tia_read(addr: u16) -> Result<u8, Fault> {
    if addr == 0x30 || addr == 0x31 || (0x38 <= addr <= 0x3B) {
        Err(Fault::UnsupportedRegister(addr))
    } else if addr == 0x3C || addr == 0x3D {
        Ok(0x80)
    } else {
        Ok(0)
    }
}

/// The playfield bit of one of the 20 dots of the left half: dots 0-3 are
/// PF0 bits 4-7, dots 4-11 are PF1 bits 7-0, dots 12-19 are PF2 bits 0-7.
pub open spec fn pf_left(r: TiaRegs, dot: int) -> bool {
    if dot < 4 {
        (if dot == 0 { r.pf0 & 0x10 } else if dot == 1 { r.pf0 & 0x20 } else if dot == 2 { r.pf0 & 0x40 } else { r.pf0 & 0x80 }) != 0
    } else if dot < 12 {
        (if dot == 4 { r.pf1 & 0x80 } else if dot == 5 { r.pf1 & 0x40 } else if dot == 6 { r.pf1 & 0x20 }
        else if dot == 7 { r.pf1 & 0x10 } else if dot == 8 { r.pf1 & 0x08 } else if dot == 9 { r.pf1 & 0x04 }
        else if dot == 10 { r.pf1 & 0x02 } else { r.pf1 & 0x01 }) != 0
    } else {
        (if dot == 12 { r.pf2 & 0x01 } else if dot == 13 { r.pf2 & 0x02 } else if dot == 14 { r.pf2 & 0x04 }
        else if dot == 15 { r.pf2 & 0x08 } else if dot == 16 { r.pf2 & 0x10 } else if dot == 17 { r.pf2 & 0x20 }
        else if dot == 18 { r.pf2 & 0x40 } else { r.pf2 & 0x80 }) != 0
    }
}

/// The playfield bit of any of the 40 dots: the right half mirrors the left
/// when `reflect` is set, and repeats it otherwise.
pub open spec fn pf_bit(r: TiaRegs, dot: int, reflect: bool) -> bool {
    if dot < 20 {
        pf_left(r, dot)
    } else if reflect {
        pf_left(r, 39 - dot)
    } else {
        pf_left(r, dot - 20)
    }
}

/// The packed colour of a pixel: the playfield colour where the bit is set,
/// the background colour elsewhere, through the palette.
pub open spec fn color_of(r: TiaRegs, bit: bool) -> u32 {
    NTSC_COLOR_LUT@[((if bit { r.colupf } else { r.colubk }) / 2) as int]
}

pub struct TiaView {
    pub regs: TiaRegs,
    pub cycles: CycleCounter,
    pub framebuffer: Seq<u32>,
}

pub struct Tia {
    pub regs: TiaRegs,
    pub cycles: CycleCounter,
    /// 228 x 262 packed colours, row-major by scanline then colour-clock.
    pub framebuffer: Vec<u32>,
}

impl View for Tia {
    type V = TiaView;

    open spec fn view(&self) -> TiaView {
        TiaView { regs: self.regs, cycles: self.cycles, framebuffer: self.framebuffer@ }
    }
}

impl Tia {
    pub open spec fn wf(&self) -> bool {
        self.framebuffer@.len() == FRAME_PIXELS && self.cycles.wf()
    }

    fn pf_lut(&self, dot_index: usize, r: bool) -> (b: bool)
        requires
            dot_index < 40,
        ensures
            b == pf_bit(self.regs, dot_index as int, r),
    {
        let dot: usize = if dot_index < 20 {
            dot_index
        } else if r {
            39 - dot_index
        } else {
            dot_index - 20
        };
        let m: u8 = match dot {
            0 => self.regs.pf0 & 0x10,
            1 => self.regs.pf0 & 0x20,
            2 => self.regs.pf0 & 0x40,
            3 => self.regs.pf0 & 0x80,
            4 => self.regs.pf1 & 0x80,
            5 => self.regs.pf1 & 0x40,
            6 => self.regs.pf1 & 0x20,
            7 => self.regs.pf1 & 0x10,
            8 => self.regs.pf1 & 0x08,
            9 => self.regs.pf1 & 0x04,
            10 => self.regs.pf1 & 0x02,
            11 => self.regs.pf1 & 0x01,
            12 => self.regs.pf2 & 0x01,
            13 => self.regs.pf2 & 0x02,
            14 => self.regs.pf2 & 0x04,
            15 => self.regs.pf2 & 0x08,
            16 => self.regs.pf2 & 0x10,
            17 => self.regs.pf2 & 0x20,
            18 => self.regs.pf2 & 0x40,
            _ => self.regs.pf2 & 0x80,
        };
        m != 0
    }

    fn color_lut(&self, bit: bool) -> (c: u32)
        ensures
            c == color_of(self.regs, bit),
    {
        let colu = if bit { self.regs.colupf } else { self.regs.colubk };
        NTSC_COLOR_LUT[(colu / 2) as usize]
    }

    /// Whether the pixel under the beam is drawn on this tick: outside
    /// vertical blank, past the left border, once a frame has begun.
    pub open spec fn draws(v: TiaView) -> bool {
        !v.regs.vblank && v.cycles.color_clock >= LEFT_BORDER && v.cycles.frame_counter > 0
    }

    /// The colour drawn under the beam.
    pub open spec fn beam_color(v: TiaView) -> u32 {
        color_of(v.regs, pf_bit(v.regs, (v.cycles.color_clock - LEFT_BORDER) / 4, v.regs.ctrlpf & 0x01 != 0))
    }

    /// The framebuffer after the beam's pixel is drawn, if it is.
    pub open spec fn render_spec(v: TiaView) -> TiaView {
        if Self::draws(v) {
            TiaView { framebuffer: v.framebuffer.update(v.cycles.position(), Self::beam_color(v)), ..v }
        } else {
            v
        }
    }

    /// Draws the pixel under the beam, if it is drawn on this tick.
    pub fn render(&mut self)
        requires
            old(self).wf(),
        ensures
            final(self).wf(),
            final(self)@ == Self::render_spec(old(self)@),
    {
        if !self.regs.vblank && self.cycles.color_clock >= LEFT_BORDER && self.cycles.frame_counter > 0 {
            let pixel = self.cycles.color_clock - LEFT_BORDER;
            let dot = pixel / 4;
            let bit = self.pf_lut(dot, self.regs.ctrlpf & 0x01 != 0);
            let color = self.color_lut(bit);
            let i = self.cycles.pixel_index();
            self.framebuffer.set(i, color);
        }
    }

    /// The colour stored at a framebuffer index.
    pub fn pixel(&self, i: usize) -> (c: u32)
        requires
            i < self.framebuffer@.len(),
        ensures
            c == self.framebuffer@[i as int],
    {
        self.framebuffer[i]
    }
}

impl Default for Tia {
    fn default() -> (r: Tia)
        ensures
            r.wf(),
            r.regs == TiaRegs::power_on(),
            r.cycles == (CycleCounter { osc: 0, div3: 0, scanline: 0, color_clock: 0, frame_cpu_counter: 0, frame_counter: 0 }),
            forall|i: int| 0 <= i < FRAME_PIXELS ==> r.framebuffer@[i] == 0,
    {
        Tia {
            regs: TiaRegs {
                vsync: false,
                vsync_trigger: false,
                vblank: false,
                wsync: false,
                colupf: 0,
                colubk: 0,
                ctrlpf: 0,
                pf0: 0,
                pf1: 0,
                pf2: 0,
            },
            cycles: CycleCounter::default(),
            framebuffer: crate::memory::zeroed_words(FRAME_PIXELS),
        }
    }
}

impl BusAccessable for Tia {
    open spec fn valid(&self) -> bool {
        self.wf()
    }

    fn write(&mut self, addr: u16, data: u8) -> (r: Result<(), Fault>)
        ensures
            r is Ok <==> tia_write(old(self).regs, addr, data) is Ok,
            r is Ok ==> final(self).regs == tia_write(old(self).regs, addr, data)->Ok_0,
            r is Err ==> r->Err_0 == tia_write(old(self).regs, addr, data)->Err_0 && final(self).regs == old(self).regs,
            final(self).cycles == old(self).cycles,
            final(self).framebuffer@ == old(self).framebuffer@,
    {
        match addr {
            0x00 => {
                let past = self.regs.vsync;
                self.regs.vsync = (data & 0x02) != 0;
                if !past && self.regs.vsync {
                    self.regs.vsync_trigger = true;
                }
            },
            0x01 => self.regs.vblank = (data & 0xC2) != 0,
            0x02 => self.regs.wsync = true,
            0x03 => return Err(Fault::UnsupportedRegister(addr)),
            0x08 => self.regs.colupf = data & 0xFE,
            0x09 => self.regs.colubk = data & 0xFE,
            0x0A => self.regs.ctrlpf = data & 0x37,
            0x0D => self.regs.pf0 = data & 0xF0,
            0x0E => self.regs.pf1 = data,
            0x0F => self.regs.pf2 = data,
            _ => {},
        }
        Ok(())
    }

    fn read(&mut self, addr: u16) -> (r: Result<u8, Fault>)
        ensures
            r == tia_read(addr),
            *final(self) == *old(self),
    {
        match addr {
            0x30 | 0x31 | 0x38 | 0x39 | 0x3A | 0x3B => Err(Fault::UnsupportedRegister(addr)),
            0x3C | 0x3D => Ok(0x80),
            _ => Ok(0),
        }
    }
}

} // verus!
