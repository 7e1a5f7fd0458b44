//! The addressing-mode templates: which bus access happens on which cycle of
//! an instruction before its operand address is ready.
use vstd::prelude::*;
use crate::bus::{read_spec, write_spec, Bus, BusView};
use crate::cpu::{addr_concat, concat_spec, fetch_spec, inc16, AddrMode, Cpu, CpuView, InstructionProcedure};
use crate::fault::{BusAccessable, Fault};

verus! {

/// The outcome of one cycle of an addressing template: the operand address
/// once it is ready, the procedure and the machine.
pub type Resolution = Result<(Option<u16>, InstructionProcedure, BusView), Fault>;

/// `r`, `p` and `post` are what `s` describes.
pub open spec fn resolution_outcome(
    r: Result<Option<u16>, Fault>,
    p: InstructionProcedure,
    post: BusView,
    s: Resolution,
) -> bool {
    &&& (r is Ok <==> s is Ok)
    &&& (s is Ok ==> r->Ok_0 == s->Ok_0.0 && p == s->Ok_0.1 && post == s->Ok_0.2)
    &&& (s is Err ==> r->Err_0 == s->Err_0)
}

/// A cycle that fetches an operand byte into `tmp0`.
pub open spec fn fetch_tmp0(p: InstructionProcedure, m: BusView) -> Resolution {
    match fetch_spec(m) {
        Ok(t) => Ok((None, InstructionProcedure { tmp0: t.0, ..p }, t.1)),
        Err(f) => Err(f),
    }
}

/// A cycle that fetches an operand byte into `tmp1`.
pub open spec fn fetch_tmp1(p: InstructionProcedure, m: BusView) -> Resolution {
    match fetch_spec(m) {
        Ok(t) => Ok((None, InstructionProcedure { tmp1: t.0, ..p }, t.1)),
        Err(f) => Err(f),
    }
}

/// A cycle whose bus read is made and its value discarded.
pub open spec fn dummy_read(p: InstructionProcedure, m: BusView, a: u16) -> Resolution {
    match read_spec(m, a) {
        Ok(t) => Ok((None, p, t.1)),
        Err(f) => Err(f),
    }
}

/// A cycle that reads the operand at `a` into `tmp0`, remembering `a`.
pub open spec fn read_tmp0(p: InstructionProcedure, m: BusView, a: u16) -> Resolution {
    match read_spec(m, a) {
        Ok(t) => Ok((None, InstructionProcedure { tmp0: t.0, tmp_addr: a, ..p }, t.1)),
        Err(f) => Err(f),
    }
}

/// A cycle that writes `tmp0` back, unmodified, to `tmp_addr`.
pub open spec fn dummy_write(p: InstructionProcedure, m: BusView) -> Resolution {
    match write_spec(m, p.tmp_addr, p.tmp0) {
        Ok(m2) => Ok((None, p, m2)),
        Err(f) => Err(f),
    }
}

/// The zero-page address of a base byte plus an index, wrapping in page 0.
pub open spec fn zero_indexed(base: u8, index: u8) -> u16 {
    ((base as int + index as int) % 256) as u16
}

/// The template of an instruction that reads or writes one operand.
#[verifier::opaque]
pub open spec fn ea_spec(p: InstructionProcedure, m: BusView) -> Resolution {
    match p.mode {
        AddrMode::Immediate => {
            if p.cycle == 2 {
                Ok((Some(m.cpu.pc), p, BusView { cpu: CpuView { pc: inc16(m.cpu.pc), ..m.cpu }, ..m }))
            } else {
                Ok((None, p, m))
            }
        },
        AddrMode::Zero => {
            if p.cycle == 2 {
                fetch_tmp0(p, m)
            } else if p.cycle == 3 {
                Ok((Some(concat_spec(0, p.tmp0)), p, m))
            } else {
                Ok((None, p, m))
            }
        },
        AddrMode::Absolute => {
            if p.cycle == 2 {
                fetch_tmp0(p, m)
            } else if p.cycle == 3 {
                fetch_tmp1(p, m)
            } else if p.cycle == 4 {
                Ok((Some(concat_spec(p.tmp1, p.tmp0)), p, m))
            } else {
                Ok((None, p, m))
            }
        },
        AddrMode::ZeroX | AddrMode::ZeroY => {
            if p.cycle == 2 {
                fetch_tmp0(p, m)
            } else if p.cycle == 3 {
                dummy_read(p, m, concat_spec(0, p.tmp0))
            } else if p.cycle == 4 {
                let index = if p.mode == AddrMode::ZeroX { m.cpu.x } else { m.cpu.y };
                Ok((Some(zero_indexed(p.tmp0, index)), p, m))
            } else {
                Ok((None, p, m))
            }
        },
        AddrMode::AbsoluteX | AddrMode::AbsoluteY | AddrMode::IndirectX | AddrMode::IndirectY => {
            Err(Fault::Unimplemented)
        },
        _ => Err(Fault::UnsupportedMode),
    }
}

/// The template of a read-modify-write instruction: the operand is read into
/// `tmp0`, written back unmodified, and its address is ready on the last
/// cycle, when the instruction writes the modified value.
pub open spec fn rmw_spec(p: InstructionProcedure, m: BusView) -> Resolution {
    match p.mode {
        AddrMode::Zero => {
            if p.cycle == 2 {
                match fetch_spec(m) {
                    Ok(t) => Ok((None, InstructionProcedure { tmp_addr: concat_spec(0, t.0), ..p }, t.1)),
                    Err(f) => Err(f),
                }
            } else if p.cycle == 3 {
                read_tmp0(p, m, p.tmp_addr)
            } else if p.cycle == 4 {
                dummy_write(p, m)
            } else if p.cycle == 5 {
                Ok((Some(p.tmp_addr), p, m))
            } else {
                Ok((None, p, m))
            }
        },
        AddrMode::Absolute => {
            if p.cycle == 2 {
                fetch_tmp0(p, m)
            } else if p.cycle == 3 {
                fetch_tmp1(p, m)
            } else if p.cycle == 4 {
                read_tmp0(p, m, concat_spec(p.tmp1, p.tmp0))
            } else if p.cycle == 5 {
                dummy_write(p, m)
            } else if p.cycle == 6 {
                Ok((Some(p.tmp_addr), p, m))
            } else {
                Ok((None, p, m))
            }
        },
        AddrMode::ZeroX => {
            if p.cycle == 2 {
                match fetch_spec(m) {
                    Ok(t) => Ok((None, InstructionProcedure { tmp0: t.0, tmp_addr: concat_spec(0, t.0), ..p }, t.1)),
                    Err(f) => Err(f),
                }
            } else if p.cycle == 3 {
                dummy_read(p, m, p.tmp_addr)
            } else if p.cycle == 4 {
                read_tmp0(p, m, zero_indexed(p.tmp0, m.cpu.x))
            } else if p.cycle == 5 {
                dummy_write(p, m)
            } else if p.cycle == 6 {
                Ok((Some(p.tmp_addr), p, m))
            } else {
                Ok((None, p, m))
            }
        },
        AddrMode::AbsoluteX => {
            if p.cycle == 2 {
                fetch_tmp0(p, m)
            } else if p.cycle == 3 {
                fetch_tmp1(p, m)
            } else if p.cycle == 4 {
                let a = ((concat_spec(p.tmp1, p.tmp0) as int + m.cpu.x as int) % 65536) as u16;
                dummy_read(InstructionProcedure { tmp_addr: a, ..p }, m, a)
            } else if p.cycle == 5 {
                read_tmp0(p, m, p.tmp_addr)
            } else if p.cycle == 6 {
                dummy_write(p, m)
            } else if p.cycle == 7 {
                Ok((Some(p.tmp_addr), p, m))
            } else {
                Ok((None, p, m))
            }
        },
        _ => Err(Fault::UnsupportedMode),
    }
}

fn fetch_into_tmp0(p: &mut InstructionProcedure, bus: &mut Bus) -> (r: Result<Option<u16>, Fault>)
    requires
        old(bus).wf(),
    ensures
        final(bus).wf(),
        resolution_outcome(r, *final(p), final(bus)@, fetch_tmp0(*old(p), old(bus)@)),
{
    match Cpu::fetch(bus) {
        Ok(v) => {
            p.tmp0 = v;
            Ok(None)
        },
        Err(f) => Err(f),
    }
}

fn fetch_into_tmp1(p: &mut InstructionProcedure, bus: &mut Bus) -> (r: Result<Option<u16>, Fault>)
    requires
        old(bus).wf(),
    ensures
        final(bus).wf(),
        resolution_outcome(r, *final(p), final(bus)@, fetch_tmp1(*old(p), old(bus)@)),
{
    match Cpu::fetch(bus) {
        Ok(v) => {
            p.tmp1 = v;
            Ok(None)
        },
        Err(f) => Err(f),
    }
}

fn discard_read(bus: &mut Bus, a: u16) -> (r: Result<Option<u16>, Fault>)
    requires
        old(bus).wf(),
    ensures
        final(bus).wf(),
        forall|p: InstructionProcedure| resolution_outcome(r, p, final(bus)@, #[trigger] dummy_read(p, old(bus)@, a)),
{
    match bus.read(a) {
        Ok(_) => Ok(None),
        Err(f) => Err(f),
    }
}

fn read_into_tmp0(p: &mut InstructionProcedure, bus: &mut Bus, a: u16) -> (r: Result<Option<u16>, Fault>)
    requires
        old(bus).wf(),
    ensures
        final(bus).wf(),
        resolution_outcome(r, *final(p), final(bus)@, read_tmp0(*old(p), old(bus)@, a)),
{
    match bus.read(a) {
        Ok(v) => {
            p.tmp0 = v;
            p.tmp_addr = a;
            Ok(None)
        },
        Err(f) => Err(f),
    }
}

fn write_back(p: &InstructionProcedure, bus: &mut Bus) -> (r: Result<Option<u16>, Fault>)
    requires
        old(bus).wf(),
    ensures
        final(bus).wf(),
        resolution_outcome(r, *p, final(bus)@, dummy_write(*p, old(bus)@)),
{
    match bus.write(p.tmp_addr, p.tmp0) {
        Ok(()) => Ok(None),
        Err(f) => Err(f),
    }
}

/// Runs one cycle of the operand-address template. Returns the address on
/// the cycle where it is ready, `None` before.
pub fn effective_addr(p: &mut InstructionProcedure, bus: &mut Bus) -> (r: Result<Option<u16>, Fault>)
    requires
        old(bus).wf(),
    ensures
        final(bus).wf(),
        resolution_outcome(r, *final(p), final(bus)@, ea_spec(*old(p), old(bus)@)),
{
    reveal(ea_spec);
    match p.mode {
        AddrMode::Immediate => {
            if p.cycle == 2 {
                let pc = bus.cpu.pc;
                bus.cpu.pc = pc.wrapping_add(1);
                Ok(Some(pc))
            } else {
                Ok(None)
            }
        },
        AddrMode::Zero => {
            if p.cycle == 2 {
                fetch_into_tmp0(p, bus)
            } else if p.cycle == 3 {
                Ok(Some(addr_concat(0, p.tmp0)))
            } else {
                Ok(None)
            }
        },
        AddrMode::Absolute => {
            if p.cycle == 2 {
                fetch_into_tmp0(p, bus)
            } else if p.cycle == 3 {
                fetch_into_tmp1(p, bus)
            } else if p.cycle == 4 {
                Ok(Some(addr_concat(p.tmp1, p.tmp0)))
            } else {
                Ok(None)
            }
        },
        AddrMode::ZeroX | AddrMode::ZeroY => {
            if p.cycle == 2 {
                fetch_into_tmp0(p, bus)
            } else if p.cycle == 3 {
                discard_read(bus, addr_concat(0, p.tmp0))
            } else if p.cycle == 4 {
                let index: u8 = if p.mode == AddrMode::ZeroX { bus.cpu.x } else { bus.cpu.y };
                Ok(Some(((p.tmp0 as u16 + index as u16) % 256) as u16))
            } else {
                Ok(None)
            }
        },
        AddrMode::AbsoluteX | AddrMode::AbsoluteY | AddrMode::IndirectX | AddrMode::IndirectY => {
            Err(Fault::Unimplemented)
        },
        _ => Err(Fault::UnsupportedMode),
    }
}

/// Runs one cycle of the read-modify-write template. Returns the operand's
/// address on the last cycle, with the operand in `tmp0`.
pub fn read_modify_write(p: &mut InstructionProcedure, bus: &mut Bus) -> (r: Result<Option<u16>, Fault>)
    requires
        old(bus).wf(),
    ensures
        final(bus).wf(),
        resolution_outcome(r, *final(p), final(bus)@, rmw_spec(*old(p), old(bus)@)),
{
    reveal(rmw_spec);
    match p.mode {
        AddrMode::Zero => {
            if p.cycle == 2 {
                match Cpu::fetch(bus) {
                    Ok(v) => {
                        p.tmp_addr = addr_concat(0, v);
                        Ok(None)
                    },
                    Err(f) => Err(f),
                }
            } else if p.cycle == 3 {
                let a = p.tmp_addr;
                read_into_tmp0(p, bus, a)
            } else if p.cycle == 4 {
                write_back(p, bus)
            } else if p.cycle == 5 {
                Ok(Some(p.tmp_addr))
            } else {
                Ok(None)
            }
        },
        AddrMode::Absolute => {
            if p.cycle == 2 {
                fetch_into_tmp0(p, bus)
            } else if p.cycle == 3 {
                fetch_into_tmp1(p, bus)
            } else if p.cycle == 4 {
                let a = addr_concat(p.tmp1, p.tmp0);
                read_into_tmp0(p, bus, a)
            } else if p.cycle == 5 {
                write_back(p, bus)
            } else if p.cycle == 6 {
                Ok(Some(p.tmp_addr))
            } else {
                Ok(None)
            }
        },
        AddrMode::ZeroX => {
            if p.cycle == 2 {
                match Cpu::fetch(bus) {
                    Ok(v) => {
                        p.tmp0 = v;
                        p.tmp_addr = addr_concat(0, v);
                        Ok(None)
                    },
                    Err(f) => Err(f),
                }
            } else if p.cycle == 3 {
                discard_read(bus, p.tmp_addr)
            } else if p.cycle == 4 {
                let a = ((p.tmp0 as u16 + bus.cpu.x as u16) % 256) as u16;
                read_into_tmp0(p, bus, a)
            } else if p.cycle == 5 {
                write_back(p, bus)
            } else if p.cycle == 6 {
                Ok(Some(p.tmp_addr))
            } else {
                Ok(None)
            }
        },
        AddrMode::AbsoluteX => {
            if p.cycle == 2 {
                fetch_into_tmp0(p, bus)
            } else if p.cycle == 3 {
                fetch_into_tmp1(p, bus)
            } else if p.cycle == 4 {
                let a = ((addr_concat(p.tmp1, p.tmp0) as u32 + bus.cpu.x as u32) % 65536) as u16;
                p.tmp_addr = a;
                discard_read(bus, a)
            } else if p.cycle == 5 {
                let a = p.tmp_addr;
                read_into_tmp0(p, bus, a)
            } else if p.cycle == 6 {
                write_back(p, bus)
            } else if p.cycle == 7 {
                Ok(Some(p.tmp_addr))
            } else {
                Ok(None)
            }
        },
        _ => Err(Fault::UnsupportedMode),
    }
}

} // verus!
