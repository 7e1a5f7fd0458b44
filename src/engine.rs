//! The CPU's clock input: each cycle either starts an instruction from the
//! prefetched opcode or continues the one in flight.
use vstd::prelude::*;
use crate::bus::{unit_outcome, Bus, BusView};
use crate::cpu::{
    cpu_view_wf, decode, decode_spec, fetch_spec, fresh_proc, is_branch_op, template_cycles, Cpu, CpuView,
    InstructionProcedure,
};
use crate::fault::Fault;
use crate::ops::{exec_spec, step_spec, with_cpu};
use crate::timing::lemma_template_cycles;

verus! {

/// The instruction a cycle drives, and the machine it starts from: the one
/// in flight, or a fresh one decoded from the prefetched opcode (fetched now
/// when nothing was prefetched). The opcode is recorded before it is
/// decoded, so an opcode with no table entry is the one left on record.
pub open spec fn start_spec(m: BusView) -> Result<(InstructionProcedure, BusView), Fault> {
    match m.cpu.procedure {
        Some(p) => Ok((p, m)),
        None => {
            let fetched = match m.cpu.prefetch {
                Some(o) => Ok((o, m)),
                None => fetch_spec(m),
            };
            match fetched {
                Err(f) => Err(f),
                Ok(t) => match decode_spec(t.0) {
                    None => Err(Fault::UnknownOpcode(t.0)),
                    Some(d) => Ok((fresh_proc(d.0, d.1), with_cpu(t.1, CpuView { prefetch: None, opcode: t.0, ..t.1.cpu }))),
                },
            }
        },
    }
}

/// One CPU cycle. While the ready line is low nothing happens; otherwise the
/// instruction advances one cycle and is dropped once it completes.
#[verifier::opaque]
pub open spec fn cycle_spec(m: BusView) -> Result<BusView, Fault> {
    if !m.cpu.rdy {
        Ok(m)
    } else {
        match start_spec(m) {
            Err(f) => Err(f),
            Ok(s) => match step_spec(s.0, s.1) {
                Err(f) => Err(f),
                Ok(t) => Ok(with_cpu(t.1, CpuView { procedure: if t.0.done { None } else { Some(t.0) }, ..t.1.cpu })),
            },
        }
    }
}

/// Each CPU cycle with the ready line high drives the instruction one cycle
/// further. A new instruction starts on cycle 1 with the table's semantic
/// class and mode. Unless it is a branch, it is retired on exactly the call
/// that runs its template's last cycle. So from an empty pipeline an
/// instruction takes `template_cycles` calls: 2 for a register, accumulator
/// or immediate instruction, 3 for a zero-page load, 4 for an absolute or
/// indexed zero-page load, 5 and 6 for a shift on zero page and on absolute
/// or indexed zero page, 3 for an absolute jump, 6 for a subroutine call.
pub proof fn lemma_cycle_progress(m: BusView)
    requires
        cpu_view_wf(m.cpu),
        m.cpu.rdy,
        cycle_spec(m) is Ok,
    ensures
        start_spec(m) is Ok,
        m.cpu.procedure is None ==> start_spec(m)->Ok_0.0.cycle == 1 && decode_spec(
            start_spec(m)->Ok_0.1.cpu.opcode,
        ) == Some((start_spec(m)->Ok_0.0.op, start_spec(m)->Ok_0.0.mode)),
        (cycle_spec(m)->Ok_0.cpu.procedure matches Some(q) ==> q.op == start_spec(m)->Ok_0.0.op
            && q.mode == start_spec(m)->Ok_0.0.mode && q.cycle == start_spec(m)->Ok_0.0.cycle + 1),
        !is_branch_op(start_spec(m)->Ok_0.0.op) ==> (cycle_spec(m)->Ok_0.cpu.procedure is None
            <==> start_spec(m)->Ok_0.0.cycle == template_cycles(start_spec(m)->Ok_0.0.op, start_spec(m)->Ok_0.0.mode)),
        is_branch_op(start_spec(m)->Ok_0.0.op) ==> start_spec(m)->Ok_0.0.cycle <= template_cycles(
            start_spec(m)->Ok_0.0.op,
            start_spec(m)->Ok_0.0.mode,
        ),
{
    reveal(cycle_spec);
    let s = start_spec(m);
    lemma_template_cycles(s->Ok_0.0, s->Ok_0.1);
}

impl Cpu {
    /// One clock cycle of the CPU.
    pub fn cycle(bus: &mut Bus) -> (r: Result<(), Fault>)
        requires
            old(bus).wf(),
        ensures
            final(bus).wf(),
            unit_outcome(r, final(bus)@, cycle_spec(old(bus)@)),
            old(bus).cpu.rdy && old(bus).cpu.procedure is None && old(bus).cpu.prefetch is Some
                && decode_spec(old(bus).cpu.prefetch->Some_0) is None ==> final(bus).cpu.opcode
                == old(bus).cpu.prefetch->Some_0,
    {
        reveal(cycle_spec);
        if !bus.cpu.rdy {
            return Ok(());
        }
        let mut procedure = match bus.cpu.procedure {
            Some(p) => p,
            None => {
                let opcode = match bus.cpu.prefetch {
                    Some(o) => o,
                    None => match Cpu::fetch(bus) {
                        Ok(o) => o,
                        Err(f) => return Err(f),
                    },
                };
                bus.cpu.prefetch = None;
                bus.cpu.opcode = opcode;
                match decode(opcode) {
                    None => return Err(Fault::UnknownOpcode(opcode)),
                    Some((op, mode)) => InstructionProcedure::new(op, mode),
                }
            },
        };
        let ghost p0 = procedure;
        let ghost m0 = bus@;
        match procedure.step(bus) {
            Ok(()) => {
                proof {
                    lemma_template_cycles(p0, m0);
                }
                bus.cpu.procedure = if procedure.done {
                    None
                } else {
                    Some(procedure)
                };
                Ok(())
            },
            Err(f) => Err(f),
        }
    }
}

} // verus!
