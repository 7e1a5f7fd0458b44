//! Laws of instruction timing: how many cycles each instruction takes.
use vstd::prelude::*;
use crate::addressing::{ea_spec, rmw_spec};
use crate::bus::{lemma_read_keeps_cpu, read_spec, write_spec, BusView};
use crate::cpu::push_spec;
use crate::cpu::{
    is_branch_op, is_plain_nop, is_read_op, is_rmw_op, is_stack_op, is_store_op, proc_wf, template_cycles, AddrMode,
    CpuView, InstructionProcedure, Operation,
};
use crate::ops::{
    branch_spec, branch_taken, branch_target, exec_spec, implied_spec, jmp_spec, jsr_spec, read_op_spec,
    shift_spec, stack_spec, store_spec, indirect_high, same_page, shift_status, shift_value,
    with_cpu, Step,
};

verus! {

/// The procedure that a cycle of an instruction leaves behind.
pub open spec fn after(s: Step) -> InstructionProcedure {
    s->Ok_0.0
}

proof fn lemma_read_store_cycles(p: InstructionProcedure, m: BusView)
    requires
        proc_wf(p),
        is_read_op(p.op) || is_store_op(p.op),
        !is_plain_nop(p.op, p.mode),
        exec_spec(p, m) is Ok,
    ensures
        after(exec_spec(p, m)).op == p.op && after(exec_spec(p, m)).mode == p.mode,
        after(exec_spec(p, m)).cycle == p.cycle,
        after(exec_spec(p, m)).done <==> p.cycle == template_cycles(p.op, p.mode),
{
    reveal(ea_spec);
    reveal(read_op_spec);
    reveal(store_spec);
}

proof fn lemma_shift_cycles(p: InstructionProcedure, m: BusView)
    requires
        proc_wf(p),
        is_rmw_op(p.op),
        exec_spec(p, m) is Ok,
    ensures
        after(exec_spec(p, m)).op == p.op && after(exec_spec(p, m)).mode == p.mode,
        after(exec_spec(p, m)).cycle == p.cycle,
        after(exec_spec(p, m)).done <==> p.cycle == template_cycles(p.op, p.mode),
{
    reveal(rmw_spec);
    reveal(shift_spec);
}

proof fn lemma_stack_cycles(p: InstructionProcedure, m: BusView)
    requires
        proc_wf(p),
        is_stack_op(p.op),
        exec_spec(p, m) is Ok,
    ensures
        after(exec_spec(p, m)).op == p.op && after(exec_spec(p, m)).mode == p.mode,
        after(exec_spec(p, m)).cycle == p.cycle,
        after(exec_spec(p, m)).done <==> p.cycle == template_cycles(p.op, p.mode),
{
    reveal(stack_spec);
}

proof fn lemma_jump_cycles(p: InstructionProcedure, m: BusView)
    requires
        proc_wf(p),
        p.op == Operation::Jmp || p.op == Operation::Jsr,
        exec_spec(p, m) is Ok,
    ensures
        after(exec_spec(p, m)).op == p.op && after(exec_spec(p, m)).mode == p.mode,
        after(exec_spec(p, m)).cycle == p.cycle,
        after(exec_spec(p, m)).done <==> p.cycle == template_cycles(p.op, p.mode),
{
    reveal(jmp_spec);
    reveal(jsr_spec);
}

/// Every instruction but a branch completes on exactly the last cycle of
/// its template: absolute operands take 4 cycles, zero-page 3, indexed
/// zero-page 4 (one of them a discarded read), read-modify-write on zero
/// page 5, a register instruction 2, a push 3, a pull 4, an absolute jump 3,
/// an indirect jump 5, a subroutine call and a return 6. A branch completes by its fourth cycle. The
/// cycle does not change the instruction or its cycle index.
pub proof fn lemma_template_cycles(p: InstructionProcedure, m: BusView)
    requires
        proc_wf(p),
        exec_spec(p, m) is Ok,
    ensures
        after(exec_spec(p, m)).op == p.op,
        after(exec_spec(p, m)).mode == p.mode,
        after(exec_spec(p, m)).cycle == p.cycle,
        !is_branch_op(p.op) ==> (after(exec_spec(p, m)).done <==> p.cycle == template_cycles(p.op, p.mode)),
        is_branch_op(p.op) ==> (after(exec_spec(p, m)).done || p.cycle < template_cycles(p.op, p.mode)),
{
    reveal(implied_spec);
    reveal(branch_spec);
    if is_plain_nop(p.op, p.mode) {
    } else if is_read_op(p.op) || is_store_op(p.op) {
        lemma_read_store_cycles(p, m);
    } else if is_rmw_op(p.op) {
        lemma_shift_cycles(p, m);
    } else if p.op == Operation::Jmp || p.op == Operation::Jsr {
        lemma_jump_cycles(p, m);
    } else if is_stack_op(p.op) {
        lemma_stack_cycles(p, m);
    }
}

/// A branch whose condition fails completes on its second cycle (2 cycles);
/// one taken to a target on the same page completes on its third (3
/// cycles); one taken to another page on its fourth (4 cycles).
pub proof fn lemma_branch_cycles(p: InstructionProcedure, m: BusView)
    requires
        proc_wf(p),
        is_branch_op(p.op),
        exec_spec(p, m) is Ok,
    ensures
        p.cycle == 1 ==> !after(exec_spec(p, m)).done,
        p.cycle == 2 ==> (after(exec_spec(p, m)).done <==> !branch_taken(p.op, m.cpu.status)),
        p.cycle == 3 ==> (after(exec_spec(p, m)).done <==> same_page(m.cpu.pc, branch_target(m.cpu.pc, p.tmp0))),
        p.cycle == 4 ==> after(exec_spec(p, m)).done,
{
    reveal(branch_spec);
    if p.cycle == 2 {
        lemma_read_keeps_cpu(m, m.cpu.pc);
    }
}

/// An indirect jump through a pointer at the end of a page takes its
/// target's high byte from the start of that same page, not the next one:
/// through 0x30FF the high byte comes from 0x3000.
pub proof fn lemma_indirect_jump_wrap(p: InstructionProcedure, m: BusView)
    requires
        p.op == Operation::Jmp,
        p.mode == AddrMode::Indirect,
        p.cycle == 5,
        p.tmp_addr % 256 == 0xFF,
        exec_spec(p, m) is Ok,
    ensures
        indirect_high(p.tmp_addr) == p.tmp_addr - 0xFF,
        read_spec(m, (p.tmp_addr - 0xFF) as u16) is Ok,
        after(exec_spec(p, m)).tmp1 == read_spec(m, (p.tmp_addr - 0xFF) as u16)->Ok_0.0,
        after(exec_spec(p, m)).done,
{
    reveal(jmp_spec);
    assert(indirect_high(p.tmp_addr) == p.tmp_addr - 0xFF);
}

/// A shift on a zero-page operand writes the operand's address twice: on
/// its fourth cycle the value it read, unmodified, and on its fifth the
/// shifted value.
pub proof fn lemma_rmw_double_write(p: InstructionProcedure, m: BusView)
    requires
        is_rmw_op(p.op),
        p.mode == AddrMode::Zero,
        exec_spec(p, m) is Ok,
    ensures
        p.cycle == 4 ==> exec_spec(p, m)->Ok_0.1 == write_spec(m, p.tmp_addr, p.tmp0)->Ok_0
            && after(exec_spec(p, m)) == p,
        p.cycle == 5 ==> exec_spec(p, m)->Ok_0.1 == write_spec(
            with_cpu(m, CpuView { status: shift_status(m.cpu.status, shift_value(p.op, p.tmp0, m.cpu.status.carry)), ..m.cpu }),
            p.tmp_addr,
            shift_value(p.op, p.tmp0, m.cpu.status.carry).0,
        )->Ok_0,
{
    reveal(rmw_spec);
    reveal(shift_spec);
}

/// A subroutine call reads the stack at SP on its third cycle and discards
/// the value, then pushes PC (the address of its own last byte, one before
/// the return address) high byte on the fourth cycle, low byte on the
/// fifth, and completes on the sixth.
pub proof fn lemma_call_pushes(p: InstructionProcedure, m: BusView)
    requires
        proc_wf(p),
        p.op == Operation::Jsr,
        exec_spec(p, m) is Ok,
    ensures
        p.cycle == 3 ==> exec_spec(p, m)->Ok_0.1 == read_spec(m, (0x100 + m.cpu.sp) as u16)->Ok_0.1,
        p.cycle == 4 ==> exec_spec(p, m)->Ok_0.1 == push_spec(m, (m.cpu.pc / 256) as u8)->Ok_0,
        p.cycle == 5 ==> exec_spec(p, m)->Ok_0.1 == push_spec(m, (m.cpu.pc % 256) as u8)->Ok_0,
        after(exec_spec(p, m)).done <==> p.cycle == 6,
{
    reveal(jsr_spec);
}

} // verus!
