//! The semantic functions: one per instruction, each driven once per cycle
//! of its instruction until it reports completion.
use vstd::prelude::*;
use crate::addressing::{ea_spec, effective_addr, read_modify_write, rmw_spec};
use crate::alu::{adc_spec, adc_value, compare_spec, compare_value, asl_spec, asl_value, lsr_spec, lsr_value, rol_spec, rol_value, ror_spec, ror_value, sbc_spec, sbc_value, signed};
use crate::bus::{read_spec, write_spec, Bus, BusView};
use crate::cpu::{
    addr_concat, concat_spec, dec8, fetch_spec, inc16, inc8, is_stack_op, pull_spec, is_branch_op, is_implied_op, is_plain_nop, is_read_op,
    is_rmw_op, is_store_op, push_spec, AddrMode, Cpu, CpuView, InstructionProcedure, Operation,
};
use crate::fault::{BusAccessable, Fault};
use crate::status::{zn_of, StatusReg};

verus! {

/// The outcome of one cycle of an instruction: the procedure and the machine.
pub type Step = Result<(InstructionProcedure, BusView), Fault>;

/// `r`, `p` and `post` are what `s` describes.
pub open spec fn step_outcome(r: Result<(), Fault>, p: InstructionProcedure, post: BusView, s: Step) -> bool {
    &&& (r is Ok <==> s is Ok)
    &&& (s is Ok ==> p == s->Ok_0.0 && post == s->Ok_0.1)
    &&& (s is Err ==> r->Err_0 == s->Err_0)
}

pub open spec fn with_cpu(m: BusView, c: CpuView) -> BusView {
    BusView { cpu: c, ..m }
}

/// The last cycle of most instructions: the next opcode is fetched into the
/// prefetch slot and the instruction completes.
pub open spec fn finish_spec(p: InstructionProcedure, m: BusView) -> Step {
    match fetch_spec(m) {
        Ok(t) => Ok((InstructionProcedure { done: true, ..p }, with_cpu(t.1, CpuView { prefetch: Some(t.0), ..t.1.cpu }))),
        Err(f) => Err(f),
    }
}

/// What an instruction that reads one operand does with it.
pub open spec fn read_apply(op: Operation, c: CpuView, v: u8) -> Result<CpuView, Fault> {
    if op == Operation::Lda {
        Ok(CpuView { acc: v, status: zn_of(c.status, v), ..c })
    } else if op == Operation::Ldx {
        Ok(CpuView { x: v, status: zn_of(c.status, v), ..c })
    } else if op == Operation::Ldy {
        Ok(CpuView { y: v, status: zn_of(c.status, v), ..c })
    } else if op == Operation::Eor {
        Ok(CpuView { acc: c.acc ^ v, status: zn_of(c.status, c.acc ^ v), ..c })
    } else if op == Operation::And {
        Ok(CpuView { acc: c.acc & v, status: zn_of(c.status, c.acc & v), ..c })
    } else if op == Operation::Ora {
        Ok(CpuView { acc: c.acc | v, status: zn_of(c.status, c.acc | v), ..c })
    } else if op == Operation::Cmp || op == Operation::Cpx || op == Operation::Cpy {
        let r = if op == Operation::Cmp { c.acc } else if op == Operation::Cpx { c.x } else { c.y };
        let f = compare_spec(r, v);
        Ok(CpuView { status: StatusReg { carry: f.0, zero: f.1, negative: f.2, ..c.status }, ..c })
    } else if op == Operation::Bit {
        Ok(CpuView {
            status: StatusReg { zero: c.acc & v == 0, negative: v >= 0x80, overflow: v & 0x40 != 0, ..c.status },
            ..c
        })
    } else if op == Operation::Adc || op == Operation::Sbc {
        if c.status.decimal {
            Err(Fault::Unimplemented)
        } else {
            let t = if op == Operation::Adc { adc_spec(c.acc, v, c.status.carry) } else { sbc_spec(c.acc, v, c.status.carry) };
            Ok(CpuView { acc: t.0, status: StatusReg { carry: t.1, overflow: t.2, ..zn_of(c.status, t.0) }, ..c })
        }
    } else {
        Ok(c)
    }
}

#[verifier::opaque]
pub open spec fn read_op_spec(p: InstructionProcedure, m: BusView) -> Step {
    match ea_spec(p, m) {
        Err(f) => Err(f),
        Ok(t) => match t.0 {
            None => Ok((t.1, t.2)),
            Some(a) => match read_spec(t.2, a) {
                Err(f) => Err(f),
                Ok(rv) => match read_apply(p.op, rv.1.cpu, rv.0) {
                    Err(f) => Err(f),
                    Ok(c) => finish_spec(t.1, with_cpu(rv.1, c)),
                },
            },
        },
    }
}

/// The register a store writes.
pub open spec fn store_value(op: Operation, c: CpuView) -> u8 {
    if op == Operation::Sta { c.acc } else if op == Operation::Stx { c.x } else { c.y }
}

#[verifier::opaque]
pub open spec fn store_spec(p: InstructionProcedure, m: BusView) -> Step {
    match ea_spec(p, m) {
        Err(f) => Err(f),
        Ok(t) => match t.0 {
            None => Ok((t.1, t.2)),
            Some(a) => match write_spec(t.2, a, store_value(p.op, t.2.cpu)) {
                Err(f) => Err(f),
                Ok(m2) => Ok((InstructionProcedure { done: true, ..t.1 }, m2)),
            },
        },
    }
}

/// A shift, rotate, increment or decrement of `v` with carry-in `c`: the
/// result and the carry out.
#[verifier::opaque]
pub open spec fn shift_value(op: Operation, v: u8, c: bool) -> (u8, bool) {
    if op == Operation::Asl {
        asl_spec(v)
    } else if op == Operation::Lsr {
        lsr_spec(v)
    } else if op == Operation::Rol {
        rol_spec(v, c)
    } else if op == Operation::Ror {
        ror_spec(v, c)
    } else if op == Operation::Inc {
        (inc8(v), c)
    } else {
        (dec8(v), c)
    }
}

/// Carry takes the bit shifted out (an increment or decrement hands the
/// old Carry through); Zero and Negative follow the result.
pub open spec fn shift_status(s: StatusReg, t: (u8, bool)) -> StatusReg {
    StatusReg { carry: t.1, ..zn_of(s, t.0) }
}

/// The last cycle of a shift on memory: the operand in `tmp0` is shifted,
/// the flags set, and the result written to `a`.
pub open spec fn shift_write_spec(p: InstructionProcedure, m: BusView, a: u16) -> Step {
    let t = shift_value(p.op, p.tmp0, m.cpu.status.carry);
    let m2 = with_cpu(m, CpuView { status: shift_status(m.cpu.status, t), ..m.cpu });
    match write_spec(m2, a, t.0) {
        Err(f) => Err(f),
        Ok(m3) => Ok((InstructionProcedure { tmp0: t.0, done: true, ..p }, m3)),
    }
}

#[verifier::opaque]
pub open spec fn shift_spec(p: InstructionProcedure, m: BusView) -> Step {
    if p.mode == AddrMode::Accumulator {
        if p.cycle == 2 {
            let t = shift_value(p.op, m.cpu.acc, m.cpu.status.carry);
            finish_spec(p, with_cpu(m, CpuView { acc: t.0, status: shift_status(m.cpu.status, t), ..m.cpu }))
        } else {
            Ok((p, m))
        }
    } else {
        match rmw_spec(p, m) {
            Err(f) => Err(f),
            Ok(r) => match r.0 {
                None => Ok((r.1, r.2)),
                Some(a) => shift_write_spec(r.1, r.2, a),
            },
        }
    }
}

/// What a single-byte register or flag instruction does.
pub open spec fn implied_apply(op: Operation, c: CpuView) -> CpuView {
    if op == Operation::Dex {
        CpuView { x: dec8(c.x), status: zn_of(c.status, dec8(c.x)), ..c }
    } else if op == Operation::Dey {
        CpuView { y: dec8(c.y), status: zn_of(c.status, dec8(c.y)), ..c }
    } else if op == Operation::Inx {
        CpuView { x: inc8(c.x), status: zn_of(c.status, inc8(c.x)), ..c }
    } else if op == Operation::Iny {
        CpuView { y: inc8(c.y), status: zn_of(c.status, inc8(c.y)), ..c }
    } else if op == Operation::Tax {
        CpuView { x: c.acc, status: zn_of(c.status, c.acc), ..c }
    } else if op == Operation::Tay {
        CpuView { y: c.acc, status: zn_of(c.status, c.acc), ..c }
    } else if op == Operation::Tsx {
        CpuView { x: c.sp, status: zn_of(c.status, c.sp), ..c }
    } else if op == Operation::Txa {
        CpuView { acc: c.x, status: zn_of(c.status, c.x), ..c }
    } else if op == Operation::Txs {
        CpuView { sp: c.x, ..c }
    } else if op == Operation::Tya {
        CpuView { acc: c.y, status: zn_of(c.status, c.y), ..c }
    } else if op == Operation::Cld {
        CpuView { status: StatusReg { decimal: false, ..c.status }, ..c }
    } else if op == Operation::Sec {
        CpuView { status: StatusReg { carry: true, ..c.status }, ..c }
    } else if op == Operation::Sed {
        CpuView { status: StatusReg { decimal: true, ..c.status }, ..c }
    } else if op == Operation::Sei {
        CpuView { status: StatusReg { interrupt_disable: true, ..c.status }, ..c }
    } else if op == Operation::Clc {
        CpuView { status: StatusReg { carry: false, ..c.status }, ..c }
    } else if op == Operation::Cli {
        CpuView { status: StatusReg { interrupt_disable: false, ..c.status }, ..c }
    } else if op == Operation::Clv {
        CpuView { status: StatusReg { overflow: false, ..c.status }, ..c }
    } else {
        c
    }
}

#[verifier::opaque]
pub open spec fn implied_spec(p: InstructionProcedure, m: BusView) -> Step {
    if p.cycle == 2 {
        finish_spec(p, with_cpu(m, implied_apply(p.op, m.cpu)))
    } else {
        Ok((p, m))
    }
}

/// Whether a branch instruction's condition holds.
pub open spec fn branch_taken(op: Operation, s: StatusReg) -> bool {
    if op == Operation::Bcc {
        !s.carry
    } else if op == Operation::Bcs {
        s.carry
    } else if op == Operation::Beq {
        s.zero
    } else if op == Operation::Bmi {
        s.negative
    } else if op == Operation::Bne {
        !s.zero
    } else if op == Operation::Bpl {
        !s.negative
    } else if op == Operation::Bvc {
        !s.overflow
    } else {
        s.overflow
    }
}

/// The target of a branch: PC plus the signed displacement, wrapping.
pub open spec fn branch_target(pc: u16, off: u8) -> u16 {
    ((pc as int + 65536 + signed(off)) % 65536) as u16
}

pub open spec fn same_page(a: u16, b: u16) -> bool {
    a / 256 == b / 256
}

pub open spec fn with_pc(m: BusView, pc: u16) -> BusView {
    with_cpu(m, CpuView { pc, ..m.cpu })
}

/// A branch: the displacement is fetched on cycle 2, and the instruction
/// ends there when the condition fails; otherwise the target is reached on
/// cycle 3, or on cycle 4 when it lies on another page.
#[verifier::opaque]
pub open spec fn branch_spec(p: InstructionProcedure, m: BusView) -> Step {
    if p.cycle == 2 {
        match fetch_spec(m) {
            Err(f) => Err(f),
            Ok(t) => {
                let p2 = InstructionProcedure { tmp0: t.0, ..p };
                if !branch_taken(p.op, t.1.cpu.status) {
                    finish_spec(p2, t.1)
                } else {
                    Ok((p2, t.1))
                }
            },
        }
    } else if p.cycle == 3 {
        let target = branch_target(m.cpu.pc, p.tmp0);
        let p2 = InstructionProcedure { tmp_addr: target, ..p };
        if same_page(m.cpu.pc, target) {
            finish_spec(p2, with_pc(m, target))
        } else {
            Ok((p2, m))
        }
    } else if p.cycle == 4 {
        finish_spec(p, with_pc(m, p.tmp_addr))
    } else {
        Ok((p, m))
    }
}

/// Where an indirect jump reads its target's high byte: the byte after the
/// pointer, without carrying into the pointer's high byte, so a pointer at
/// the end of a page wraps to the start of the same page.
pub open spec fn indirect_high(ptr: u16) -> u16 {
    concat_spec((ptr / 256) as u8, ((ptr % 256 + 1) % 256) as u8)
}

#[verifier::opaque]
pub open spec fn jmp_spec(p: InstructionProcedure, m: BusView) -> Step {
    if p.mode == AddrMode::Absolute {
        if p.cycle == 2 {
            match fetch_spec(m) {
                Err(f) => Err(f),
                Ok(t) => Ok((InstructionProcedure { tmp0: t.0, ..p }, t.1)),
            }
        } else if p.cycle == 3 {
            match read_spec(m, m.cpu.pc) {
                Err(f) => Err(f),
                Ok(t) => finish_spec(p, with_pc(t.1, concat_spec(t.0, p.tmp0))),
            }
        } else {
            Ok((p, m))
        }
    } else if p.mode == AddrMode::Indirect {
        if p.cycle == 2 {
            match fetch_spec(m) {
                Err(f) => Err(f),
                Ok(t) => Ok((InstructionProcedure { tmp0: t.0, ..p }, t.1)),
            }
        } else if p.cycle == 3 {
            match fetch_spec(m) {
                Err(f) => Err(f),
                Ok(t) => Ok((InstructionProcedure { tmp1: t.0, ..p }, t.1)),
            }
        } else if p.cycle == 4 {
            let ptr = concat_spec(p.tmp1, p.tmp0);
            match read_spec(m, ptr) {
                Err(f) => Err(f),
                Ok(t) => Ok((InstructionProcedure { tmp_addr: ptr, tmp0: t.0, ..p }, t.1)),
            }
        } else if p.cycle == 5 {
            match read_spec(m, indirect_high(p.tmp_addr)) {
                Err(f) => Err(f),
                Ok(t) => finish_spec(InstructionProcedure { tmp1: t.0, ..p }, with_pc(t.1, concat_spec(t.0, p.tmp0))),
            }
        } else {
            Ok((p, m))
        }
    } else {
        Err(Fault::UnsupportedMode)
    }
}

/// A subroutine call: the low target byte is fetched, the stack is read and
/// the value discarded, PC (now the call's last byte) is pushed high byte
/// first, and the high target byte is fetched as the jump is made.
#[verifier::opaque]
pub open spec fn jsr_spec(p: InstructionProcedure, m: BusView) -> Step {
    if p.cycle == 2 {
        match fetch_spec(m) {
            Err(f) => Err(f),
            Ok(t) => Ok((InstructionProcedure { tmp0: t.0, ..p }, t.1)),
        }
    } else if p.cycle == 3 {
        match read_spec(m, (0x100 + m.cpu.sp) as u16) {
            Err(f) => Err(f),
            Ok(t) => Ok((p, t.1)),
        }
    } else if p.cycle == 4 {
        match push_spec(m, (m.cpu.pc / 256) as u8) {
            Err(f) => Err(f),
            Ok(m2) => Ok((p, m2)),
        }
    } else if p.cycle == 5 {
        match push_spec(m, (m.cpu.pc % 256) as u8) {
            Err(f) => Err(f),
            Ok(m2) => Ok((p, m2)),
        }
    } else if p.cycle == 6 {
        match fetch_spec(m) {
            Err(f) => Err(f),
            Ok(t) => finish_spec(InstructionProcedure { tmp1: t.0, ..p }, with_pc(t.1, concat_spec(t.0, p.tmp0))),
        }
    } else {
        Ok((p, m))
    }
}

/// The status register as PHP pushes it: Break and the reserved bit set.
pub open spec fn pushed_status(s: StatusReg) -> u8 {
    StatusReg { brk: true, ..s }.byte_spec()
}

/// The status register after PLP pulls `b`: every flag but Break from its
/// bit.
pub open spec fn pulled_status(s: StatusReg, b: u8) -> StatusReg {
    StatusReg {
        negative: b & 0x80 != 0,
        overflow: b & 0x40 != 0,
        decimal: b & 0x08 != 0,
        interrupt_disable: b & 0x04 != 0,
        zero: b & 0x02 != 0,
        carry: b & 0x01 != 0,
        ..s
    }
}

/// Pushes take 3 cycles and pulls 4: a discarded read of the next byte,
/// for a pull a discarded read of the stack, then the stack access.
/// RTS takes 6: after the two discarded reads it pulls the return address
/// low byte first, then reads the byte there, discarding it, and steps past.
#[verifier::opaque]
pub open spec fn stack_spec(p: InstructionProcedure, m: BusView) -> Step {
    if p.cycle == 2 {
        match read_spec(m, m.cpu.pc) {
            Err(f) => Err(f),
            Ok(t) => Ok((p, t.1)),
        }
    } else if p.cycle == 3 && (p.op == Operation::Pha || p.op == Operation::Php) {
        let v = if p.op == Operation::Pha { m.cpu.acc } else { pushed_status(m.cpu.status) };
        match push_spec(m, v) {
            Err(f) => Err(f),
            Ok(m2) => Ok((InstructionProcedure { done: true, ..p }, m2)),
        }
    } else if p.cycle == 3 {
        match read_spec(m, (0x100 + m.cpu.sp) as u16) {
            Err(f) => Err(f),
            Ok(t) => Ok((p, t.1)),
        }
    } else if p.cycle == 4 && p.op == Operation::Pla {
        match pull_spec(m) {
            Err(f) => Err(f),
            Ok(t) => Ok((InstructionProcedure { done: true, ..p }, with_cpu(t.1, CpuView { acc: t.0, status: zn_of(t.1.cpu.status, t.0), ..t.1.cpu }))),
        }
    } else if p.cycle == 4 && p.op == Operation::Plp {
        match pull_spec(m) {
            Err(f) => Err(f),
            Ok(t) => Ok((InstructionProcedure { done: true, ..p }, with_cpu(t.1, CpuView { status: pulled_status(t.1.cpu.status, t.0), ..t.1.cpu }))),
        }
    } else if p.cycle == 4 && p.op == Operation::Rts {
        match pull_spec(m) {
            Err(f) => Err(f),
            Ok(t) => Ok((InstructionProcedure { tmp0: t.0, ..p }, t.1)),
        }
    } else if p.cycle == 5 && p.op == Operation::Rts {
        match pull_spec(m) {
            Err(f) => Err(f),
            Ok(t) => Ok((InstructionProcedure { tmp1: t.0, ..p }, with_pc(t.1, concat_spec(t.0, p.tmp0)))),
        }
    } else if p.cycle == 6 && p.op == Operation::Rts {
        match read_spec(m, m.cpu.pc) {
            Err(f) => Err(f),
            Ok(t) => Ok((InstructionProcedure { done: true, ..p }, with_pc(t.1, inc16(m.cpu.pc)))),
        }
    } else {
        Ok((p, m))
    }
}

/// One cycle of the instruction in flight, before its cycle index advances.
pub open spec fn exec_spec(p: InstructionProcedure, m: BusView) -> Step {
    if is_plain_nop(p.op, p.mode) {
        implied_spec(p, m)
    } else if is_read_op(p.op) {
        read_op_spec(p, m)
    } else if is_store_op(p.op) {
        store_spec(p, m)
    } else if is_rmw_op(p.op) {
        shift_spec(p, m)
    } else if is_implied_op(p.op) {
        implied_spec(p, m)
    } else if is_branch_op(p.op) {
        branch_spec(p, m)
    } else if p.op == Operation::Jmp {
        jmp_spec(p, m)
    } else if p.op == Operation::Jsr {
        jsr_spec(p, m)
    } else if is_stack_op(p.op) {
        stack_spec(p, m)
    } else {
        Err(Fault::Unimplemented)
    }
}


fn finish(p: &mut InstructionProcedure, bus: &mut Bus) -> (r: Result<(), Fault>)
    requires
        old(bus).wf(),
    ensures
        final(bus).wf(),
        step_outcome(r, *final(p), final(bus)@, finish_spec(*old(p), old(bus)@)),
{
    match Cpu::fetch(bus) {
        Ok(v) => {
            bus.cpu.prefetch = Some(v);
            p.done = true;
            Ok(())
        },
        Err(f) => Err(f),
    }
}

fn lda(p: &mut InstructionProcedure, bus: &mut Bus) -> (r: Result<(), Fault>)
    requires
        old(bus).wf(),
        old(p).op == Operation::Lda,
    ensures
        final(bus).wf(),
        step_outcome(r, *final(p), final(bus)@, read_op_spec(*old(p), old(bus)@)),
{
    reveal(read_op_spec);
    match effective_addr(p, bus) {
        Err(f) => Err(f),
        Ok(None) => Ok(()),
        Ok(Some(a)) => match bus.read(a) {
            Err(f) => Err(f),
            Ok(v) => {
                bus.cpu.acc = v;
                bus.cpu.status.set_zn(v);
                finish(p, bus)
            },
        },
    }
}

fn ldx(p: &mut InstructionProcedure, bus: &mut Bus) -> (r: Result<(), Fault>)
    requires
        old(bus).wf(),
        old(p).op == Operation::Ldx,
    ensures
        final(bus).wf(),
        step_outcome(r, *final(p), final(bus)@, read_op_spec(*old(p), old(bus)@)),
{
    reveal(read_op_spec);
    match effective_addr(p, bus) {
        Err(f) => Err(f),
        Ok(None) => Ok(()),
        Ok(Some(a)) => match bus.read(a) {
            Err(f) => Err(f),
            Ok(v) => {
                bus.cpu.x = v;
                bus.cpu.status.set_zn(v);
                finish(p, bus)
            },
        },
    }
}

fn ldy(p: &mut InstructionProcedure, bus: &mut Bus) -> (r: Result<(), Fault>)
    requires
        old(bus).wf(),
        old(p).op == Operation::Ldy,
    ensures
        final(bus).wf(),
        step_outcome(r, *final(p), final(bus)@, read_op_spec(*old(p), old(bus)@)),
{
    reveal(read_op_spec);
    match effective_addr(p, bus) {
        Err(f) => Err(f),
        Ok(None) => Ok(()),
        Ok(Some(a)) => match bus.read(a) {
            Err(f) => Err(f),
            Ok(v) => {
                bus.cpu.y = v;
                bus.cpu.status.set_zn(v);
                finish(p, bus)
            },
        },
    }
}

fn eor(p: &mut InstructionProcedure, bus: &mut Bus) -> (r: Result<(), Fault>)
    requires
        old(bus).wf(),
        old(p).op == Operation::Eor,
    ensures
        final(bus).wf(),
        step_outcome(r, *final(p), final(bus)@, read_op_spec(*old(p), old(bus)@)),
{
    reveal(read_op_spec);
    match effective_addr(p, bus) {
        Err(f) => Err(f),
        Ok(None) => Ok(()),
        Ok(Some(a)) => match bus.read(a) {
            Err(f) => Err(f),
            Ok(v) => {
                let a = bus.cpu.acc ^ v;
                bus.cpu.acc = a;
                bus.cpu.status.set_zn(a);
                finish(p, bus)
            },
        },
    }
}

fn sbc(p: &mut InstructionProcedure, bus: &mut Bus) -> (r: Result<(), Fault>)
    requires
        old(bus).wf(),
        old(p).op == Operation::Sbc,
    ensures
        final(bus).wf(),
        step_outcome(r, *final(p), final(bus)@, read_op_spec(*old(p), old(bus)@)),
{
    reveal(read_op_spec);
    match effective_addr(p, bus) {
        Err(f) => Err(f),
        Ok(None) => Ok(()),
        Ok(Some(a)) => match bus.read(a) {
            Err(f) => Err(f),
            Ok(v) => {
                if bus.cpu.status.decimal {
                    Err(Fault::Unimplemented)
                } else {
                    let (res, carry, overflow) = sbc_value(bus.cpu.acc, v, bus.cpu.status.carry);
                    bus.cpu.status.set_zn(res);
                    bus.cpu.status.carry = carry;
                    bus.cpu.status.overflow = overflow;
                    bus.cpu.acc = res;
                    finish(p, bus)
                }
            },
        },
    }
}

fn sta(p: &mut InstructionProcedure, bus: &mut Bus) -> (r: Result<(), Fault>)
    requires
        old(bus).wf(),
        old(p).op == Operation::Sta,
    ensures
        final(bus).wf(),
        step_outcome(r, *final(p), final(bus)@, store_spec(*old(p), old(bus)@)),
{
    reveal(store_spec);
    match effective_addr(p, bus) {
        Err(f) => Err(f),
        Ok(None) => Ok(()),
        Ok(Some(a)) => {
            let v = bus.cpu.acc;
            match bus.write(a, v) {
                Ok(()) => {
                    p.done = true;
                    Ok(())
                },
                Err(f) => Err(f),
            }
        },
    }
}

fn stx(p: &mut InstructionProcedure, bus: &mut Bus) -> (r: Result<(), Fault>)
    requires
        old(bus).wf(),
        old(p).op == Operation::Stx,
    ensures
        final(bus).wf(),
        step_outcome(r, *final(p), final(bus)@, store_spec(*old(p), old(bus)@)),
{
    reveal(store_spec);
    match effective_addr(p, bus) {
        Err(f) => Err(f),
        Ok(None) => Ok(()),
        Ok(Some(a)) => {
            let v = bus.cpu.x;
            match bus.write(a, v) {
                Ok(()) => {
                    p.done = true;
                    Ok(())
                },
                Err(f) => Err(f),
            }
        },
    }
}

fn sty(p: &mut InstructionProcedure, bus: &mut Bus) -> (r: Result<(), Fault>)
    requires
        old(bus).wf(),
        old(p).op == Operation::Sty,
    ensures
        final(bus).wf(),
        step_outcome(r, *final(p), final(bus)@, store_spec(*old(p), old(bus)@)),
{
    reveal(store_spec);
    match effective_addr(p, bus) {
        Err(f) => Err(f),
        Ok(None) => Ok(()),
        Ok(Some(a)) => {
            let v = bus.cpu.y;
            match bus.write(a, v) {
                Ok(()) => {
                    p.done = true;
                    Ok(())
                },
                Err(f) => Err(f),
            }
        },
    }
}

fn and(p: &mut InstructionProcedure, bus: &mut Bus) -> (r: Result<(), Fault>)
    requires
        old(bus).wf(),
        old(p).op == Operation::And,
    ensures
        final(bus).wf(),
        step_outcome(r, *final(p), final(bus)@, read_op_spec(*old(p), old(bus)@)),
{
    reveal(read_op_spec);
    match effective_addr(p, bus) {
        Err(f) => Err(f),
        Ok(None) => Ok(()),
        Ok(Some(a)) => match bus.read(a) {
            Err(f) => Err(f),
            Ok(v) => {
                let a = bus.cpu.acc & v;
                bus.cpu.acc = a;
                bus.cpu.status.set_zn(a);
                finish(p, bus)
            },
        },
    }
}

fn ora(p: &mut InstructionProcedure, bus: &mut Bus) -> (r: Result<(), Fault>)
    requires
        old(bus).wf(),
        old(p).op == Operation::Ora,
    ensures
        final(bus).wf(),
        step_outcome(r, *final(p), final(bus)@, read_op_spec(*old(p), old(bus)@)),
{
    reveal(read_op_spec);
    match effective_addr(p, bus) {
        Err(f) => Err(f),
        Ok(None) => Ok(()),
        Ok(Some(a)) => match bus.read(a) {
            Err(f) => Err(f),
            Ok(v) => {
                let a = bus.cpu.acc | v;
                bus.cpu.acc = a;
                bus.cpu.status.set_zn(a);
                finish(p, bus)
            },
        },
    }
}

fn cmp(p: &mut InstructionProcedure, bus: &mut Bus) -> (r: Result<(), Fault>)
    requires
        old(bus).wf(),
        old(p).op == Operation::Cmp,
    ensures
        final(bus).wf(),
        step_outcome(r, *final(p), final(bus)@, read_op_spec(*old(p), old(bus)@)),
{
    reveal(read_op_spec);
    match effective_addr(p, bus) {
        Err(f) => Err(f),
        Ok(None) => Ok(()),
        Ok(Some(a)) => match bus.read(a) {
            Err(f) => Err(f),
            Ok(v) => {
                let (carry, zero, negative) = compare_value(bus.cpu.acc, v);
                bus.cpu.status.carry = carry;
                bus.cpu.status.zero = zero;
                bus.cpu.status.negative = negative;
                finish(p, bus)
            },
        },
    }
}

fn cpx(p: &mut InstructionProcedure, bus: &mut Bus) -> (r: Result<(), Fault>)
    requires
        old(bus).wf(),
        old(p).op == Operation::Cpx,
    ensures
        final(bus).wf(),
        step_outcome(r, *final(p), final(bus)@, read_op_spec(*old(p), old(bus)@)),
{
    reveal(read_op_spec);
    match effective_addr(p, bus) {
        Err(f) => Err(f),
        Ok(None) => Ok(()),
        Ok(Some(a)) => match bus.read(a) {
            Err(f) => Err(f),
            Ok(v) => {
                let (carry, zero, negative) = compare_value(bus.cpu.x, v);
                bus.cpu.status.carry = carry;
                bus.cpu.status.zero = zero;
                bus.cpu.status.negative = negative;
                finish(p, bus)
            },
        },
    }
}

fn cpy(p: &mut InstructionProcedure, bus: &mut Bus) -> (r: Result<(), Fault>)
    requires
        old(bus).wf(),
        old(p).op == Operation::Cpy,
    ensures
        final(bus).wf(),
        step_outcome(r, *final(p), final(bus)@, read_op_spec(*old(p), old(bus)@)),
{
    reveal(read_op_spec);
    match effective_addr(p, bus) {
        Err(f) => Err(f),
        Ok(None) => Ok(()),
        Ok(Some(a)) => match bus.read(a) {
            Err(f) => Err(f),
            Ok(v) => {
                let (carry, zero, negative) = compare_value(bus.cpu.y, v);
                bus.cpu.status.carry = carry;
                bus.cpu.status.zero = zero;
                bus.cpu.status.negative = negative;
                finish(p, bus)
            },
        },
    }
}

fn bit(p: &mut InstructionProcedure, bus: &mut Bus) -> (r: Result<(), Fault>)
    requires
        old(bus).wf(),
        old(p).op == Operation::Bit,
    ensures
        final(bus).wf(),
        step_outcome(r, *final(p), final(bus)@, read_op_spec(*old(p), old(bus)@)),
{
    reveal(read_op_spec);
    match effective_addr(p, bus) {
        Err(f) => Err(f),
        Ok(None) => Ok(()),
        Ok(Some(a)) => match bus.read(a) {
            Err(f) => Err(f),
            Ok(v) => {
                let a = bus.cpu.acc;
                bus.cpu.status.zero = a & v == 0;
                bus.cpu.status.negative = v >= 0x80;
                bus.cpu.status.overflow = v & 0x40 != 0;
                finish(p, bus)
            },
        },
    }
}

fn adc(p: &mut InstructionProcedure, bus: &mut Bus) -> (r: Result<(), Fault>)
    requires
        old(bus).wf(),
        old(p).op == Operation::Adc,
    ensures
        final(bus).wf(),
        step_outcome(r, *final(p), final(bus)@, read_op_spec(*old(p), old(bus)@)),
{
    reveal(read_op_spec);
    match effective_addr(p, bus) {
        Err(f) => Err(f),
        Ok(None) => Ok(()),
        Ok(Some(a)) => match bus.read(a) {
            Err(f) => Err(f),
            Ok(v) => {
                if bus.cpu.status.decimal {
                    Err(Fault::Unimplemented)
                } else {
                    let (res, carry, overflow) = adc_value(bus.cpu.acc, v, bus.cpu.status.carry);
                    bus.cpu.status.set_zn(res);
                    bus.cpu.status.carry = carry;
                    bus.cpu.status.overflow = overflow;
                    bus.cpu.acc = res;
                    finish(p, bus)
                }
            },
        },
    }
}

fn clc(p: &mut InstructionProcedure, bus: &mut Bus) -> (r: Result<(), Fault>)
    requires
        old(bus).wf(),
        old(p).op == Operation::Clc,
    ensures
        final(bus).wf(),
        step_outcome(r, *final(p), final(bus)@, implied_spec(*old(p), old(bus)@)),
{
    reveal(implied_spec);
    if p.cycle == 2 {
        bus.cpu.status.carry = false;
        finish(p, bus)
    } else {
        Ok(())
    }
}

fn cli(p: &mut InstructionProcedure, bus: &mut Bus) -> (r: Result<(), Fault>)
    requires
        old(bus).wf(),
        old(p).op == Operation::Cli,
    ensures
        final(bus).wf(),
        step_outcome(r, *final(p), final(bus)@, implied_spec(*old(p), old(bus)@)),
{
    reveal(implied_spec);
    if p.cycle == 2 {
        bus.cpu.status.interrupt_disable = false;
        finish(p, bus)
    } else {
        Ok(())
    }
}

fn clv(p: &mut InstructionProcedure, bus: &mut Bus) -> (r: Result<(), Fault>)
    requires
        old(bus).wf(),
        old(p).op == Operation::Clv,
    ensures
        final(bus).wf(),
        step_outcome(r, *final(p), final(bus)@, implied_spec(*old(p), old(bus)@)),
{
    reveal(implied_spec);
    if p.cycle == 2 {
        bus.cpu.status.overflow = false;
        finish(p, bus)
    } else {
        Ok(())
    }
}

/// NOP: two cycles in its one-byte form; otherwise it reads its operand
/// through the addressing template and discards it.
fn nop(p: &mut InstructionProcedure, bus: &mut Bus) -> (r: Result<(), Fault>)
    requires
        old(bus).wf(),
        old(p).op == Operation::Nop,
    ensures
        final(bus).wf(),
        step_outcome(r, *final(p), final(bus)@, exec_spec(*old(p), old(bus)@)),
{
    reveal(implied_spec);
    reveal(read_op_spec);
    if p.mode == AddrMode::Implied {
        if p.cycle == 2 {
            finish(p, bus)
        } else {
            Ok(())
        }
    } else {
        match effective_addr(p, bus) {
            Err(f) => Err(f),
            Ok(None) => Ok(()),
            Ok(Some(a)) => match bus.read(a) {
                Err(f) => Err(f),
                Ok(_) => finish(p, bus),
            },
        }
    }
}

fn dex(p: &mut InstructionProcedure, bus: &mut Bus) -> (r: Result<(), Fault>)
    requires
        old(bus).wf(),
        old(p).op == Operation::Dex,
    ensures
        final(bus).wf(),
        step_outcome(r, *final(p), final(bus)@, implied_spec(*old(p), old(bus)@)),
{
    reveal(implied_spec);
    if p.cycle == 2 {
        bus.cpu.x = bus.cpu.x.wrapping_sub(1);
        let v = bus.cpu.x;
        bus.cpu.status.set_zn(v);
        finish(p, bus)
    } else {
        Ok(())
    }
}

fn dey(p: &mut InstructionProcedure, bus: &mut Bus) -> (r: Result<(), Fault>)
    requires
        old(bus).wf(),
        old(p).op == Operation::Dey,
    ensures
        final(bus).wf(),
        step_outcome(r, *final(p), final(bus)@, implied_spec(*old(p), old(bus)@)),
{
    reveal(implied_spec);
    if p.cycle == 2 {
        bus.cpu.y = bus.cpu.y.wrapping_sub(1);
        let v = bus.cpu.y;
        bus.cpu.status.set_zn(v);
        finish(p, bus)
    } else {
        Ok(())
    }
}

fn inx(p: &mut InstructionProcedure, bus: &mut Bus) -> (r: Result<(), Fault>)
    requires
        old(bus).wf(),
        old(p).op == Operation::Inx,
    ensures
        final(bus).wf(),
        step_outcome(r, *final(p), final(bus)@, implied_spec(*old(p), old(bus)@)),
{
    reveal(implied_spec);
    if p.cycle == 2 {
        bus.cpu.x = bus.cpu.x.wrapping_add(1);
        let v = bus.cpu.x;
        bus.cpu.status.set_zn(v);
        finish(p, bus)
    } else {
        Ok(())
    }
}

fn iny(p: &mut InstructionProcedure, bus: &mut Bus) -> (r: Result<(), Fault>)
    requires
        old(bus).wf(),
        old(p).op == Operation::Iny,
    ensures
        final(bus).wf(),
        step_outcome(r, *final(p), final(bus)@, implied_spec(*old(p), old(bus)@)),
{
    reveal(implied_spec);
    if p.cycle == 2 {
        bus.cpu.y = bus.cpu.y.wrapping_add(1);
        let v = bus.cpu.y;
        bus.cpu.status.set_zn(v);
        finish(p, bus)
    } else {
        Ok(())
    }
}

fn tax(p: &mut InstructionProcedure, bus: &mut Bus) -> (r: Result<(), Fault>)
    requires
        old(bus).wf(),
        old(p).op == Operation::Tax,
    ensures
        final(bus).wf(),
        step_outcome(r, *final(p), final(bus)@, implied_spec(*old(p), old(bus)@)),
{
    reveal(implied_spec);
    if p.cycle == 2 {
        let v = bus.cpu.acc;
        bus.cpu.x = v;
        bus.cpu.status.set_zn(v);
        finish(p, bus)
    } else {
        Ok(())
    }
}

fn tay(p: &mut InstructionProcedure, bus: &mut Bus) -> (r: Result<(), Fault>)
    requires
        old(bus).wf(),
        old(p).op == Operation::Tay,
    ensures
        final(bus).wf(),
        step_outcome(r, *final(p), final(bus)@, implied_spec(*old(p), old(bus)@)),
{
    reveal(implied_spec);
    if p.cycle == 2 {
        let v = bus.cpu.acc;
        bus.cpu.y = v;
        bus.cpu.status.set_zn(v);
        finish(p, bus)
    } else {
        Ok(())
    }
}

fn tsx(p: &mut InstructionProcedure, bus: &mut Bus) -> (r: Result<(), Fault>)
    requires
        old(bus).wf(),
        old(p).op == Operation::Tsx,
    ensures
        final(bus).wf(),
        step_outcome(r, *final(p), final(bus)@, implied_spec(*old(p), old(bus)@)),
{
    reveal(implied_spec);
    if p.cycle == 2 {
        let v = bus.cpu.sp;
        bus.cpu.x = v;
        bus.cpu.status.set_zn(v);
        finish(p, bus)
    } else {
        Ok(())
    }
}

fn txa(p: &mut InstructionProcedure, bus: &mut Bus) -> (r: Result<(), Fault>)
    requires
        old(bus).wf(),
        old(p).op == Operation::Txa,
    ensures
        final(bus).wf(),
        step_outcome(r, *final(p), final(bus)@, implied_spec(*old(p), old(bus)@)),
{
    reveal(implied_spec);
    if p.cycle == 2 {
        let v = bus.cpu.x;
        bus.cpu.acc = v;
        bus.cpu.status.set_zn(v);
        finish(p, bus)
    } else {
        Ok(())
    }
}

fn txs(p: &mut InstructionProcedure, bus: &mut Bus) -> (r: Result<(), Fault>)
    requires
        old(bus).wf(),
        old(p).op == Operation::Txs,
    ensures
        final(bus).wf(),
        step_outcome(r, *final(p), final(bus)@, implied_spec(*old(p), old(bus)@)),
{
    reveal(implied_spec);
    if p.cycle == 2 {
        bus.cpu.sp = bus.cpu.x;
        finish(p, bus)
    } else {
        Ok(())
    }
}

fn tya(p: &mut InstructionProcedure, bus: &mut Bus) -> (r: Result<(), Fault>)
    requires
        old(bus).wf(),
        old(p).op == Operation::Tya,
    ensures
        final(bus).wf(),
        step_outcome(r, *final(p), final(bus)@, implied_spec(*old(p), old(bus)@)),
{
    reveal(implied_spec);
    if p.cycle == 2 {
        let v = bus.cpu.y;
        bus.cpu.acc = v;
        bus.cpu.status.set_zn(v);
        finish(p, bus)
    } else {
        Ok(())
    }
}

fn cld(p: &mut InstructionProcedure, bus: &mut Bus) -> (r: Result<(), Fault>)
    requires
        old(bus).wf(),
        old(p).op == Operation::Cld,
    ensures
        final(bus).wf(),
        step_outcome(r, *final(p), final(bus)@, implied_spec(*old(p), old(bus)@)),
{
    reveal(implied_spec);
    if p.cycle == 2 {
        bus.cpu.status.decimal = false;
        finish(p, bus)
    } else {
        Ok(())
    }
}

fn sec(p: &mut InstructionProcedure, bus: &mut Bus) -> (r: Result<(), Fault>)
    requires
        old(bus).wf(),
        old(p).op == Operation::Sec,
    ensures
        final(bus).wf(),
        step_outcome(r, *final(p), final(bus)@, implied_spec(*old(p), old(bus)@)),
{
    reveal(implied_spec);
    if p.cycle == 2 {
        bus.cpu.status.carry = true;
        finish(p, bus)
    } else {
        Ok(())
    }
}

fn sed(p: &mut InstructionProcedure, bus: &mut Bus) -> (r: Result<(), Fault>)
    requires
        old(bus).wf(),
        old(p).op == Operation::Sed,
    ensures
        final(bus).wf(),
        step_outcome(r, *final(p), final(bus)@, implied_spec(*old(p), old(bus)@)),
{
    reveal(implied_spec);
    if p.cycle == 2 {
        bus.cpu.status.decimal = true;
        finish(p, bus)
    } else {
        Ok(())
    }
}

fn sei(p: &mut InstructionProcedure, bus: &mut Bus) -> (r: Result<(), Fault>)
    requires
        old(bus).wf(),
        old(p).op == Operation::Sei,
    ensures
        final(bus).wf(),
        step_outcome(r, *final(p), final(bus)@, implied_spec(*old(p), old(bus)@)),
{
    reveal(implied_spec);
    if p.cycle == 2 {
        bus.cpu.status.interrupt_disable = true;
        finish(p, bus)
    } else {
        Ok(())
    }
}

fn branch(p: &mut InstructionProcedure, bus: &mut Bus, to_branch: bool) -> (r: Result<(), Fault>)
    requires
        old(bus).wf(),
        is_branch_op(old(p).op),
        to_branch == branch_taken(old(p).op, old(bus).cpu.status),
    ensures
        final(bus).wf(),
        step_outcome(r, *final(p), final(bus)@, branch_spec(*old(p), old(bus)@)),
{
    reveal(branch_spec);
    if p.cycle == 2 {
        match Cpu::fetch(bus) {
            Err(f) => Err(f),
            Ok(v) => {
                p.tmp0 = v;
                if !to_branch {
                    finish(p, bus)
                } else {
                    Ok(())
                }
            },
        }
    } else if p.cycle == 3 {
        let pc = bus.cpu.pc;
        let off = p.tmp0;
        let wide: u32 = if off >= 0x80 {
            pc as u32 + 65536 + off as u32 - 256
        } else {
            pc as u32 + 65536 + off as u32
        };
        let target = (wide % 65536) as u16;
        p.tmp_addr = target;
        if pc / 256 == target / 256 {
            bus.cpu.pc = target;
            finish(p, bus)
        } else {
            Ok(())
        }
    } else if p.cycle == 4 {
        bus.cpu.pc = p.tmp_addr;
        finish(p, bus)
    } else {
        Ok(())
    }
}

fn bcc(p: &mut InstructionProcedure, bus: &mut Bus) -> (r: Result<(), Fault>)
    requires
        old(bus).wf(),
        old(p).op == Operation::Bcc,
    ensures
        final(bus).wf(),
        step_outcome(r, *final(p), final(bus)@, branch_spec(*old(p), old(bus)@)),
{
    reveal(branch_spec);
    let taken = !bus.cpu.status.carry;
    branch(p, bus, taken)
}

fn bcs(p: &mut InstructionProcedure, bus: &mut Bus) -> (r: Result<(), Fault>)
    requires
        old(bus).wf(),
        old(p).op == Operation::Bcs,
    ensures
        final(bus).wf(),
        step_outcome(r, *final(p), final(bus)@, branch_spec(*old(p), old(bus)@)),
{
    reveal(branch_spec);
    let taken = bus.cpu.status.carry;
    branch(p, bus, taken)
}

fn beq(p: &mut InstructionProcedure, bus: &mut Bus) -> (r: Result<(), Fault>)
    requires
        old(bus).wf(),
        old(p).op == Operation::Beq,
    ensures
        final(bus).wf(),
        step_outcome(r, *final(p), final(bus)@, branch_spec(*old(p), old(bus)@)),
{
    reveal(branch_spec);
    let taken = bus.cpu.status.zero;
    branch(p, bus, taken)
}

fn bmi(p: &mut InstructionProcedure, bus: &mut Bus) -> (r: Result<(), Fault>)
    requires
        old(bus).wf(),
        old(p).op == Operation::Bmi,
    ensures
        final(bus).wf(),
        step_outcome(r, *final(p), final(bus)@, branch_spec(*old(p), old(bus)@)),
{
    reveal(branch_spec);
    let taken = bus.cpu.status.negative;
    branch(p, bus, taken)
}

fn bne(p: &mut InstructionProcedure, bus: &mut Bus) -> (r: Result<(), Fault>)
    requires
        old(bus).wf(),
        old(p).op == Operation::Bne,
    ensures
        final(bus).wf(),
        step_outcome(r, *final(p), final(bus)@, branch_spec(*old(p), old(bus)@)),
{
    reveal(branch_spec);
    let taken = !bus.cpu.status.zero;
    branch(p, bus, taken)
}

fn bpl(p: &mut InstructionProcedure, bus: &mut Bus) -> (r: Result<(), Fault>)
    requires
        old(bus).wf(),
        old(p).op == Operation::Bpl,
    ensures
        final(bus).wf(),
        step_outcome(r, *final(p), final(bus)@, branch_spec(*old(p), old(bus)@)),
{
    reveal(branch_spec);
    let taken = !bus.cpu.status.negative;
    branch(p, bus, taken)
}

fn bvc(p: &mut InstructionProcedure, bus: &mut Bus) -> (r: Result<(), Fault>)
    requires
        old(bus).wf(),
        old(p).op == Operation::Bvc,
    ensures
        final(bus).wf(),
        step_outcome(r, *final(p), final(bus)@, branch_spec(*old(p), old(bus)@)),
{
    reveal(branch_spec);
    let taken = !bus.cpu.status.overflow;
    branch(p, bus, taken)
}

fn bvs(p: &mut InstructionProcedure, bus: &mut Bus) -> (r: Result<(), Fault>)
    requires
        old(bus).wf(),
        old(p).op == Operation::Bvs,
    ensures
        final(bus).wf(),
        step_outcome(r, *final(p), final(bus)@, branch_spec(*old(p), old(bus)@)),
{
    reveal(branch_spec);
    let taken = bus.cpu.status.overflow;
    branch(p, bus, taken)
}

fn jmp(p: &mut InstructionProcedure, bus: &mut Bus) -> (r: Result<(), Fault>)
    requires
        old(bus).wf(),
        old(p).op == Operation::Jmp,
    ensures
        final(bus).wf(),
        step_outcome(r, *final(p), final(bus)@, jmp_spec(*old(p), old(bus)@)),
{
    reveal(jmp_spec);
    match p.mode {
        AddrMode::Absolute => {
            if p.cycle == 2 {
                match Cpu::fetch(bus) {
                    Ok(v) => {
                        p.tmp0 = v;
                        Ok(())
                    },
                    Err(f) => Err(f),
                }
            } else if p.cycle == 3 {
                let pc = bus.cpu.pc;
                match bus.read(pc) {
                    Ok(high) => {
                        bus.cpu.pc = addr_concat(high, p.tmp0);
                        finish(p, bus)
                    },
                    Err(f) => Err(f),
                }
            } else {
                Ok(())
            }
        },
        AddrMode::Indirect => {
            if p.cycle == 2 {
                match Cpu::fetch(bus) {
                    Ok(v) => {
                        p.tmp0 = v;
                        Ok(())
                    },
                    Err(f) => Err(f),
                }
            } else if p.cycle == 3 {
                match Cpu::fetch(bus) {
                    Ok(v) => {
                        p.tmp1 = v;
                        Ok(())
                    },
                    Err(f) => Err(f),
                }
            } else if p.cycle == 4 {
                let ptr = addr_concat(p.tmp1, p.tmp0);
                match bus.read(ptr) {
                    Ok(v) => {
                        p.tmp_addr = ptr;
                        p.tmp0 = v;
                        Ok(())
                    },
                    Err(f) => Err(f),
                }
            } else if p.cycle == 5 {
                let high_addr = addr_concat((p.tmp_addr / 256) as u8, ((p.tmp_addr % 256 + 1) % 256) as u8);
                match bus.read(high_addr) {
                    Ok(high) => {
                        p.tmp1 = high;
                        bus.cpu.pc = addr_concat(high, p.tmp0);
                        finish(p, bus)
                    },
                    Err(f) => Err(f),
                }
            } else {
                Ok(())
            }
        },
        _ => Err(Fault::UnsupportedMode),
    }
}

fn jsr(p: &mut InstructionProcedure, bus: &mut Bus) -> (r: Result<(), Fault>)
    requires
        old(bus).wf(),
        old(p).op == Operation::Jsr,
    ensures
        final(bus).wf(),
        step_outcome(r, *final(p), final(bus)@, jsr_spec(*old(p), old(bus)@)),
{
    reveal(jsr_spec);
    if p.cycle == 2 {
        match Cpu::fetch(bus) {
            Ok(v) => {
                p.tmp0 = v;
                Ok(())
            },
            Err(f) => Err(f),
        }
    } else if p.cycle == 3 {
        let sp = bus.cpu.sp;
        match bus.read(0x100 + sp as u16) {
            Ok(_) => Ok(()),
            Err(f) => Err(f),
        }
    } else if p.cycle == 4 {
        let pc = bus.cpu.pc;
        Cpu::stack_push(bus, (pc / 256) as u8)
    } else if p.cycle == 5 {
        let pc = bus.cpu.pc;
        Cpu::stack_push(bus, (pc % 256) as u8)
    } else if p.cycle == 6 {
        match Cpu::fetch(bus) {
            Ok(high) => {
                p.tmp1 = high;
                bus.cpu.pc = addr_concat(high, p.tmp0);
                finish(p, bus)
            },
            Err(f) => Err(f),
        }
    } else {
        Ok(())
    }
}

fn shift_exec(op: Operation, v: u8, c: bool) -> (r: (u8, bool))
    requires
        is_rmw_op(op),
    ensures
        r == shift_value(op, v, c),
{
    reveal(shift_value);
    match op {
        Operation::Asl => asl_value(v),
        Operation::Lsr => lsr_value(v),
        Operation::Rol => rol_value(v, c),
        Operation::Ror => ror_value(v, c),
        Operation::Inc => (v.wrapping_add(1), c),
        _ => (v.wrapping_sub(1), c),
    }
}

fn shift_accumulator(p: &mut InstructionProcedure, bus: &mut Bus) -> (r: Result<(), Fault>)
    requires
        old(bus).wf(),
        is_rmw_op(old(p).op),
        old(p).mode == AddrMode::Accumulator,
    ensures
        final(bus).wf(),
        step_outcome(r, *final(p), final(bus)@, shift_spec(*old(p), old(bus)@)),
{
    reveal(shift_spec);
    if p.cycle == 2 {
        let (res, carry) = shift_exec(p.op, bus.cpu.acc, bus.cpu.status.carry);
        bus.cpu.acc = res;
        bus.cpu.status.set_zn(res);
        bus.cpu.status.carry = carry;
        finish(p, bus)
    } else {
        Ok(())
    }
}

fn shift_write(p: &mut InstructionProcedure, bus: &mut Bus, a: u16) -> (r: Result<(), Fault>)
    requires
        old(bus).wf(),
        is_rmw_op(old(p).op),
    ensures
        final(bus).wf(),
        step_outcome(r, *final(p), final(bus)@, shift_write_spec(*old(p), old(bus)@, a)),
{
    let (res, carry) = shift_exec(p.op, p.tmp0, bus.cpu.status.carry);
    bus.cpu.status.set_zn(res);
    bus.cpu.status.carry = carry;
    p.tmp0 = res;
    match bus.write(a, res) {
        Ok(()) => {
            p.done = true;
            Ok(())
        },
        Err(f) => Err(f),
    }
}

fn shift_memory(p: &mut InstructionProcedure, bus: &mut Bus) -> (r: Result<(), Fault>)
    requires
        old(bus).wf(),
        is_rmw_op(old(p).op),
        old(p).mode != AddrMode::Accumulator,
    ensures
        final(bus).wf(),
        step_outcome(r, *final(p), final(bus)@, shift_spec(*old(p), old(bus)@)),
{
    reveal(shift_spec);
    match read_modify_write(p, bus) {
        Err(f) => Err(f),
        Ok(None) => Ok(()),
        Ok(Some(a)) => shift_write(p, bus, a),
    }
}

fn stack_dummy_read(p: &InstructionProcedure, bus: &mut Bus) -> (r: Result<(), Fault>)
    requires
        old(bus).wf(),
        is_stack_op(p.op),
        p.cycle == 2 || (p.cycle == 3 && p.op != Operation::Pha && p.op != Operation::Php),
    ensures
        final(bus).wf(),
        step_outcome(r, *p, final(bus)@, stack_spec(*p, old(bus)@)),
{
    reveal(stack_spec);
    let a = if p.cycle == 2 { bus.cpu.pc } else { 0x100 + bus.cpu.sp as u16 };
    match bus.read(a) {
        Ok(_) => Ok(()),
        Err(f) => Err(f),
    }
}

/// PHA and PHP.
fn push_op(p: &mut InstructionProcedure, bus: &mut Bus) -> (r: Result<(), Fault>)
    requires
        old(bus).wf(),
        old(p).op == Operation::Pha || old(p).op == Operation::Php,
    ensures
        final(bus).wf(),
        step_outcome(r, *final(p), final(bus)@, stack_spec(*old(p), old(bus)@)),
{
    if p.cycle == 2 {
        stack_dummy_read(p, bus)
    } else if p.cycle == 3 {
        reveal(stack_spec);
        let v = if p.op == Operation::Pha {
            bus.cpu.acc
        } else {
            let mut s = bus.cpu.status;
            s.brk = true;
            s.to_byte()
        };
        match Cpu::stack_push(bus, v) {
            Ok(()) => {
                p.done = true;
                Ok(())
            },
            Err(f) => Err(f),
        }
    } else {
        reveal(stack_spec);
        Ok(())
    }
}

/// PLA and PLP.
fn pull_op(p: &mut InstructionProcedure, bus: &mut Bus) -> (r: Result<(), Fault>)
    requires
        old(bus).wf(),
        old(p).op == Operation::Pla || old(p).op == Operation::Plp,
    ensures
        final(bus).wf(),
        step_outcome(r, *final(p), final(bus)@, stack_spec(*old(p), old(bus)@)),
{
    if p.cycle == 2 || p.cycle == 3 {
        stack_dummy_read(p, bus)
    } else if p.cycle == 4 {
        reveal(stack_spec);
        match Cpu::stack_pop(bus) {
            Ok(b) => {
                if p.op == Operation::Pla {
                    bus.cpu.acc = b;
                    bus.cpu.status.set_zn(b);
                } else {
                    bus.cpu.status.negative = b & 0x80 != 0;
                    bus.cpu.status.overflow = b & 0x40 != 0;
                    bus.cpu.status.decimal = b & 0x08 != 0;
                    bus.cpu.status.interrupt_disable = b & 0x04 != 0;
                    bus.cpu.status.zero = b & 0x02 != 0;
                    bus.cpu.status.carry = b & 0x01 != 0;
                }
                p.done = true;
                Ok(())
            },
            Err(f) => Err(f),
        }
    } else {
        reveal(stack_spec);
        Ok(())
    }
}

/// RTS.
fn rts(p: &mut InstructionProcedure, bus: &mut Bus) -> (r: Result<(), Fault>)
    requires
        old(bus).wf(),
        old(p).op == Operation::Rts,
    ensures
        final(bus).wf(),
        step_outcome(r, *final(p), final(bus)@, stack_spec(*old(p), old(bus)@)),
{
    if p.cycle == 2 || p.cycle == 3 {
        stack_dummy_read(p, bus)
    } else {
        reveal(stack_spec);
        if p.cycle == 4 {
            match Cpu::stack_pop(bus) {
                Ok(v) => {
                    p.tmp0 = v;
                    Ok(())
                },
                Err(f) => Err(f),
            }
        } else if p.cycle == 5 {
            match Cpu::stack_pop(bus) {
                Ok(v) => {
                    p.tmp1 = v;
                    bus.cpu.pc = addr_concat(v, p.tmp0);
                    Ok(())
                },
                Err(f) => Err(f),
            }
        } else if p.cycle == 6 {
            let pc = bus.cpu.pc;
            match bus.read(pc) {
                Ok(_) => {
                    bus.cpu.pc = pc.wrapping_add(1);
                    p.done = true;
                    Ok(())
                },
                Err(f) => Err(f),
            }
        } else {
            Ok(())
        }
    }
}

/// Shifts and rotates: on the accumulator in two cycles, or on memory
/// through the read-modify-write template, the modified value written on
/// the last cycle.
fn shift(p: &mut InstructionProcedure, bus: &mut Bus) -> (r: Result<(), Fault>)
    requires
        old(bus).wf(),
        is_rmw_op(old(p).op),
    ensures
        final(bus).wf(),
        step_outcome(r, *final(p), final(bus)@, shift_spec(*old(p), old(bus)@)),
{
    reveal(shift_spec);
    if p.mode == AddrMode::Accumulator {
        shift_accumulator(p, bus)
    } else {
        shift_memory(p, bus)
    }
}

/// One cycle of the instruction in flight, its cycle index then advancing.
pub open spec fn step_spec(p: InstructionProcedure, m: BusView) -> Step {
    match exec_spec(p, m) {
        Ok(t) => Ok((InstructionProcedure { cycle: (p.cycle + 1) as u8, ..t.0 }, t.1)),
        Err(f) => Err(f),
    }
}

impl InstructionProcedure {
    /// Drives the instruction through one cycle.
    pub fn step(&mut self, bus: &mut Bus) -> (r: Result<(), Fault>)
        requires
            old(bus).wf(),
            old(self).cycle < 255,
        ensures
            final(bus).wf(),
            step_outcome(r, *final(self), final(bus)@, step_spec(*old(self), old(bus)@)),
    {
        let c = self.cycle;
        let r = match self.op {
            Operation::Lda => lda(self, bus),
            Operation::And => and(self, bus),
            Operation::Ora => ora(self, bus),
            Operation::Cmp => cmp(self, bus),
            Operation::Cpx => cpx(self, bus),
            Operation::Cpy => cpy(self, bus),
            Operation::Bit => bit(self, bus),
            Operation::Adc => adc(self, bus),
            Operation::Clc => clc(self, bus),
            Operation::Cli => cli(self, bus),
            Operation::Clv => clv(self, bus),
            Operation::Nop => nop(self, bus),
            Operation::Ldx => ldx(self, bus),
            Operation::Ldy => ldy(self, bus),
            Operation::Eor => eor(self, bus),
            Operation::Sbc => sbc(self, bus),
            Operation::Sta => sta(self, bus),
            Operation::Stx => stx(self, bus),
            Operation::Sty => sty(self, bus),
            Operation::Dex => dex(self, bus),
            Operation::Dey => dey(self, bus),
            Operation::Inx => inx(self, bus),
            Operation::Iny => iny(self, bus),
            Operation::Tax => tax(self, bus),
            Operation::Tay => tay(self, bus),
            Operation::Tsx => tsx(self, bus),
            Operation::Txa => txa(self, bus),
            Operation::Txs => txs(self, bus),
            Operation::Tya => tya(self, bus),
            Operation::Cld => cld(self, bus),
            Operation::Sec => sec(self, bus),
            Operation::Sed => sed(self, bus),
            Operation::Sei => sei(self, bus),
            Operation::Bcc => bcc(self, bus),
            Operation::Bcs => bcs(self, bus),
            Operation::Beq => beq(self, bus),
            Operation::Bmi => bmi(self, bus),
            Operation::Bne => bne(self, bus),
            Operation::Bpl => bpl(self, bus),
            Operation::Bvc => bvc(self, bus),
            Operation::Bvs => bvs(self, bus),
            Operation::Jmp => jmp(self, bus),
            Operation::Jsr => jsr(self, bus),
            Operation::Asl | Operation::Lsr | Operation::Rol | Operation::Ror | Operation::Inc
            | Operation::Dec => shift(self, bus),
            Operation::Pha | Operation::Php => push_op(self, bus),
            Operation::Pla | Operation::Plp => pull_op(self, bus),
            Operation::Rts => rts(self, bus),
            _ => Err(Fault::Unimplemented),
        };
        match r {
            Ok(()) => {
                self.cycle = c + 1;
                Ok(())
            },
            Err(f) => Err(f),
        }
    }
}

} // verus!
