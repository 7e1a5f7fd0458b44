//! The fatal conditions of the machine. None of them can be recovered from:
//! the host stops the emulation and reports the program counter, the opcode
//! and the fault.
use vstd::prelude::*;

verus! {

#[derive(Clone, Copy, Debug, PartialEq, Eq, Structural)]
pub enum Fault {
    /// The opcode has no entry in the instruction table.
    UnknownOpcode(u8),
    /// An instruction was decoded under an addressing mode it does not take.
    UnsupportedMode,
    /// Behaviour that is reachable but not modelled: decimal arithmetic, an
    /// addressing mode or an instruction left out of the model.
    Unimplemented,
    /// A register at this address has no modelled behaviour for the access.
    UnsupportedRegister(u16),
}

/// Anything that answers reads and writes on the bus.
pub trait BusAccessable {
    spec fn valid(&self) -> bool;

    fn write(&mut self, addr: u16, data: u8) -> (r: Result<(), Fault>)
        requires
            old(self).valid(),
        ensures
            final(self).valid(),
    ;

    fn read(&mut self, addr: u16) -> (r: Result<u8, Fault>)
        requires
            old(self).valid(),
        ensures
            final(self).valid(),
    ;
}

} // verus!
