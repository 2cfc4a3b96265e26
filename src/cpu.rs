//! The processor's registers on their own.
use vstd::prelude::*;

verus! {

/// The processor registers of a CHIP-8 machine: V0 to VF, the index
/// register, the program counter, the stack pointer and the two timers.
#[derive(Debug, Default)]
pub struct Cpu {
    v: [u8; 16],
    i: u16,
    pc: u16,
    sp: u8,
    dt: u8,
    st: u8,
}

} // verus!
