//! A CHIP-8 interpreter core: machine state, the fetch-decode-execute cycle
//! and the instruction set, with every instruction's effect stated over an
//! abstract model of the machine.
pub mod cpu;
pub mod display;
pub mod laws;
pub mod machine;
pub mod model;
