//! A CHIP-8 style interpreter core: machine state, fetch, decode and the
//! execution units, each with a contract over an abstract model of the machine.

pub mod cpu;
pub mod display;
pub mod laws;
pub mod model;

pub use cpu::CPU;
pub use model::ExecStatus;
