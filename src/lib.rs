use vstd::prelude::*;

pub mod display;
pub mod emulator;
pub mod opcode;
pub mod rand;

pub use emulator::{Emulator, EmulatorBuilder, EmulatorError};

verus! {

} // verus!
