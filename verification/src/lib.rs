//! The core of an NES emulator: a cycle-counting 6502 processor, the memory
//! bus it talks to, and the state machine of the picture processing unit
//! that interrupts it.

pub mod bus;
pub mod controller;
pub mod cpu;
pub mod flags;
pub mod op;
pub mod ppu;
pub mod ppu_reg;
pub mod rom;
pub mod text;
pub mod trace;
