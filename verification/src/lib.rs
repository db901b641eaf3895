//! Text console and interrupt dispatch logic of a small freestanding kernel.

pub mod interrupts;
pub mod printing;
