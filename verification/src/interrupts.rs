//! Interrupt dispatch: the descriptor table and what stands behind its entries.

pub mod exceptions;
pub mod idt;
pub mod interrupts;
