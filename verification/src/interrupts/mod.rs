//! General module for interrupts, exceptions and service routine handlers.

pub mod vector;
pub mod vtable;

pub use vector::Vector;
pub use vtable::{Exceptions, Interrupts, VectorTable};
pub mod exceptions;
pub mod interrupts;

pub use interrupts::Interrupt;
pub mod queue;
