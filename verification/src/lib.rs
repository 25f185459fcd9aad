//! Verified hardware abstraction logic for the RP2350x.
//!
//! Every function here computes what the device is told: register values, register
//! write sequences, queue updates and decisions. The volatile accesses themselves are
//! carried out by the caller.

pub mod clocks;
pub mod register;
pub mod cortex;
pub mod dma;
pub mod interrupts;
pub mod gpio;
pub mod adc;
pub mod crypto;
