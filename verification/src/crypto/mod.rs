//! Cryptography peripherals.

pub mod trng;
