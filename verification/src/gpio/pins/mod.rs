//! Implementations of the GPIO pins.

pub mod any;
pub mod list;
pub mod typed;

pub use any::GPIOAny;
pub use list::GPIOList;
pub use typed::GPIOTyped;
