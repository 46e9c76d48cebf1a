//! Peripheral configuration for a 32-bit Cortex-class microcontroller: GPIO
//! pins, four general-purpose timers, two serial ports and the interrupt
//! controller, each driven through field-level accesses to a register file.
//!
//! Every driver takes the [`device::Device`] that it acts on. Its contract
//! gives the registers after the call and the bus writes that led there, in
//! their order.

pub mod device;
pub mod gpio;
pub mod interrupts;
pub mod register_tools;
pub mod registers;
pub mod timers;
pub mod usart;
