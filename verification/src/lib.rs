//! Multiplayer mode of the Game Boy Advance serial link.
//!
//! Up to four consoles share the link. One of them, the master, starts every transfer; in a
//! transfer each console puts one 16-bit word on the link and reads the words of all four.
//!
//! - [`registers`] holds the registers of the port as plain values, and what the driver does
//!   to them.
//! - [`fifo`] holds the bounded queues between the program and the interrupt handlers.
//! - [`interrupt`] is the interrupt side of the driver.
//! - [`multiplayer`] is the program's side of it.
//! - [`dump`] writes the registers out as text.
//! - [`effects`] states what each operation does, down to the bits of the registers.
//! - [`laws`] states what holds of the driver as a whole.
//!
//! The library never touches the hardware: its caller reads the registers into a
//! [`registers::SerialReg`], calls the library, and writes back what has changed.

pub mod dump;
pub mod effects;
pub mod fifo;
pub mod interrupt;
pub mod laws;
pub mod multiplayer;
pub mod registers;
