//! Text output towards the serial transmitter.

pub mod print;
