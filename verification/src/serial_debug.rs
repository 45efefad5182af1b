//! What is written to the serial port.

pub mod serial_printer;
