//! Control logic of a networked desk fan: the datagram command grammar,
//! the decisions taken on each command, the stepper motor that points and
//! oscillates the fan, and the temperature loop fed by an I2C sensor.
//! Everything here is pure computation on plain values; the program in
//! `app/` performs the file, network and process I/O around it.

pub mod utf8;
pub mod number;
pub mod error;
pub mod command;
pub mod temperature;
pub mod stepper;
pub mod fan;
pub mod controller;
