//! Core logic of an ultrasonic tank-level monitor.
//!
//! The crate holds the verified part of the controller: the tank geometry
//! and level derivation, the bounded streaming median filter, the echo
//! timing of the rangefinder, the time-limited cache with retry and
//! reconnect policy in front of the field bus, the sampler and lifecycle
//! state machines, and the byte-level encoding for the character display.
//! All quantities are carried as integers: lengths in millimetres, volumes
//! in millilitres, times in nanoseconds, and fill grades in hundredths of
//! a percent. Reading the hardware lines, the bus device and the clock is
//! left to the embedding program.

pub mod bus_cache;
pub mod display;
pub mod lifecycle;
pub mod median;
pub mod rangefinder;
pub mod sampler;
pub mod tank;
