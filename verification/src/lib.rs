//! Core of a host power-management daemon: profile arbitration between
//! manual overrides, bus-held leases and AC/battery defaults, the in-memory
//! sensor-configuration model it applies, and the decoding of throttle
//! status registers.
pub mod daemon;
pub mod msr;
pub mod ppd;
pub mod sensors;
