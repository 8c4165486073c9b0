//! Emulated devices.
pub mod bus;
pub mod net;
pub mod pit;
pub mod rng;
pub mod whpx_ioapic;
