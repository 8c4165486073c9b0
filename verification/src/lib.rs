//! Core of a small virtual machine monitor for the Windows Hypervisor
//! Platform: boot configuration, exit handling, legacy devices, event
//! plumbing and in-process networking.
//!
//! Everything here works on plain values. Calls into the hypervisor, the
//! sockets and the clocks of the host are made by the host layer, which asks
//! this library what to do next and reports back what happened.
pub mod bytes;
pub mod devices;
pub mod polly;
pub mod text;
pub mod utils;
pub mod vmm;
