//! The virtual machine: partition, virtual processors, boot state, devices.
pub mod boot;
pub mod error;
pub mod guest_memory;
pub mod hyperv_tlfs;
pub mod launch;
pub mod mmio;
pub mod registers;
pub mod segments;
pub mod vcpu;
pub mod vm;
pub mod vsock;
pub mod vsock_windows;
