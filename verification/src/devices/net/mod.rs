//! Network backends.
pub mod backend;
pub mod channel;
pub mod header;
pub mod slirp_backend;
pub mod slirp_loop;
