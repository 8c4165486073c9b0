//! Configuration of the socket device on hosts that do not support it.
use crate::vmm::vsock::{TsiFlags, VsockConfigError, VsockDeviceConfig};
use std::sync::Arc;
use vstd::prelude::*;

verus! {

/// A builder that never holds a device.
#[derive(Debug)]
pub struct VsockBuilder {
    tsi_flags: TsiFlags,
}

impl Default for VsockBuilder {
    fn default() -> (builder: VsockBuilder)
        ensures
            builder.flags().bits == 0,
    {
        VsockBuilder::new()
    }
}

impl VsockBuilder {
    /// The features, which stay at none.
    pub closed spec fn flags(&self) -> TsiFlags {
        self.tsi_flags
    }

    /// Creates an empty Vsock.
    pub fn new() -> (builder: VsockBuilder)
        ensures
            builder.flags().bits == 0,
    {
        VsockBuilder { tsi_flags: TsiFlags::default() }
    }

    /// Refuses every device.
    pub fn insert(&mut self, _cfg: VsockDeviceConfig) -> (r: Result<(), VsockConfigError>)
        ensures
            r == Err::<(), VsockConfigError>(VsockConfigError::NotSupported),
            *final(self) == *old(self),
    {
        Err(VsockConfigError::NotSupported)
    }

    /// There is no device.
    pub fn get(&self) -> (vsock: Option<&Arc<()>>)
        ensures
            vsock is None,
    {
        None
    }

    /// The features.
    pub fn tsi_flags(&self) -> (flags: TsiFlags)
        ensures
            flags == self.flags(),
    {
        self.tsi_flags
    }
}

} // verus!
