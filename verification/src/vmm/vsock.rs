//! Configuration of the socket device on hosts that support it.
use std::collections::HashMap;
use std::sync::Arc;
use vstd::prelude::*;

verus! {

/// The name of the device.
pub const VSOCK_ID: &'static str = "vsock";

/// Features of transparent socket impersonation, one bit each.
#[derive(Clone, Copy, PartialEq, Eq, Structural, Debug)]
pub struct TsiFlags {
    pub bits: u32,
}

impl Default for TsiFlags {
    fn default() -> (flags: TsiFlags)
        ensures
            flags.bits == 0,
    {
        TsiFlags { bits: 0 }
    }
}

/// Why a device could not be created.
#[derive(Clone, Debug)]
pub struct VsockError {
    /// The description of the error.
    pub text: String,
}

/// Errors associated with `NetworkInterfaceConfig`.
#[derive(Debug)]
pub enum VsockConfigError {
    /// Failed to create the vsock device.
    CreateVsockDevice(VsockError),
    /// Vsock is not supported on this platform.
    NotSupported,
}

/// The text that describes an error.
pub open spec fn error_text(e: VsockConfigError) -> Seq<char> {
    match e {
        VsockConfigError::CreateVsockDevice(e) => "Cannot create vsock device: "@ + e.text@,
        VsockConfigError::NotSupported => "Vsock is not supported on Windows"@,
    }
}

impl VsockConfigError {
    /// Describes the error.
    pub fn to_string(&self) -> (s: String)
        ensures
            s@ == error_text(*self),
    {
        let mut out: String = String::new();
        match self {
            VsockConfigError::CreateVsockDevice(e) => {
                out.append("Cannot create vsock device: ");
                out.append(e.text.as_str());
            },
            VsockConfigError::NotSupported => {
                out.append("Vsock is not supported on Windows");
            },
        }
        out
    }
}

/// This struct represents the strongly typed equivalent of the json body
/// from vsock related requests.
#[derive(Clone, Debug, PartialEq, Eq)]
pub struct VsockDeviceConfig {
    /// ID of the vsock device.
    pub vsock_id: String,
    /// A 32-bit Context Identifier (CID) used to identify the guest.
    pub guest_cid: u32,
    /// An optional map of host to guest port mappings.
    pub host_port_map: Option<HashMap<u16, u16>>,
    /// An optional map of guest port to host UNIX domain sockets for IPC.
    pub unix_ipc_port_map: Option<HashMap<u32, (String, bool)>>,
    /// TSI feature flags
    pub tsi_flags: TsiFlags,
}

/// A socket device.
#[derive(Debug)]
pub struct Vsock {
    pub cid: u64,
    pub host_port_map: Option<HashMap<u16, u16>>,
    pub unix_ipc_port_map: Option<HashMap<u32, (String, bool)>>,
    pub tsi_flags: TsiFlags,
}

impl Vsock {
    /// A device for which the host has opened what it needs, or failed to.
    pub fn new(
        cid: u64,
        host_port_map: Option<HashMap<u16, u16>>,
        unix_ipc_port_map: Option<HashMap<u32, (String, bool)>>,
        tsi_flags: TsiFlags,
        opened: Result<(), VsockError>,
    ) -> (r: Result<Vsock, VsockError>)
        ensures
            match opened {
                Ok(_) => r matches Ok(v) && v.cid == cid && v.host_port_map == host_port_map
                    && v.unix_ipc_port_map == unix_ipc_port_map && v.tsi_flags == tsi_flags,
                Err(e) => r == Err::<Vsock, VsockError>(e),
            },
    {
        match opened {
            Ok(_) => Ok(Vsock { cid, host_port_map, unix_ipc_port_map, tsi_flags }),
            Err(e) => Err(e),
        }
    }

    /// The name of the device.
    pub fn id(&self) -> (id: &'static str)
        ensures
            id@ == VSOCK_ID@,
    {
        VSOCK_ID
    }

    /// The guest's context identifier.
    pub fn cid(&self) -> (cid: u64)
        ensures
            cid == self.cid,
    {
        self.cid
    }
}

/// The device is made as the configuration says.
pub open spec fn configured(v: Vsock, cfg: VsockDeviceConfig) -> bool {
    &&& v.cid == cfg.guest_cid
    &&& v.host_port_map == cfg.host_port_map
    &&& v.unix_ipc_port_map == cfg.unix_ipc_port_map
    &&& v.tsi_flags == cfg.tsi_flags
}

/// A builder of Vsock from 'VsockDeviceConfig'.
#[derive(Debug)]
pub struct VsockBuilder {
    inner: Option<Arc<Vsock>>,
    tsi_flags: TsiFlags,
}

impl Default for VsockBuilder {
    fn default() -> (builder: VsockBuilder)
        ensures
            builder.device() is None,
            builder.flags().bits == 0,
    {
        VsockBuilder::new()
    }
}

impl VsockBuilder {
    /// The device, if there is one.
    pub closed spec fn device(&self) -> Option<Arc<Vsock>> {
        self.inner
    }

    /// The features that were last asked for.
    pub closed spec fn flags(&self) -> TsiFlags {
        self.tsi_flags
    }

    /// Creates an empty Vsock.
    pub fn new() -> (builder: VsockBuilder)
        ensures
            builder.device() is None,
            builder.flags().bits == 0,
    {
        VsockBuilder { inner: None, tsi_flags: TsiFlags::default() }
    }

    /// Inserts a Vsock in the store.
    /// If an entry already exists, it will overwrite it. Where the host fails
    /// to open the device, the features are taken over and the entry stays.
    pub fn insert(&mut self, cfg: VsockDeviceConfig, opened: Result<(), VsockError>) -> (r: Result<
        (),
        VsockConfigError,
    >)
        ensures
            final(self).flags() == cfg.tsi_flags,
            match opened {
                Ok(_) => r is Ok && final(self).device() is Some && configured(
                    *final(self).device()->0,
                    cfg,
                ),
                Err(e) => r == Err::<(), VsockConfigError>(VsockConfigError::CreateVsockDevice(e))
                    && final(self).device() == old(self).device(),
            },
    {
        self.tsi_flags = cfg.tsi_flags;
        match VsockBuilder::create_vsock(cfg, opened) {
            Ok(vsock) => {
                self.inner = Some(Arc::new(vsock));
                Ok(())
            },
            Err(e) => Err(e),
        }
    }

    /// Provides a reference to the Vsock if present.
    pub fn get(&self) -> (vsock: Option<&Arc<Vsock>>)
        ensures
            match vsock {
                Some(v) => self.device() == Some(*v),
                None => self.device() is None,
            },
    {
        match &self.inner {
            Some(vsock) => Some(vsock),
            None => None,
        }
    }

    /// The features that were last asked for.
    pub fn tsi_flags(&self) -> (flags: TsiFlags)
        ensures
            flags == self.flags(),
    {
        self.tsi_flags
    }

    /// Creates a Vsock device from a VsockDeviceConfig.
    pub fn create_vsock(cfg: VsockDeviceConfig, opened: Result<(), VsockError>) -> (r: Result<
        Vsock,
        VsockConfigError,
    >)
        ensures
            match opened {
                Ok(_) => r matches Ok(v) && configured(v, cfg),
                Err(e) => r == Err::<Vsock, VsockConfigError>(
                    VsockConfigError::CreateVsockDevice(e),
                ),
            },
    {
        match Vsock::new(
            cfg.guest_cid as u64,
            cfg.host_port_map,
            cfg.unix_ipc_port_map,
            cfg.tsi_flags,
            opened,
        ) {
            Ok(vsock) => Ok(vsock),
            Err(e) => Err(VsockConfigError::CreateVsockDevice(e)),
        }
    }
}

/// A device is made of its configuration, if the host could open it, and the
/// builder then holds it; else the builder keeps what it has and hands the
/// host's error on. The features asked for are kept either way.
pub proof fn builders_hold_the_configured_device(
    builder: &mut VsockBuilder,
    cfg: VsockDeviceConfig,
    opened: Result<(), VsockError>,
    r: Result<(), VsockConfigError>,
)
    requires
        call_ensures(VsockBuilder::insert, (builder, cfg, opened), r),
    ensures
        r is Ok <==> opened is Ok,
        final(builder).flags() == cfg.tsi_flags,
        r is Ok ==> (final(builder).device() matches Some(v) && v.cid == cfg.guest_cid
            && v.host_port_map == cfg.host_port_map && v.unix_ipc_port_map == cfg.unix_ipc_port_map
            && v.tsi_flags == cfg.tsi_flags),
        r is Err ==> final(builder).device() == old(builder).device() && r == Err::<
            (),
            VsockConfigError,
        >(VsockConfigError::CreateVsockDevice(opened->Err_0)),
{
}

/// A device is created exactly if the host could open it, and has the guest's
/// identifier, the ports and the features of its configuration.
pub proof fn devices_are_made_of_their_configuration(
    cfg: VsockDeviceConfig,
    opened: Result<(), VsockError>,
    r: Result<Vsock, VsockConfigError>,
)
    requires
        call_ensures(VsockBuilder::create_vsock, (cfg, opened), r),
    ensures
        r is Ok <==> opened is Ok,
        r matches Ok(v) ==> v.cid == cfg.guest_cid && v.host_port_map == cfg.host_port_map
            && v.unix_ipc_port_map == cfg.unix_ipc_port_map && v.tsi_flags == cfg.tsi_flags,
{
}

/// A new builder holds no device and asks for no features.
pub proof fn new_builders_are_empty(builder: VsockBuilder)
    requires
        call_ensures(VsockBuilder::new, (), builder),
    ensures
        builder.device() is None,
        builder.flags().bits == 0,
{
}

/// The description of a device that could not be created ends with the reason.
pub proof fn descriptions_end_with_the_reason(e: VsockConfigError, s: String)
    requires
        call_ensures(VsockConfigError::to_string, (&e,), s),
    ensures
        e matches VsockConfigError::CreateVsockDevice(c) ==> s@.skip(s@.len() - c.text@.len())
            == c.text@,
{
    if let VsockConfigError::CreateVsockDevice(c) = e {
        assert(s@.skip(s@.len() - c.text@.len()) =~= c.text@);
    }
}

} // verus!
