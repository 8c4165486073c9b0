//! Registration of memory-mapped devices.
use crate::devices::bus;
use crate::devices::bus::{Bus, BusEntry, BusError};
use crate::utils::os_error::OsError;
use vstd::prelude::*;

verus! {

/// MMIO device region size (4K).
pub const MMIO_LEN: u64 = 0x1000;

/// Why an MMIO transport could not be created.
#[derive(Debug)]
pub struct CreateMmioTransportError {
    /// The description of the error.
    pub text: String,
}

/// Errors for MMIO device manager.
#[derive(Debug)]
pub enum Error {
    /// Failed to create MmioTransport
    CreateMmioTransport(CreateMmioTransportError),
    /// Failed to perform an operation on the bus.
    BusError(BusError),
    /// Appending to kernel command line failed.
    Cmdline(String),
    /// Failure in creating or cloning an event fd.
    EventFd(OsError),
    /// No more IRQs are available.
    IrqsExhausted,
    /// Registering an IO Event failed.
    RegisterIoEvent,
    /// Registering an IRQ FD failed.
    RegisterIrqFd,
    /// The device couldn't be found
    DeviceNotFound,
    /// Failed to update the mmio device.
    UpdateFailed,
}

/// The text that describes an error.
pub open spec fn error_text(e: Error) -> Seq<char> {
    match e {
        Error::CreateMmioTransport(e) => "failed to create mmio transport for the device "@
            + e.text@,
        Error::BusError(e) => "failed to perform bus operation: "@ + bus::bus_error_text(e),
        Error::Cmdline(e) => "unable to add device to kernel command line: "@ + e@,
        Error::EventFd(e) => "failed to create or clone event descriptor: "@ + e.text@,
        Error::IrqsExhausted => "no more IRQs are available"@,
        Error::RegisterIoEvent => "failed to register IO event"@,
        Error::RegisterIrqFd => "failed to register irqfd"@,
        Error::DeviceNotFound => "the device couldn't be found"@,
        Error::UpdateFailed => "failed to update the mmio device"@,
    }
}

impl Error {
    /// Describes the error.
    pub fn to_string(&self) -> (s: String)
        ensures
            s@ == error_text(*self),
    {
        let mut out: String = String::new();
        match self {
            Error::CreateMmioTransport(e) => {
                out.append("failed to create mmio transport for the device ");
                out.append(e.text.as_str());
            },
            Error::BusError(e) => {
                out.append("failed to perform bus operation: ");
                out.append(e.to_string().as_str());
            },
            Error::Cmdline(e) => {
                out.append("unable to add device to kernel command line: ");
                out.append(e.as_str());
            },
            Error::EventFd(e) => {
                out.append("failed to create or clone event descriptor: ");
                out.append(e.text.as_str());
            },
            Error::IrqsExhausted => {
                out.append("no more IRQs are available");
            },
            Error::RegisterIoEvent => {
                out.append("failed to register IO event");
            },
            Error::RegisterIrqFd => {
                out.append("failed to register irqfd");
            },
            Error::DeviceNotFound => {
                out.append("the device couldn't be found");
            },
            Error::UpdateFailed => {
                out.append("failed to update the mmio device");
            },
        }
        out
    }
}

impl From<CreateMmioTransportError> for Error {
    fn from(e: CreateMmioTransportError) -> (error: Error) {
        Error::CreateMmioTransport(e)
    }
}

impl vstd::std_specs::convert::FromSpecImpl<CreateMmioTransportError> for Error {
    open spec fn obeys_from_spec() -> bool {
        true
    }

    open spec fn from_spec(e: CreateMmioTransportError) -> Error {
        Error::CreateMmioTransport(e)
    }
}

/// The kind of a device.
#[derive(Clone, Copy, PartialEq, Eq, Structural, Debug)]
pub enum DeviceType {
    /// A virtio device of the given type.
    Virtio(u32),
}

/// A device behind the MMIO transport.
#[derive(Debug)]
pub struct MmioTransport<D> {
    pub device: D,
    /// The line on which the device interrupts, once it has one.
    pub irq_line: Option<u32>,
}

impl<D> MmioTransport<D> {
    /// A device without interrupt line.
    pub fn new(device: D) -> (transport: MmioTransport<D>)
        ensures
            transport == (MmioTransport { device, irq_line: None }),
    {
        MmioTransport { device, irq_line: None }
    }

    /// Gives the device its interrupt line.
    pub fn set_irq_line(&mut self, irq: u32)
        ensures
            *final(self) == (MmioTransport { device: old(self).device, irq_line: Some(irq) }),
    {
        self.irq_line = Some(irq);
    }
}

/// A device on the MMIO bus.
#[derive(Debug)]
pub enum MmioDevice<D, C> {
    /// A virtio device.
    Virtio(MmioTransport<D>),
    /// The interrupt controller.
    Intc(C),
}

/// Structure for storing information about the MMIO device registered at some address on the bus.
#[derive(Clone, Copy, PartialEq, Eq, Structural, Debug)]
pub struct MMIODeviceInfo {
    pub addr: u64,
    pub irq: u32,
    pub len: u64,
}

/// Information about a device under its type and name. The entries stand in a
/// list, in which no two have the same type and name: nothing is known here of
/// how a map would hash such a key.
struct InfoEntry {
    device_type: DeviceType,
    device_id: String,
    info: MMIODeviceInfo,
}

/// The name under which a device is found.
pub type DeviceKey = (DeviceType, Seq<char>);

/// Manages the complexities of registering a MMIO device.
pub struct MMIODeviceManager<D, C> {
    pub bus: Bus<MmioDevice<D, C>>,
    mmio_base: u64,
    irq: u32,
    last_irq: u32,
    id_to_dev_info: Vec<InfoEntry>,
}

spec fn key_of(e: InfoEntry) -> DeviceKey {
    (e.device_type, e.device_id@)
}

spec fn keys_differ(entries: Seq<InfoEntry>) -> bool {
    forall|i: int, j: int|
        0 <= i < j < entries.len() ==> key_of(#[trigger] entries[i]) != key_of(
            #[trigger] entries[j],
        )
}

spec fn has_key(entries: Seq<InfoEntry>, key: DeviceKey) -> bool {
    exists|i: int| 0 <= i < entries.len() && key_of(#[trigger] entries[i]) == key
}

spec fn position(entries: Seq<InfoEntry>, key: DeviceKey) -> int {
    choose|i: int| 0 <= i < entries.len() && key_of(#[trigger] entries[i]) == key
}

spec fn info_map(entries: Seq<InfoEntry>) -> Map<DeviceKey, MMIODeviceInfo> {
    Map::new(
        |key: DeviceKey| has_key(entries, key),
        |key: DeviceKey| entries[position(entries, key)].info,
    )
}

proof fn lemma_info_at(entries: Seq<InfoEntry>, i: int)
    requires
        keys_differ(entries),
        0 <= i < entries.len(),
    ensures
        info_map(entries).contains_key(key_of(entries[i])),
        info_map(entries)[key_of(entries[i])] == entries[i].info,
{
    let key = key_of(entries[i]);
    assert(has_key(entries, key));
    let p = position(entries, key);
    assert(0 <= p < entries.len() && key_of(entries[p]) == key);
    assert(p == i);
}

/// A map with the information of a device put in, wherever in the list.
proof fn lemma_info_put(
    before: Seq<InfoEntry>,
    after: Seq<InfoEntry>,
    i: int,
    entry: InfoEntry,
)
    requires
        keys_differ(before),
        if i < before.len() {
            0 <= i && after == before.update(i, entry) && key_of(before[i]) == key_of(entry)
        } else {
            i == before.len() && after == before.push(entry) && !has_key(before, key_of(entry))
        },
    ensures
        keys_differ(after),
        info_map(after) == info_map(before).insert(key_of(entry), entry.info),
{
    assert forall|a: int, b: int| 0 <= a < b < after.len() implies key_of(#[trigger] after[a])
        != key_of(#[trigger] after[b]) by {
        if b < before.len() {
            assert(key_of(before[a]) != key_of(before[b]));
            assert(key_of(after[a]) == key_of(before[a]));
            assert(key_of(after[b]) == key_of(before[b]));
        } else {
            assert(key_of(after[a]) == key_of(before[a]));
        }
    }
    lemma_info_at(after, i);
    let wanted = info_map(before).insert(key_of(entry), entry.info);
    assert forall|key: DeviceKey| info_map(after).contains_key(key) == wanted.contains_key(key) by {
        if has_key(after, key) {
            let p = position(after, key);
            if p != i {
                assert(key_of(before[p]) == key);
            }
        }
        if has_key(before, key) {
            let p = position(before, key);
            assert(key_of(after[p]) == key);
        }
    }
    assert forall|key: DeviceKey| info_map(after).contains_key(key) implies info_map(after)[key]
        == wanted[key] by {
        let p = position(after, key);
        lemma_info_at(after, p);
        if p != i {
            lemma_info_at(before, p);
            assert(after[p] == before[p]);
            assert(key != key_of(entry));
        }
    }
    assert(info_map(after) =~= wanted);
}

/// The place of the information under a type and name.
fn find_info(entries: &Vec<InfoEntry>, device_type: DeviceType, device_id: &String) -> (found:
    Option<usize>)
    ensures
        match found {
            Some(i) => i < entries@.len() && key_of(entries@[i as int]) == (
                device_type,
                device_id@,
            ),
            None => !has_key(entries@, (device_type, device_id@)),
        },
{
    let mut i: usize = 0;
    while i < entries.len()
        invariant
            i <= entries@.len(),
            forall|k: int|
                0 <= k < i ==> key_of(#[trigger] entries@[k]) != (device_type, device_id@),
        decreases entries@.len() - i,
    {
        if entries[i].device_type == device_type && entries[i].device_id == *device_id {
            return Some(i);
        }
        i = i + 1;
    }
    None
}

/// Stores information; what was stored under the same type and name is
/// replaced.
fn put_info(entries: &mut Vec<InfoEntry>, entry: InfoEntry)
    requires
        keys_differ(old(entries)@),
    ensures
        keys_differ(final(entries)@),
        info_map(final(entries)@) == info_map(old(entries)@).insert(key_of(entry), entry.info),
{
    let ghost before = entries@;
    let ghost put = entry;
    match find_info(entries, entry.device_type, &entry.device_id) {
        Some(i) => {
            entries.set(i, entry);
            proof {
                lemma_info_put(before, entries@, i as int, put);
            }
        },
        None => {
            entries.push(entry);
            proof {
                lemma_info_put(before, entries@, before.len() as int, put);
            }
        },
    }
}

/// The transport of a virtio device with the given window and interrupt line
/// is on the bus.
pub open spec fn on_bus<D, C>(
    entries: Seq<BusEntry<MmioDevice<D, C>>>,
    info: MMIODeviceInfo,
) -> bool {
    exists|i: int| is_device(entries, i, info)
}

/// The transport of a virtio device with the given window and interrupt line
/// is the device at a place of the bus.
pub open spec fn is_device<D, C>(
    entries: Seq<BusEntry<MmioDevice<D, C>>>,
    i: int,
    info: MMIODeviceInfo,
) -> bool {
    &&& 0 <= i < entries.len()
    &&& entries[i].base == info.addr
    &&& entries[i].len == info.len
    &&& entries[i].device matches MmioDevice::Virtio(t) && t.irq_line == Some(info.irq)
}

/// Whether a further device can be registered.
pub open spec fn admits<D, C>(m: MMIODeviceManager<D, C>) -> bool {
    m.next_irq() <= m.last_irq() && !bus::occupied(m.entries(), m.next_base(), MMIO_LEN)
}

/// A device was registered: it got the next window and the next interrupt
/// line, and its information is stored under its type and name.
pub open spec fn device_added<D, C>(
    before: MMIODeviceManager<D, C>,
    after: MMIODeviceManager<D, C>,
    device: D,
    key: DeviceKey,
) -> bool {
    let transport = MmioTransport { device, irq_line: Some(before.next_irq()) };
    let info = MMIODeviceInfo { addr: before.next_base(), irq: before.next_irq(), len: MMIO_LEN };
    &&& after.entries() == before.entries().push(
        BusEntry { base: before.next_base(), len: MMIO_LEN, device: MmioDevice::Virtio(transport) },
    )
    &&& after.infos() == before.infos().insert(key, info)
    &&& after.next_base() == before.next_base() + MMIO_LEN
    &&& after.next_irq() == before.next_irq() + 1
    &&& after.last_irq() == before.last_irq()
}

/// Nothing was registered yet.
pub open spec fn is_new<D, C>(
    m: MMIODeviceManager<D, C>,
    mmio_base: u64,
    irq_interval: (u32, u32),
) -> bool {
    &&& m.entries().len() == 0
    &&& m.infos() == Map::<DeviceKey, MMIODeviceInfo>::empty()
    &&& m.next_base() == mmio_base
    &&& m.next_irq() == irq_interval.0
    &&& m.last_irq() == irq_interval.1
}

/// All but the bus stays as it is.
pub open spec fn only_bus_changes<D, C>(
    before: MMIODeviceManager<D, C>,
    after: MMIODeviceManager<D, C>,
) -> bool {
    &&& after.infos() == before.infos()
    &&& after.next_base() == before.next_base()
    &&& after.next_irq() == before.next_irq()
    &&& after.last_irq() == before.last_irq()
}

/// The outcome of registering a device: it is placed where there is a line and
/// room for it, and else nothing changes.
pub open spec fn registered<D, C>(
    before: MMIODeviceManager<D, C>,
    after: MMIODeviceManager<D, C>,
    device: D,
    key: DeviceKey,
    r: Result<(u64, u32), Error>,
) -> bool {
    match r {
        Ok(placed) => {
            &&& admits(before)
            &&& placed == (before.next_base(), before.next_irq())
            &&& device_added(before, after, device, key)
        },
        Err(e) => {
            &&& !admits(before)
            &&& e == if before.next_irq() > before.last_irq() {
                Error::IrqsExhausted
            } else {
                Error::BusError(BusError::Overlap)
            }
            &&& after.entries() == before.entries()
            &&& only_bus_changes(before, after)
        },
    }
}

/// The outcome of registering an interrupt controller.
pub open spec fn controller_registered<D, C>(
    before: MMIODeviceManager<D, C>,
    after: MMIODeviceManager<D, C>,
    intc: C,
    mmio_addr: u64,
    mmio_size: u64,
    r: Result<(), Error>,
) -> bool {
    &&& only_bus_changes(before, after)
    &&& if mmio_size == 0 {
        r is Ok && after.entries() == before.entries()
    } else if bus::occupied(before.entries(), mmio_addr, mmio_size) {
        r == Err::<(), Error>(Error::BusError(BusError::Overlap)) && after.entries()
            == before.entries()
    } else {
        r is Ok && after.entries() == before.entries().push(
            BusEntry { base: mmio_addr, len: mmio_size, device: MmioDevice::Intc(intc) },
        )
    }
}

impl<D, C> MMIODeviceManager<D, C> {
    /// The devices on the bus, in the order in which they came.
    pub closed spec fn entries(&self) -> Seq<BusEntry<MmioDevice<D, C>>> {
        self.bus.entries()
    }

    /// The registered devices.
    pub closed spec fn infos(&self) -> Map<DeviceKey, MMIODeviceInfo> {
        info_map(self.id_to_dev_info@)
    }

    /// Where the next device's window begins.
    pub closed spec fn next_base(&self) -> u64 {
        self.mmio_base
    }

    /// The next device's interrupt line.
    pub closed spec fn next_irq(&self) -> u32 {
        self.irq
    }

    /// The last interrupt line.
    pub closed spec fn last_irq(&self) -> u32 {
        self.last_irq
    }

    /// No two devices on the bus answer at the same address. Virtio devices
    /// have different interrupt lines, below the next one. Every registered
    /// device is on the bus.
    pub closed spec fn wf(&self) -> bool {
        &&& self.bus.wf()
        &&& keys_differ(self.id_to_dev_info@)
        &&& lines_differ(self.entries(), self.irq)
        &&& forall|key: DeviceKey| #[trigger]
            self.infos().contains_key(key) ==> on_bus(self.entries(), self.infos()[key])
    }

    /// Create a new DeviceManager handling mmio devices (virtio net, block).
    pub fn new(mmio_base: &mut u64, irq_interval: (u32, u32)) -> (m: MMIODeviceManager<D, C>)
        ensures
            *final(mmio_base) == *old(mmio_base),
            m.wf(),
            is_new(m, *old(mmio_base), irq_interval),
    {
        let m = MMIODeviceManager {
            mmio_base: *mmio_base,
            irq: irq_interval.0,
            last_irq: irq_interval.1,
            bus: Bus::new(),
            id_to_dev_info: Vec::new(),
        };
        assert(m.infos() =~= Map::<DeviceKey, MMIODeviceInfo>::empty());
        m
    }

    /// Register an already created MMIO device to be used via MMIO transport.
    /// Returns where its window begins, and its interrupt line.
    pub fn register_mmio_device(
        &mut self,
        mmio_device: MmioTransport<D>,
        type_id: u32,
        device_id: String,
    ) -> (r: Result<(u64, u32), Error>)
        requires
            old(self).wf(),
            admits(*old(self)) ==> old(self).next_base() + MMIO_LEN <= u64::MAX && old(
                self,
            ).next_irq() < u32::MAX,
        ensures
            final(self).wf(),
            registered(
                *old(self),
                *final(self),
                mmio_device.device,
                (DeviceType::Virtio(type_id), device_id@),
                r,
            ),
    {
        if self.irq > self.last_irq {
            return Err(Error::IrqsExhausted);
        }
        let mut transport = mmio_device;
        transport.set_irq_line(self.irq);
        let ghost before = *self;
        match self.bus.insert(MmioDevice::Virtio(transport), self.mmio_base, MMIO_LEN) {
            Ok(_) => {},
            Err(e) => {
                assert(self.entries() == before.entries() && self.infos() == before.infos());
                return Err(Error::BusError(e));
            },
        }
        let placed = (self.mmio_base, self.irq);
        let info = MMIODeviceInfo { addr: self.mmio_base, len: MMIO_LEN, irq: self.irq };
        put_info(
            &mut self.id_to_dev_info,
            InfoEntry { device_type: DeviceType::Virtio(type_id), device_id, info },
        );
        self.mmio_base = self.mmio_base + MMIO_LEN;
        self.irq = self.irq + 1;
        proof {
            let at = before.entries().len() as int;
            assert(is_device(self.entries(), at, info));
            assert forall|key: DeviceKey| #[trigger] self.infos().contains_key(key) implies on_bus(
                self.entries(),
                self.infos()[key],
            ) by {
                if self.infos()[key] != info {
                    assert(before.infos().contains_key(key));
                    lemma_stays_on_bus(before.entries(), self.entries(), before.infos()[key]);
                }
            }
        }
        Ok(placed)
    }

    /// Register the interrupt controller, which has the given addresses, on
    /// the MMIO bus. One without addresses is not put there.
    pub fn register_mmio_ioapic(&mut self, intc: C, mmio_addr: u64, mmio_size: u64) -> (r: Result<
        (),
        Error,
    >)
        requires
            old(self).wf(),
        ensures
            final(self).wf(),
            controller_registered(*old(self), *final(self), intc, mmio_addr, mmio_size, r),
    {
        if mmio_size != 0 {
            let ghost before = *self;
            match self.bus.insert(MmioDevice::Intc(intc), mmio_addr, mmio_size) {
                Ok(_) => {},
                Err(e) => {
                    assert(self.entries() == before.entries() && self.infos() == before.infos());
                    return Err(Error::BusError(e));
                },
            }
            proof {
                assert forall|key: DeviceKey| #[trigger]
                    self.infos().contains_key(key) implies on_bus(
                    self.entries(),
                    self.infos()[key],
                ) by {
                    assert(before.infos().contains_key(key));
                    lemma_stays_on_bus(before.entries(), self.entries(), before.infos()[key]);
                }
            }
        }
        Ok(())
    }

    /// Gets the specified device.
    pub fn get_device(&self, device_type: DeviceType, device_id: &str) -> (found: Option<
        &MmioDevice<D, C>,
    >)
        requires
            self.wf(),
        ensures
            match found {
                Some(device) => {
                    &&& self.infos().contains_key((device_type, device_id@))
                    &&& exists|i: int| #[trigger]
                        is_device(self.entries(), i, self.infos()[(device_type, device_id@)])
                            && *device == self.entries()[i].device
                },
                None => !self.infos().contains_key((device_type, device_id@)),
            },
    {
        match find_info(&self.id_to_dev_info, device_type, &device_id.to_owned()) {
            Some(n) => {
                let info: MMIODeviceInfo = self.id_to_dev_info[n].info;
                proof {
                    lemma_info_at(self.id_to_dev_info@, n as int);
                    assert(self.infos().contains_key((device_type, device_id@)));
                    let i = choose|i: int| is_device(self.entries(), i, info);
                    assert(is_device(self.entries(), i, info));
                    assert(bus::covers(self.entries()[i], info.addr));
                }
                match self.bus.get_device(info.addr) {
                    Some((_, device)) => {
                        proof {
                            let i = choose|i: int| is_device(self.entries(), i, info);
                            let j = choose|j: int|
                                0 <= j < self.entries().len() && bus::covers(
                                    #[trigger] self.entries()[j],
                                    info.addr,
                                ) && *device == self.entries()[j].device;
                            bus::at_most_one_device_answers(self.entries(), info.addr, i, j);
                        }
                        Some(device)
                    },
                    None => None,
                }
            },
            None => None,
        }
    }
}

proof fn lemma_stays_on_bus<D, C>(
    before: Seq<BusEntry<MmioDevice<D, C>>>,
    after: Seq<BusEntry<MmioDevice<D, C>>>,
    info: MMIODeviceInfo,
)
    requires
        on_bus(before, info),
        before.len() <= after.len(),
        forall|i: int| 0 <= i < before.len() ==> after[i] == before[i],
    ensures
        on_bus(after, info),
{
    let i = choose|i: int| is_device(before, i, info);
    assert(is_device(after, i, info));
}

/// Virtio devices have different interrupt lines, all below the given one.
pub open spec fn lines_differ<D, C>(entries: Seq<BusEntry<MmioDevice<D, C>>>, next: u32) -> bool {
    &&& forall|i: int|
        0 <= i < entries.len() && (#[trigger] entries[i]).device is Virtio ==> (
        entries[i].device->Virtio_0.irq_line matches Some(l) && l < next)
    &&& forall|i: int, j: int|
        0 <= i < j < entries.len() && (#[trigger] entries[i]).device is Virtio && (
        #[trigger] entries[j]).device is Virtio ==> entries[i].device->Virtio_0.irq_line
            != entries[j].device->Virtio_0.irq_line
}

/// A device that was registered is found under its type and name, with the
/// window and the interrupt line it was given; all others are found as
/// before.
pub proof fn registered_device_is_found<D, C>(
    before: MMIODeviceManager<D, C>,
    after: MMIODeviceManager<D, C>,
    device: D,
    key: DeviceKey,
    other: DeviceKey,
)
    requires
        device_added(before, after, device, key),
        other != key,
    ensures
        after.infos().contains_key(key),
        ({
            let info = after.infos()[key];
            &&& info.addr == before.next_base() && info.irq == before.next_irq() && info.len
                == MMIO_LEN
            &&& is_device(after.entries(), before.entries().len() as int, info)
            &&& after.entries()[before.entries().len() as int].device->Virtio_0.device == device
        }),
        after.infos().contains_key(other) == before.infos().contains_key(other),
        after.infos().contains_key(other) ==> after.infos()[other] == before.infos()[other],
        forall|i: int|
            0 <= i < before.entries().len() ==> after.entries()[i] == before.entries()[i],
{
}

/// Devices on the bus do not share addresses, and virtio devices do not share
/// interrupt lines.
pub proof fn devices_share_nothing<D, C>(m: MMIODeviceManager<D, C>, i: int, j: int, addr: u64)
    requires
        m.wf(),
        0 <= i < j < m.entries().len(),
    ensures
        !(bus::covers(m.entries()[i], addr) && bus::covers(m.entries()[j], addr)),
        m.entries()[i].device is Virtio && m.entries()[j].device is Virtio ==> m.entries()[i].device
            ->Virtio_0.irq_line != m.entries()[j].device->Virtio_0.irq_line,
{
    if bus::covers(m.entries()[i], addr) && bus::covers(m.entries()[j], addr) {
        bus::at_most_one_device_answers(m.entries(), addr, i, j);
    }
}

/// A call that may change a manager, with its outcome: the registration of a
/// device or of an interrupt controller.
pub enum Call<D, C> {
    Device { device: D, key: DeviceKey, placed: Result<(u64, u32), Error> },
    Controller { intc: C, mmio_addr: u64, mmio_size: u64, done: Result<(), Error> },
}

/// What a call does to a manager.
pub open spec fn called<D, C>(
    before: MMIODeviceManager<D, C>,
    after: MMIODeviceManager<D, C>,
    call: Call<D, C>,
) -> bool {
    match call {
        Call::Device { device, key, placed } => registered(before, after, device, key, placed),
        Call::Controller { intc, mmio_addr, mmio_size, done } => controller_registered(
            before,
            after,
            intc,
            mmio_addr,
            mmio_size,
            done,
        ),
    }
}

/// The managers are those before, between and after the calls.
pub open spec fn is_history<D, C>(
    managers: Seq<MMIODeviceManager<D, C>>,
    calls: Seq<Call<D, C>>,
) -> bool {
    &&& managers.len() == calls.len() + 1
    &&& forall|i: int|
        0 <= i < calls.len() ==> called(managers[i], managers[i + 1], #[trigger] calls[i])
}

/// How many of the calls placed a device.
pub open spec fn placements<D, C>(calls: Seq<Call<D, C>>) -> nat
    decreases calls.len(),
{
    if calls.len() == 0 {
        0
    } else {
        let before = placements(calls.drop_last());
        if calls.last() matches Call::Device { placed: Ok(_), .. } {
            before + 1
        } else {
            before
        }
    }
}

/// Virtio devices have different interrupt lines from the first one on, below
/// the next one and not above the last one, and no two devices overlap.
pub open spec fn apart<D, C>(
    entries: Seq<BusEntry<MmioDevice<D, C>>>,
    first: u32,
    next: u32,
    last: u32,
) -> bool {
    &&& bus::separate(entries)
    &&& lines_differ(entries, next)
    &&& forall|i: int|
        0 <= i < entries.len() && (#[trigger] entries[i]).device is Virtio ==> (
        entries[i].device->Virtio_0.irq_line matches Some(l) && first <= l <= last)
}

proof fn lemma_history<D, C>(
    managers: Seq<MMIODeviceManager<D, C>>,
    calls: Seq<Call<D, C>>,
    mmio_base: u64,
    irq_interval: (u32, u32),
)
    requires
        is_history(managers, calls),
        is_new(managers[0], mmio_base, irq_interval),
    ensures
        managers.last().next_base() == mmio_base + placements(calls) * MMIO_LEN,
        managers.last().next_irq() == irq_interval.0 + placements(calls),
        managers.last().last_irq() == irq_interval.1,
        apart(
            managers.last().entries(),
            irq_interval.0,
            managers.last().next_irq(),
            irq_interval.1,
        ),
    decreases calls.len(),
{
    if calls.len() > 0 {
        let n = calls.len() as int;
        let earlier = managers.drop_last();
        assert forall|i: int| 0 <= i < n - 1 implies called(
            earlier[i],
            earlier[i + 1],
            #[trigger] calls.drop_last()[i],
        ) by {
            assert(called(managers[i], managers[i + 1], calls[i]));
        }
        lemma_history(earlier, calls.drop_last(), mmio_base, irq_interval);
        assert(called(managers[n - 1], managers[n - 1 + 1], calls[n - 1]));
        assert(earlier.last() == managers[n - 1]);
    }
}

/// Devices are placed in turn: after any calls on a new manager of which `k`
/// placed a device, the next registration puts its device behind `k` windows
/// and on the line `k` after the first one, if that line exists and the
/// window is free, and says so.
pub proof fn devices_are_placed_in_turn<D, C>(
    managers: Seq<MMIODeviceManager<D, C>>,
    calls: Seq<Call<D, C>>,
    mmio_base: u64,
    irq_interval: (u32, u32),
    after: MMIODeviceManager<D, C>,
    device: D,
    key: DeviceKey,
    r: Result<(u64, u32), Error>,
)
    requires
        is_history(managers, calls),
        is_new(managers[0], mmio_base, irq_interval),
        registered(managers.last(), after, device, key, r),
    ensures
        ({
            let before = managers.last();
            let base = mmio_base + placements(calls) * MMIO_LEN;
            let irq = irq_interval.0 + placements(calls);
            if irq > irq_interval.1 {
                r == Err::<(u64, u32), Error>(Error::IrqsExhausted) && after.entries()
                    == before.entries()
            } else if bus::occupied(before.entries(), base as u64, MMIO_LEN) {
                r == Err::<(u64, u32), Error>(Error::BusError(BusError::Overlap))
                    && after.entries() == before.entries()
            } else {
                &&& r matches Ok(placed) && placed.0 == base && placed.1 == irq
                &&& after.entries() == before.entries().push(
                    BusEntry {
                        base: base as u64,
                        len: MMIO_LEN,
                        device: MmioDevice::Virtio(
                            MmioTransport { device, irq_line: Some(irq as u32) },
                        ),
                    },
                )
            }
        }),
{
    lemma_history(managers, calls, mmio_base, irq_interval);
}

/// After any calls on a new manager the windows of the devices share no
/// address, and the lines of virtio devices are different ones of the
/// interval.
pub proof fn placed_devices_share_nothing<D, C>(
    managers: Seq<MMIODeviceManager<D, C>>,
    calls: Seq<Call<D, C>>,
    mmio_base: u64,
    irq_interval: (u32, u32),
    i: int,
    j: int,
)
    requires
        is_history(managers, calls),
        is_new(managers[0], mmio_base, irq_interval),
        0 <= i < managers.last().entries().len(),
        0 <= j < managers.last().entries().len(),
    ensures
        ({
            let a = managers.last().entries()[i];
            let b = managers.last().entries()[j];
            &&& i != j ==> a.base + a.len <= b.base || b.base + b.len <= a.base
            &&& a.device matches MmioDevice::Virtio(t) ==> (t.irq_line matches Some(l)
                && irq_interval.0 <= l <= irq_interval.1)
            &&& i != j && a.device is Virtio && b.device is Virtio ==> a.device->Virtio_0.irq_line
                != b.device->Virtio_0.irq_line
        }),
{
    lemma_history(managers, calls, mmio_base, irq_interval);
    let entries = managers.last().entries();
    assert(i != j ==> !bus::overlaps(entries[i], entries[j].base, entries[j].len));
}

/// A registration gives the device the next window of 4096 bytes and the next
/// line, and moves both on; it is refused exactly if no line is left or the
/// window is taken, and then changes nothing.
pub proof fn registrations_take_the_next_window_and_line<D, C>(
    m: &mut MMIODeviceManager<D, C>,
    transport: MmioTransport<D>,
    type_id: u32,
    name: String,
    r: Result<(u64, u32), Error>,
)
    requires
        call_ensures(
            MMIODeviceManager::<D, C>::register_mmio_device,
            (m, transport, type_id, name),
            r,
        ),
        old(m).wf(),
        admits(*old(m)) ==> old(m).next_base() + MMIO_LEN <= u64::MAX && old(m).next_irq()
            < u32::MAX,
    ensures
        r == Err::<(u64, u32), Error>(Error::IrqsExhausted) <==> old(m).next_irq()
            > old(m).last_irq(),
        r matches Ok((addr, irq)) ==> {
            let e = final(m).entries().last();
            let info = final(m).infos()[(DeviceType::Virtio(type_id), name@)];
            &&& addr == old(m).next_base() && irq == old(m).next_irq()
            &&& final(m).next_base() == addr + 4096
            &&& final(m).next_irq() == irq + 1
            &&& final(m).last_irq() == old(m).last_irq()
            &&& final(m).entries().drop_last() == old(m).entries()
            &&& e.base == addr && e.len == 4096
            &&& e.device matches MmioDevice::Virtio(t) && t.device == transport.device
                && t.irq_line == Some(irq)
            &&& info.addr == addr && info.irq == irq && info.len == 4096
        },
        r is Err ==> final(m).entries() == old(m).entries() && final(m).infos() == old(m).infos()
            && final(m).next_base() == old(m).next_base() && final(m).next_irq()
            == old(m).next_irq(),
        r == Err::<(u64, u32), Error>(Error::BusError(BusError::Overlap)) <==> old(m).next_irq()
            <= old(m).last_irq() && exists|i: int|
            0 <= i < old(m).entries().len() && {
                let e = #[trigger] old(m).entries()[i];
                e.base < old(m).next_base() + 4096 && old(m).next_base() < e.base + e.len
            },
{
    let base = old(m).next_base();
    assert(bus::occupied(old(m).entries(), base, 4096) == exists|i: int|
        0 <= i < old(m).entries().len() && {
            let e = #[trigger] old(m).entries()[i];
            e.base < base + 4096 && base < e.base + e.len
        });
    if r is Ok {
        assert(final(m).entries().drop_last() =~= old(m).entries());
    }
}

/// A device is found under its type and name exactly if one was registered
/// under them, and it is the one at the address and with the line that were
/// given out for it.
pub proof fn devices_are_found_by_type_and_name<D, C>(
    m: MMIODeviceManager<D, C>,
    device_type: DeviceType,
    name: &str,
    found: Option<&MmioDevice<D, C>>,
)
    requires
        call_ensures(MMIODeviceManager::<D, C>::get_device, (&m, device_type, name), found),
        m.wf(),
    ensures
        found is Some <==> m.infos().contains_key((device_type, name@)),
        found matches Some(device) ==> {
            let info = m.infos()[(device_type, name@)];
            &&& *device matches MmioDevice::Virtio(t) && t.irq_line == Some(info.irq)
            &&& exists|i: int|
                0 <= i < m.entries().len() && (#[trigger] m.entries()[i]).base == info.addr
                    && m.entries()[i].device == *device
        },
{
    if let Some(device) = found {
        let info = m.infos()[(device_type, name@)];
        let i = choose|i: int| #[trigger]
            is_device(m.entries(), i, info) && *device == m.entries()[i].device;
        assert(is_device(m.entries(), i, info));
        assert(m.entries()[i].base == info.addr);
    }
}

/// A transport has no line until it gets one, and keeps its device.
pub proof fn transports_get_their_line<D>(
    device: D,
    fresh: MmioTransport<D>,
    transport: &mut MmioTransport<D>,
    irq: u32,
)
    requires
        call_ensures(MmioTransport::<D>::new, (device,), fresh),
        call_ensures(MmioTransport::<D>::set_irq_line, (transport, irq), ()),
    ensures
        fresh.device == device && fresh.irq_line is None,
        final(transport).device == old(transport).device && final(transport).irq_line == Some(irq),
{
}

/// An interrupt controller without addresses is not put on the bus, and needs
/// no room; one with addresses answers at all of them and no other, and is
/// refused only where it would share one. Windows and lines stay.
pub proof fn controllers_answer_at_their_addresses<D, C>(
    m: &mut MMIODeviceManager<D, C>,
    intc: C,
    addr: u64,
    size: u64,
    r: Result<(), Error>,
)
    requires
        call_ensures(MMIODeviceManager::<D, C>::register_mmio_ioapic, (m, intc, addr, size), r),
        old(m).wf(),
    ensures
        size == 0 ==> r is Ok && final(m).entries() == old(m).entries(),
        r is Err ==> final(m).entries() == old(m).entries(),
        r is Err ==> exists|i: int|
            0 <= i < old(m).entries().len() && {
                let e = #[trigger] old(m).entries()[i];
                e.base < addr + size && addr < e.base + e.len
            },
        size > 0 && r is Ok ==> {
            let e = final(m).entries().last();
            &&& final(m).entries().drop_last() == old(m).entries()
            &&& e.base == addr && e.len == size && e.device == MmioDevice::<D, C>::Intc(intc)
        },
        final(m).next_base() == old(m).next_base(),
        final(m).next_irq() == old(m).next_irq(),
        final(m).infos() == old(m).infos(),
{
    if size > 0 && r is Ok {
        assert(final(m).entries().drop_last() =~= old(m).entries());
    }
}

/// The description ends with the cause, where there is one.
pub proof fn descriptions_end_with_the_cause(e: Error, s: String)
    requires
        call_ensures(Error::to_string, (&e,), s),
    ensures
        e matches Error::CreateMmioTransport(c) ==> s@.skip(s@.len() - c.text@.len()) == c.text@,
        e matches Error::Cmdline(c) ==> s@.skip(s@.len() - c@.len()) == c@,
        e matches Error::EventFd(c) ==> s@.skip(s@.len() - c.text@.len()) == c.text@,
{
    match e {
        Error::CreateMmioTransport(c) => {
            assert(s@.skip(s@.len() - c.text@.len()) =~= c.text@);
        },
        Error::Cmdline(c) => {
            assert(s@.skip(s@.len() - c@.len()) =~= c@);
        },
        Error::EventFd(c) => {
            assert(s@.skip(s@.len() - c.text@.len()) =~= c.text@);
        },
        _ => {},
    }
}

} // verus!
