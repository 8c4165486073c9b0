//! Devices at non-overlapping address ranges.
use vstd::prelude::*;

verus! {

/// Why a device cannot be put on a bus.
#[derive(Clone, Copy, PartialEq, Eq, Structural, Debug)]
pub enum BusError {
    /// The device overlaps with another one.
    Overlap,
}

/// The text that describes an error.
pub open spec fn bus_error_text(e: BusError) -> Seq<char> {
    "New device overlaps with an old device."@
}

impl BusError {
    /// Describes the error.
    pub fn to_string(&self) -> (s: String)
        ensures
            s@ == bus_error_text(*self),
    {
        "New device overlaps with an old device.".to_owned()
    }
}

/// A device and the addresses it answers at.
pub struct BusEntry<T> {
    pub base: u64,
    pub len: u64,
    pub device: T,
}

/// The address is in the range of the entry.
pub open spec fn covers<T>(e: BusEntry<T>, addr: u64) -> bool {
    e.base <= addr < e.base + e.len
}

/// The range shares an address with that of the entry.
pub open spec fn overlaps<T>(e: BusEntry<T>, base: u64, len: u64) -> bool {
    e.base < base + len && base < e.base + e.len
}

/// The range shares an address with that of some entry.
pub open spec fn occupied<T>(entries: Seq<BusEntry<T>>, base: u64, len: u64) -> bool {
    exists|i: int| 0 <= i < entries.len() && overlaps(#[trigger] entries[i], base, len)
}

/// No entry answers at the address.
pub open spec fn unanswered<T>(entries: Seq<BusEntry<T>>, addr: u64) -> bool {
    forall|i: int| 0 <= i < entries.len() ==> !covers(#[trigger] entries[i], addr)
}

/// Ranges are not empty, and no two of them share an address.
pub open spec fn separate<T>(entries: Seq<BusEntry<T>>) -> bool {
    &&& forall|i: int| 0 <= i < entries.len() ==> (#[trigger] entries[i]).len > 0
    &&& forall|i: int, j: int|
        0 <= i < entries.len() && 0 <= j < entries.len() && i != j ==> !overlaps(
            #[trigger] entries[i],
            (#[trigger] entries[j]).base,
            entries[j].len,
        )
}

/// Devices at address ranges.
pub struct Bus<T> {
    entries: Vec<BusEntry<T>>,
}

impl<T> Bus<T> {
    /// The devices, in the order in which they came.
    pub closed spec fn entries(&self) -> Seq<BusEntry<T>> {
        self.entries@
    }

    /// No two devices answer at the same address.
    pub open spec fn wf(&self) -> bool {
        separate(self.entries())
    }

    /// A bus without devices.
    pub fn new() -> (bus: Bus<T>)
        ensures
            bus.wf(),
            bus.entries().len() == 0,
    {
        Bus { entries: Vec::new() }
    }

    /// Puts a device on the bus, if no other one is in its range.
    pub fn insert(&mut self, device: T, base: u64, len: u64) -> (r: Result<(), BusError>)
        requires
            old(self).wf(),
            len > 0,
        ensures
            final(self).wf(),
            if occupied(old(self).entries(), base, len) {
                r == Err::<(), BusError>(BusError::Overlap) && final(self).entries() == old(
                    self,
                ).entries()
            } else {
                r is Ok && final(self).entries() == old(self).entries().push(
                    BusEntry { base, len, device },
                )
            },
    {
        let mut i: usize = 0;
        while i < self.entries.len()
            invariant
                i <= self.entries@.len(),
                self.entries() == old(self).entries(),
                separate(self.entries()),
                forall|k: int| 0 <= k < i ==> !overlaps(#[trigger] self.entries@[k], base, len),
            decreases self.entries@.len() - i,
        {
            let entry_base: u64 = self.entries[i].base;
            let entry_len: u64 = self.entries[i].len;
            if (entry_base as u128) < base as u128 + len as u128 && (base as u128)
                < entry_base as u128 + entry_len as u128 {
                assert(overlaps(self.entries@[i as int], base, len));
                return Err(BusError::Overlap);
            }
            i = i + 1;
        }
        self.entries.push(BusEntry { base, len, device });
        Ok(())
    }

    /// The device at the address and the address's offset in its range.
    pub fn get_device(&self, addr: u64) -> (found: Option<(u64, &T)>)
        requires
            self.wf(),
        ensures
            match found {
                Some((offset, device)) => exists|i: int|
                    0 <= i < self.entries().len() && covers(#[trigger] self.entries()[i], addr)
                        && *device == self.entries()[i].device && offset == addr
                        - self.entries()[i].base,
                None => forall|i: int|
                    0 <= i < self.entries().len() ==> !covers(#[trigger] self.entries()[i], addr),
            },
            found is None ==> unanswered(self.entries(), addr),
    {
        let mut i: usize = 0;
        while i < self.entries.len()
            invariant
                i <= self.entries@.len(),
                forall|k: int| 0 <= k < i ==> !covers(#[trigger] self.entries@[k], addr),
            decreases self.entries@.len() - i,
        {
            let base: u64 = self.entries[i].base;
            let len: u64 = self.entries[i].len;
            if base <= addr && addr - base < len {
                assert(covers(self.entries()[i as int], addr));
                return Some((addr - base, &self.entries[i].device));
            }
            i = i + 1;
        }
        None
    }
}

/// At most one device answers at an address.
pub proof fn at_most_one_device_answers<T>(entries: Seq<BusEntry<T>>, addr: u64, i: int, j: int)
    requires
        separate(entries),
        0 <= i < entries.len(),
        0 <= j < entries.len(),
        covers(entries[i], addr),
        covers(entries[j], addr),
    ensures
        i == j,
{
    if i != j {
        assert(!overlaps(entries[i], entries[j].base, entries[j].len));
    }
}

/// A device is refused exactly if its range begins in that of a device that
/// is there, or the other way round; ranges that only touch do not matter. A
/// refused one changes nothing, and an admitted one comes last.
pub proof fn devices_are_refused_for_a_shared_address<T>(
    bus: &mut Bus<T>,
    device: T,
    base: u64,
    len: u64,
    r: Result<(), BusError>,
)
    requires
        call_ensures(Bus::<T>::insert, (bus, device, base, len), r),
        old(bus).wf(),
        len > 0,
    ensures
        r is Err <==> exists|i: int|
            0 <= i < old(bus).entries().len() && {
                let e = #[trigger] old(bus).entries()[i];
                e.base <= base < e.base + e.len || base <= e.base < base + len
            },
        r is Err ==> final(bus).entries() == old(bus).entries(),
        r is Ok ==> final(bus).entries().len() == old(bus).entries().len() + 1
            && final(bus).entries().last().base == base && final(bus).entries().last().len == len
            && final(bus).entries().last().device == device && forall|i: int|
            0 <= i < old(bus).entries().len() ==> #[trigger] final(bus).entries()[i]
                == old(bus).entries()[i],
{
    let entries = old(bus).entries();
    if r is Err {
        let i = choose|i: int| 0 <= i < entries.len() && overlaps(#[trigger] entries[i], base, len);
        assert(entries[i].len > 0);
    }
    if r is Ok {
        assert forall|i: int| 0 <= i < entries.len() implies !overlaps(
            #[trigger] entries[i],
            base,
            len,
        ) && entries[i].len > 0 by {}
    }
}

/// An address finds the device in whose range it is, with the distance to the
/// beginning of that range, and nothing outside of all ranges.
pub proof fn addresses_find_their_device<T>(
    bus: Bus<T>,
    addr: u64,
    found: Option<(u64, &T)>,
    i: int,
)
    requires
        call_ensures(Bus::<T>::get_device, (&bus, addr), found),
        bus.wf(),
        0 <= i < bus.entries().len(),
    ensures
        bus.entries()[i].base <= addr < bus.entries()[i].base + bus.entries()[i].len ==> (
        found matches Some((offset, device)) && *device == bus.entries()[i].device
            && bus.entries()[i].base + offset == addr),
        found is None ==> !(bus.entries()[i].base <= addr < bus.entries()[i].base
            + bus.entries()[i].len),
{
    assert(covers(bus.entries()[i], addr) == (bus.entries()[i].base <= addr < bus.entries()[i].base
        + bus.entries()[i].len));
    if let Some((offset, device)) = found {
        let j = choose|j: int|
            0 <= j < bus.entries().len() && covers(#[trigger] bus.entries()[j], addr) && *device
                == bus.entries()[j].device && offset == addr - bus.entries()[j].base;
        if covers(bus.entries()[i], addr) {
            at_most_one_device_answers(bus.entries(), addr, i, j);
        }
    }
}

} // verus!
