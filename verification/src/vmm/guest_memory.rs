//! Guest memory: what it holds, byte by byte, and 64-bit accesses to it.
use vm_memory::{
    Address, Bytes, GuestAddress, GuestMemory, GuestMemoryError, GuestMemoryMmap,
    GuestMemoryRegion,
};
use vstd::prelude::*;

verus! {

/// `vm_memory::GuestMemoryMmap`, the guest's memory mapped into this process.
/// Its contents are known through `guest_bytes`.
#[verifier::external_type_specification]
#[verifier::external_body]
#[verifier::reject_recursive_types(B)]
pub struct ExGuestMemoryMmap<B>(GuestMemoryMmap<B>);

/// The bytes of guest memory by guest physical address; the addresses that a
/// region backs are the keys. It is what is read through this handle while
/// neither a running processor nor another handle to the same regions writes.
pub uninterp spec fn guest_bytes(mem: GuestMemoryMmap<()>) -> Map<u64, u8>;

/// The regions of guest memory, each as its start and its length, in the
/// order in which they are listed.
pub uninterp spec fn guest_regions(mem: GuestMemoryMmap<()>) -> Seq<(u64, u64)>;

/// The error of a write of eight bytes at an address that memory, which holds
/// the given addresses, does not back.
pub uninterp spec fn write_failure(held: Set<u64>, addr: u64) -> GuestMemoryError;

/// Byte `k` of `value`, counted from the lowest.
pub open spec fn le_byte(value: u64, k: int) -> u8
    decreases k,
{
    if k <= 0 {
        (value % 256) as u8
    } else {
        le_byte(value / 256, k - 1)
    }
}

/// Memory backs the eight bytes from `addr` on.
pub open spec fn backed(bytes: Map<u64, u8>, addr: u64) -> bool {
    &&& addr + 8 <= u64::MAX + 1
    &&& forall|a: u64| addr <= a < addr + 8 ==> #[trigger] bytes.contains_key(a)
}

/// Memory backs every byte from `addr` to `last`, both included.
pub open spec fn backed_to(bytes: Map<u64, u8>, addr: u64, last: u64) -> bool {
    forall|a: u64| addr <= a <= last ==> #[trigger] bytes.contains_key(a)
}

/// Memory after a write of `value` at `addr`: its bytes, lowest first, are in
/// place up to the first address that nothing backs.
pub open spec fn stored(bytes: Map<u64, u8>, addr: u64, value: u64) -> Map<u64, u8> {
    Map::new(
        |a: u64| bytes.contains_key(a),
        |a: u64|
            if addr <= a < addr + 8 && backed_to(bytes, addr, a) {
                le_byte(value, a - addr)
            } else {
                bytes[a]
            },
    )
}

/// The 64-bit number whose bytes, lowest first, are at `addr`.
pub open spec fn loaded(bytes: Map<u64, u8>, addr: u64) -> int {
    bytes[addr] + bytes[(addr + 1) as u64] * 0x100 + bytes[(addr + 2) as u64] * 0x1_0000
        + bytes[(addr + 3) as u64] * 0x100_0000 + bytes[(addr + 4) as u64] * 0x1_0000_0000
        + bytes[(addr + 5) as u64] * 0x100_0000_0000 + bytes[(addr + 6) as u64]
        * 0x1_0000_0000_0000 + bytes[(addr + 7) as u64] * 0x100_0000_0000_0000
}

/// Memory after a list of writes of pairs of an address and a value.
pub open spec fn stored_all(bytes: Map<u64, u8>, writes: Seq<(u64, u64)>) -> Map<u64, u8>
    decreases writes.len(),
{
    if writes.len() == 0 {
        bytes
    } else {
        stored(stored_all(bytes, writes.drop_last()), writes.last().0, writes.last().1)
    }
}

/// The writes touch different bytes.
pub open spec fn disjoint(writes: Seq<(u64, u64)>) -> bool {
    forall|i: int, j: int|
        0 <= i < j < writes.len() ==> #[trigger] writes[i].0 + 8 <= #[trigger] writes[j].0
            || writes[j].0 + 8 <= writes[i].0
}

/// `vm_memory::Bytes::write_obj` for a 64-bit number in little-endian order.
/// Claimed: the write succeeds if and only if memory backs all eight bytes;
/// a write that does not succeed has stored the bytes before the first hole,
/// and its error depends on the held addresses and the address alone; nothing
/// else changes.
#[verifier::external_body]
pub(crate) fn write_obj(mem: &mut GuestMemoryMmap<()>, value: u64, addr: u64) -> (r: Result<
    (),
    GuestMemoryError,
>)
    ensures
        r is Ok <==> backed(guest_bytes(*old(mem)), addr),
        r matches Err(e) ==> e == write_failure(guest_bytes(*old(mem)).dom(), addr),
        guest_bytes(*final(mem)) == stored(guest_bytes(*old(mem)), addr, value),
{
    mem.write_obj(value.to_le(), GuestAddress(addr))
}

/// `vm_memory::GuestMemory::iter` with each region as the host address that
/// `vm_memory::GuestMemory::get_host_address` gives for its start, its start
/// and its length. Claimed: the regions come in the order of `guest_regions`,
/// are not empty, end below the end of the address space, ascend without
/// overlapping, and back exactly the addresses that memory holds. Nothing is
/// claimed of the host addresses, which the host's allocator chose.
#[verifier::external_body]
pub(crate) fn regions(mem: &GuestMemoryMmap<()>) -> (r: Vec<(u64, u64, u64)>)
    ensures
        r@.len() == guest_regions(*mem).len(),
        forall|i: int|
            0 <= i < r@.len() ==> ((#[trigger] r@[i]).1, r@[i].2) == guest_regions(*mem)[i],
        forall|i: int|
            0 <= i < r@.len() ==> 0 < (#[trigger] r@[i]).2 && r@[i].1 + r@[i].2 <= u64::MAX,
        forall|i: int, j: int|
            0 <= i < j < r@.len() ==> (#[trigger] r@[i]).1 + r@[i].2 <= (#[trigger] r@[j]).1,
        forall|a: u64| #[trigger]
            guest_bytes(*mem).contains_key(a) <==> exists|i: int|
                0 <= i < r@.len() && (#[trigger] r@[i]).1 <= a < r@[i].1 + r@[i].2,
{
    let host = |start| {
        mem.get_host_address(start).expect("guest memory region has no host mapping")
    };
    mem.iter()
        .map(|r| (host(r.start_addr()) as u64, r.start_addr().raw_value(), r.len()))
        .collect()
}

/// A number is the sum of its weighted bytes.
proof fn lemma_bytes_sum(value: u64)
    ensures
        le_byte(value, 0) + le_byte(value, 1) * 0x100 + le_byte(value, 2) * 0x1_0000 + le_byte(
            value,
            3,
        ) * 0x100_0000 + le_byte(value, 4) * 0x1_0000_0000 + le_byte(value, 5) * 0x100_0000_0000
            + le_byte(value, 6) * 0x1_0000_0000_0000 + le_byte(value, 7) * 0x100_0000_0000_0000
            == value,
{
    reveal_with_fuel(le_byte, 8);
    let v1 = value / 256;
    let v2 = v1 / 256;
    let v3 = v2 / 256;
    let v4 = v3 / 256;
    let v5 = v4 / 256;
    let v6 = v5 / 256;
    let v7 = v6 / 256;
    assert(le_byte(value, 7) == v7 % 256);
    assert(v7 < 256);
}

/// Where memory backs the eight bytes, a number that was written is read back.
pub proof fn load_after_store(bytes: Map<u64, u8>, addr: u64, value: u64)
    requires
        backed(bytes, addr),
    ensures
        loaded(stored(bytes, addr, value), addr) == value,
{
    let after = stored(bytes, addr, value);
    assert forall|k: int| 0 <= k < 8 implies #[trigger] after[(addr + k) as u64] == le_byte(
        value,
        k,
    ) by {
        let a = (addr + k) as u64;
        assert(bytes.contains_key(a));
        assert(backed_to(bytes, addr, a));
    }
    assert(after[addr] == after[(addr + 0) as u64]);
    lemma_bytes_sum(value);
}

/// A write leaves a number elsewhere as it was.
pub proof fn store_elsewhere(bytes: Map<u64, u8>, addr: u64, value: u64, other: u64)
    requires
        backed(bytes, other),
        other + 8 <= addr || addr + 8 <= other,
    ensures
        loaded(stored(bytes, addr, value), other) == loaded(bytes, other),
{
    let after = stored(bytes, addr, value);
    assert forall|k: int| 0 <= k < 8 implies #[trigger] after[(other + k) as u64] == bytes[(other
        + k) as u64] by {
        assert(bytes.contains_key((other + k) as u64));
    }
    assert(after[other] == after[(other + 0) as u64]);
}

/// Writes do not change which addresses are backed.
pub proof fn stores_keep_layout(bytes: Map<u64, u8>, writes: Seq<(u64, u64)>)
    ensures
        stored_all(bytes, writes).dom() == bytes.dom(),
    decreases writes.len(),
{
    if writes.len() > 0 {
        stores_keep_layout(bytes, writes.drop_last());
        assert(stored_all(bytes, writes).dom() =~= bytes.dom());
    }
}

/// After writes to different backed places every one of them is read back.
pub proof fn loads_after_stores(bytes: Map<u64, u8>, writes: Seq<(u64, u64)>, i: int)
    requires
        0 <= i < writes.len(),
        disjoint(writes),
        forall|j: int| 0 <= j < writes.len() ==> backed(bytes, (#[trigger] writes[j]).0),
    ensures
        loaded(stored_all(bytes, writes), writes[i].0) == writes[i].1,
    decreases writes.len(),
{
    let prefix = writes.drop_last();
    let before = stored_all(bytes, prefix);
    stores_keep_layout(bytes, prefix);
    let (addr, value) = writes.last();
    assert(forall|a: u64| before.contains_key(a) <==> bytes.contains_key(a)) by {
        assert forall|a: u64| before.contains_key(a) <==> bytes.contains_key(a) by {
            assert(before.dom().contains(a) == bytes.dom().contains(a));
        }
    }
    assert(backed(bytes, writes[i].0));
    assert(backed(before, writes[i].0)) by {
        assert forall|a: u64| writes[i].0 <= a < writes[i].0 + 8 implies before.contains_key(a) by {
            assert(bytes.contains_key(a));
        }
    }
    if i == writes.len() - 1 {
        load_after_store(before, addr, value);
    } else {
        assert forall|j: int| 0 <= j < prefix.len() implies backed(
            bytes,
            (#[trigger] prefix[j]).0,
        ) by {
            assert(prefix[j] == writes[j]);
        }
        assert(disjoint(prefix)) by {
            assert forall|p: int, q: int| 0 <= p < q < prefix.len() implies #[trigger] prefix[p].0
                + 8 <= #[trigger] prefix[q].0 || prefix[q].0 + 8 <= prefix[p].0 by {
                assert(prefix[p] == writes[p] && prefix[q] == writes[q]);
            }
        }
        loads_after_stores(bytes, prefix, i);
        assert(prefix[i] == writes[i]);
        assert(writes[i].0 + 8 <= writes[writes.len() - 1].0 || writes[writes.len() - 1].0 + 8
            <= writes[i].0);
        store_elsewhere(before, addr, value, writes[i].0);
    }
}

} // verus!
