//! The header in front of every frame.
use vstd::prelude::*;

verus! {

/// How many bytes the header takes.
pub const VNET_HDR_LEN: usize = 12;

/// A header without any offloads.
pub open spec fn blank_header() -> Seq<u8> {
    Seq::new(VNET_HDR_LEN as nat, |i: int| 0u8)
}

/// Writes a header without any offloads to the front of the buffer and
/// returns how many bytes it takes.
pub fn write_virtio_net_hdr(buf: &mut [u8]) -> (len: usize)
    requires
        old(buf)@.len() >= VNET_HDR_LEN,
    ensures
        len == VNET_HDR_LEN,
        final(buf)@ == blank_header() + old(buf)@.skip(VNET_HDR_LEN as int),
{
    let mut i: usize = 0;
    while i < VNET_HDR_LEN
        invariant
            i <= VNET_HDR_LEN <= buf@.len(),
            buf@.len() == old(buf)@.len(),
            forall|k: int| 0 <= k < i ==> buf@[k] == 0,
            forall|k: int| i <= k < buf@.len() ==> buf@[k] == old(buf)@[k],
        decreases VNET_HDR_LEN - i,
    {
        buf[i] = 0;
        i = i + 1;
    }
    assert(buf@ =~= blank_header() + old(buf)@.skip(VNET_HDR_LEN as int));
    VNET_HDR_LEN
}

/// Twelve zero bytes come first, and what stands behind them stays.
pub proof fn header_is_twelve_zeros(buf: &mut [u8], len: usize)
    requires
        call_ensures(write_virtio_net_hdr, (buf,), len),
        old(buf)@.len() >= 12,
    ensures
        len == 12,
        final(buf)@.len() == old(buf)@.len(),
        forall|i: int| 0 <= i < 12 ==> final(buf)@[i] == 0,
        forall|i: int| 12 <= i < old(buf)@.len() ==> final(buf)@[i] == old(buf)@[i],
{
}

} // verus!
