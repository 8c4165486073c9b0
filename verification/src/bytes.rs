//! 32-bit numbers as bytes, lowest byte first.
use vstd::prelude::*;

verus! {

/// The number whose bytes are `b0` to `b3`, lowest first.
pub open spec fn word_of(b0: u8, b1: u8, b2: u8, b3: u8) -> int {
    b0 + b1 * 0x100 + b2 * 0x1_0000 + b3 * 0x100_0000
}

/// The four bytes of `v`, lowest first.
pub open spec fn bytes_of(v: u32) -> Seq<u8> {
    seq![
        (v % 0x100) as u8,
        (v / 0x100 % 0x100) as u8,
        (v / 0x1_0000 % 0x100) as u8,
        (v / 0x100_0000) as u8,
    ]
}

/// The number whose bytes are `b0` to `b3`, lowest first.
pub fn le_word(b0: u8, b1: u8, b2: u8, b3: u8) -> (v: u32)
    ensures
        v == word_of(b0, b1, b2, b3),
{
    (b0 as u32) + (b1 as u32) * 0x100 + (b2 as u32) * 0x1_0000 + (b3 as u32) * 0x100_0000
}

/// Stores `v` in four bytes, lowest first.
pub fn put_le_word(data: &mut [u8], v: u32)
    requires
        old(data)@.len() == 4,
    ensures
        final(data)@ == bytes_of(v),
{
    data[0] = (v % 0x100) as u8;
    data[1] = (v / 0x100 % 0x100) as u8;
    data[2] = (v / 0x1_0000 % 0x100) as u8;
    data[3] = (v / 0x100_0000) as u8;
    assert(data@ =~= bytes_of(v));
}

/// A number that was stored in bytes is read back from them.
pub proof fn word_of_bytes_of(v: u32)
    ensures
        word_of(bytes_of(v)[0], bytes_of(v)[1], bytes_of(v)[2], bytes_of(v)[3]) == v,
{
}

/// The lowest byte comes first: the bytes weigh 1, 256, 65536 and 16777216.
pub proof fn bytes_have_their_weights(data: &mut [u8], v: u32)
    requires
        call_ensures(put_le_word, (data, v), ()),
    ensures
        final(data)@.len() == 4,
        ({
            let d = final(data)@;
            d[0] + 256 * d[1] + 65_536 * d[2] + 16_777_216 * d[3] == v
        }),
{
}

/// Each byte is found again in its place of the number.
pub proof fn numbers_are_made_of_their_bytes(b0: u8, b1: u8, b2: u8, b3: u8, v: u32)
    requires
        call_ensures(le_word, (b0, b1, b2, b3), v),
    ensures
        v & 0xff == b0,
        (v >> 8) & 0xff == b1,
        (v >> 16) & 0xff == b2,
        v >> 24 == b3,
{
    assert(v & 0xff == v % 0x100 && (v >> 8) & 0xff == v / 0x100 % 0x100 && (v >> 16) & 0xff == v
        / 0x1_0000 % 0x100 && v >> 24 == v / 0x100_0000) by (bit_vector);
}

} // verus!
