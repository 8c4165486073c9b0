//! Global descriptor table entries and the segment state read back from them.
use vstd::prelude::*;

verus! {

/// The descriptor for a segment: the limit in bits 0 to 15 and 48 to 51, the
/// base in bits 16 to 39 and 56 to 63, and the access byte and the flags
/// nibble of `flags` in bits 40 to 47 and 52 to 55.
pub open spec fn descriptor(flags: u16, base: u32, limit: u32) -> int {
    limit as int % 0x1_0000 + (base as int % 0x100_0000) * 0x1_0000 + (flags as int % 0x100)
        * 0x100_0000_0000 + (limit as int / 0x1_0000 % 0x10) * 0x1_0000_0000_0000 + (flags as int
        / 0x1000) * 0x10_0000_0000_0000 + (base as int / 0x100_0000) * 0x100_0000_0000_0000
}

/// The access byte and the flags nibble of a descriptor, the nibble in the
/// four highest bits.
pub open spec fn descriptor_attributes(entry: u64) -> int {
    entry as int / 0x100_0000_0000 % 0x100 + (entry as int / 0x10_0000_0000_0000 % 0x10) * 0x1000
}

/// The base address of a descriptor.
pub open spec fn descriptor_base(entry: u64) -> int {
    entry as int / 0x1_0000 % 0x100_0000 + (entry as int / 0x100_0000_0000_0000) * 0x100_0000
}

/// The limit of a descriptor.
pub open spec fn descriptor_limit(entry: u64) -> int {
    entry as int % 0x1_0000 + (entry as int / 0x1_0000_0000_0000 % 0x10) * 0x1_0000
}

/// Encodes a descriptor from its flags, base and limit.
pub fn gdt_entry(flags: u16, base: u32, limit: u32) -> (entry: u64)
    ensures
        entry == descriptor(flags, base, limit),
{
    let f: u64 = flags as u64;
    let b: u64 = base as u64;
    let l: u64 = limit as u64;
    proof {
        let x0: u64 = (b & 0xff00_0000u64) << 32;
        let x1: u64 = (f & 0xf0ffu64) << 40;
        let x2: u64 = (l & 0xf_0000u64) << 32;
        let x3: u64 = (b & 0xff_ffffu64) << 16;
        let x4: u64 = l & 0xffffu64;
        assert(x0 | x1 | x2 | x3 | x4 == x0 + x1 + x2 + x3 + x4) by (bit_vector)
            requires
                x0 == (b & 0xff00_0000u64) << 32,
                x1 == (f & 0xf0ffu64) << 40,
                x2 == (l & 0xf_0000u64) << 32,
                x3 == (b & 0xff_ffffu64) << 16,
                x4 == l & 0xffffu64,
        ;
        assert(x0 == (b / 0x100_0000) * 0x100_0000_0000_0000) by (bit_vector)
            requires
                x0 == (b & 0xff00_0000u64) << 32,
                b <= 0xffff_ffff,
        ;
        assert(x1 == (f % 0x100) * 0x100_0000_0000 + (f / 0x1000) * 0x10_0000_0000_0000)
            by (bit_vector)
            requires
                x1 == (f & 0xf0ffu64) << 40,
                f <= 0xffff,
        ;
        assert(x2 == (l / 0x1_0000 % 0x10) * 0x1_0000_0000_0000) by (bit_vector)
            requires
                x2 == (l & 0xf_0000u64) << 32,
        ;
        assert(x3 == (b % 0x100_0000) * 0x1_0000) by (bit_vector)
            requires
                x3 == (b & 0xff_ffffu64) << 16,
        ;
        assert(x4 == l % 0x1_0000) by (bit_vector)
            requires
                x4 == l & 0xffffu64,
        ;
    }
    ((b & 0xff00_0000u64) << (56 - 24)) | ((f & 0x0000_f0ffu64) << 40) | ((l & 0x000f_0000u64) << (
    48 - 16)) | ((b & 0x00ff_ffffu64) << 16) | (l & 0x0000_ffffu64)
}

/// Extracts the segment attributes from a descriptor: type, S, DPL and P in
/// the low byte, AVL, L, D/B and G in the four highest bits.
pub fn seg_attributes(entry: u64) -> (attributes: u16)
    ensures
        attributes == descriptor_attributes(entry),
{
    let lo: u64 = (entry >> 40) & 0xFF;
    let hi: u64 = (entry >> 52) & 0x0F;
    proof {
        assert(lo == entry / 0x100_0000_0000 % 0x100) by (bit_vector)
            requires
                lo == (entry >> 40) & 0xFF,
        ;
        assert(hi == entry / 0x10_0000_0000_0000 % 0x10) by (bit_vector)
            requires
                hi == (entry >> 52) & 0x0F,
        ;
        let l16: u16 = lo as u16;
        let h16: u16 = hi as u16;
        assert(l16 | (h16 << 12) == l16 + h16 * 0x1000) by (bit_vector)
            requires
                l16 < 0x100,
                h16 < 0x10,
        ;
    }
    lo as u16 | ((hi as u16) << 12)
}

/// Extracts the base address from a descriptor.
pub fn seg_base(entry: u64) -> (base: u64)
    ensures
        base == descriptor_base(entry),
{
    proof {
        assert((((entry & 0xFF00_0000_0000_0000) >> 32) | ((entry & 0x0000_00FF_0000_0000) >> 16)
            | ((entry & 0x0000_0000_FFFF_0000) >> 16)) == entry / 0x1_0000 % 0x100_0000 + (entry
            / 0x100_0000_0000_0000) * 0x100_0000) by (bit_vector);
    }
    ((entry & 0xFF00_0000_0000_0000) >> 32) | ((entry & 0x0000_00FF_0000_0000) >> 16) | ((entry
        & 0x0000_0000_FFFF_0000) >> 16)
}

/// Extracts the limit from a descriptor.
pub fn seg_limit(entry: u64) -> (limit: u32)
    ensures
        limit == descriptor_limit(entry),
{
    let wide: u64 = ((entry & 0x000F_0000_0000_0000) >> 32) | (entry & 0x0000_0000_0000_FFFF);
    proof {
        assert(wide == entry % 0x1_0000 + (entry / 0x1_0000_0000_0000 % 0x10) * 0x1_0000)
            by (bit_vector)
            requires
                wide == ((entry & 0x000F_0000_0000_0000) >> 32) | (entry & 0x0000_0000_0000_FFFF),
        ;
    }
    wide as u32
}

/// The fields of a descriptor can be told apart by their positions.
proof fn lemma_fields(e: int, l0: int, b0: int, f0: int, l1: int, f1: int, b1: int)
    requires
        0 <= l0 < 0x1_0000,
        0 <= b0 < 0x100_0000,
        0 <= f0 < 0x100,
        0 <= l1 < 0x10,
        0 <= f1 < 0x10,
        0 <= b1 < 0x100,
        e == l0 + b0 * 0x1_0000 + f0 * 0x100_0000_0000 + l1 * 0x1_0000_0000_0000 + f1
            * 0x10_0000_0000_0000 + b1 * 0x100_0000_0000_0000,
    ensures
        e % 0x1_0000 == l0,
        e / 0x1_0000 % 0x100_0000 == b0,
        e / 0x100_0000_0000 % 0x100 == f0,
        e / 0x1_0000_0000_0000 % 0x10 == l1,
        e / 0x10_0000_0000_0000 % 0x10 == f1,
        e / 0x100_0000_0000_0000 == b1,
{
    let q1 = b0 + f0 * 0x100_0000 + l1 * 0x1_0000_0000 + f1 * 0x10_0000_0000 + b1
        * 0x100_0000_0000;
    let q2 = f0 + l1 * 0x100 + f1 * 0x1000 + b1 * 0x1_0000;
    let q3 = l1 + f1 * 0x10 + b1 * 0x100;
    let q4 = f1 + b1 * 0x10;
    assert(e / 0x1_0000 == q1 && e % 0x1_0000 == l0);
    assert(q1 % 0x100_0000 == b0);
    assert(e / 0x100_0000_0000 == q2);
    assert(q2 % 0x100 == f0);
    assert(e / 0x1_0000_0000_0000 == q3);
    assert(q3 % 0x10 == l1);
    assert(e / 0x10_0000_0000_0000 == q4);
    assert(q4 % 0x10 == f1);
}

/// Decoding a descriptor gives back what it was encoded from: the base, the
/// low twenty bits of the limit, and the access byte and flags nibble.
pub proof fn decoding_undoes_encoding(flags: u16, base: u32, limit: u32, entry: u64)
    requires
        entry == descriptor(flags, base, limit),
    ensures
        descriptor_base(entry) == base,
        descriptor_limit(entry) == limit % 0x10_0000,
        descriptor_attributes(entry) == flags % 0x100 + (flags / 0x1000) * 0x1000,
{
    lemma_fields(
        entry as int,
        limit as int % 0x1_0000,
        base as int % 0x100_0000,
        flags as int % 0x100,
        limit as int / 0x1_0000 % 0x10,
        flags as int / 0x1000,
        base as int / 0x100_0000,
    );
}

/// The fields of a descriptor stand where the processor looks for them: the
/// limit in bits 0 to 15 and 48 to 51, the base in bits 16 to 39 and 56 to 63,
/// the access byte in bits 40 to 47 and the flags nibble in bits 52 to 55.
pub proof fn encoded_fields_stand_in_their_bits(flags: u16, base: u32, limit: u32, entry: u64)
    requires
        call_ensures(gdt_entry, (flags, base, limit), entry),
    ensures
        entry & 0xffff == limit & 0xffff,
        (entry >> 48) & 0xf == (limit >> 16) & 0xf,
        (entry >> 16) & 0xff_ffff == base & 0xff_ffff,
        entry >> 56 == base >> 24,
        (entry >> 40) & 0xff == flags & 0xff,
        (entry >> 52) & 0xf == flags >> 12,
{
    lemma_fields(
        entry as int,
        limit as int % 0x1_0000,
        base as int % 0x100_0000,
        flags as int % 0x100,
        limit as int / 0x1_0000 % 0x10,
        flags as int / 0x1000,
        base as int / 0x100_0000,
    );
    lemma_entry_bits(entry);
    assert(limit & 0xffff == limit % 0x1_0000 && (limit >> 16) & 0xf == limit / 0x1_0000 % 0x10
        && base & 0xff_ffff == base % 0x100_0000 && base >> 24 == base / 0x100_0000 && flags & 0xff
        == flags % 0x100 && flags >> 12 == flags / 0x1000) by (bit_vector);
}

/// The fields of a descriptor by bits and by division.
proof fn lemma_entry_bits(entry: u64)
    ensures
        entry & 0xffff == entry % 0x1_0000,
        (entry >> 48) & 0xf == entry / 0x1_0000_0000_0000 % 0x10,
        (entry >> 16) & 0xff_ffff == entry / 0x1_0000 % 0x100_0000,
        entry >> 56 == entry / 0x100_0000_0000_0000,
        (entry >> 40) & 0xff == entry / 0x100_0000_0000 % 0x100,
        (entry >> 52) & 0xf == entry / 0x10_0000_0000_0000 % 0x10,
{
    assert(entry & 0xffff == entry % 0x1_0000 && (entry >> 48) & 0xf == entry / 0x1_0000_0000_0000
        % 0x10 && (entry >> 16) & 0xff_ffff == entry / 0x1_0000 % 0x100_0000 && entry >> 56 == entry
        / 0x100_0000_0000_0000 && (entry >> 40) & 0xff == entry / 0x100_0000_0000 % 0x100 && (entry
        >> 52) & 0xf == entry / 0x10_0000_0000_0000 % 0x10) by (bit_vector);
}

/// The fields are read from the same bits: the base from bits 16 to 39 and 56
/// to 63, the limit from bits 0 to 15 and 48 to 51, and the attributes from
/// bits 40 to 47 and, as their four highest, 52 to 55.
pub proof fn decoded_fields_come_from_their_bits(
    entry: u64,
    base: u64,
    limit: u32,
    attributes: u16,
)
    requires
        call_ensures(seg_base, (entry,), base),
        call_ensures(seg_limit, (entry,), limit),
        call_ensures(seg_attributes, (entry,), attributes),
    ensures
        base % 0x100_0000 == (entry >> 16) & 0xff_ffff,
        base / 0x100_0000 == entry >> 56,
        limit % 0x1_0000 == entry & 0xffff,
        limit / 0x1_0000 == (entry >> 48) & 0xf,
        attributes % 0x100 == (entry >> 40) & 0xff,
        attributes / 0x1000 == (entry >> 52) & 0xf,
        attributes / 0x100 % 0x10 == 0,
{
    lemma_entry_bits(entry);
}

} // verus!
