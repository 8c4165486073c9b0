//! The state in which a processor enters a kernel in 64-bit long mode.
use crate::vmm::error::Error;
use crate::vmm::guest_memory;
use crate::vmm::registers;
use crate::vmm::registers::{
    RegisterName, RegisterValue, RegisterWrite, SegmentRegister, TableRegister,
};
use crate::vmm::segments;
use vm_memory::{GuestMemoryError, GuestMemoryMmap};
use vstd::prelude::*;

verus! {

/// Where the stack starts.
pub const BOOT_STACK_POINTER: u64 = 0x8ff0;

/// Where the boot parameters are.
pub const ZERO_PAGE_START: u64 = 0x7000;

/// Where the highest level of the page tables is.
pub const PML4_START: u64 = 0x9000;

/// Where the page directory pointers are.
pub const PDPTE_START: u64 = 0xA000;

/// Where the page directory is.
pub const PDE_START: u64 = 0xB000;

/// Where the global descriptor table is.
pub const GDT_START: u64 = 0x500;

/// Where the interrupt descriptor table is.
pub const IDT_START: u64 = 0x520;

/// The global descriptor table: null, 64-bit code, data and task state.
pub open spec fn boot_gdt(i: int) -> u64 {
    if i == 1 {
        segments::descriptor(0xa09b, 0, 0xfffff) as u64
    } else if i == 2 {
        segments::descriptor(0xc093, 0, 0xfffff) as u64
    } else if i == 3 {
        segments::descriptor(0x808b, 0, 0xfffff) as u64
    } else {
        0
    }
}

/// Write number `i` of the boot tables: first the two upper levels of the page
/// tables, then the page directory with one entry for each 2 MiB, then the
/// descriptor table, then an empty interrupt table.
pub open spec fn boot_write(i: int) -> (u64, u64) {
    if i == 0 {
        (PML4_START, (PDPTE_START + 0x03) as u64)
    } else if i == 1 {
        (PDPTE_START, (PDE_START + 0x03) as u64)
    } else if i < 514 {
        ((PDE_START + (i - 2) * 8) as u64, ((i - 2) * 0x20_0000 + 0x83) as u64)
    } else if i < 518 {
        ((GDT_START + (i - 514) * 8) as u64, boot_gdt(i - 514))
    } else {
        (IDT_START, 0)
    }
}

/// All writes of the boot tables, as pairs of an address and a value.
pub open spec fn boot_writes() -> Seq<(u64, u64)> {
    Seq::new(519, |i: int| boot_write(i))
}

/// The segment register for entry `i` of the boot descriptor table.
pub open spec fn boot_segment(i: int) -> RegisterValue {
    RegisterValue::Segment(
        SegmentRegister {
            base: segments::descriptor_base(boot_gdt(i)) as u64,
            limit: segments::descriptor_limit(boot_gdt(i)) as u32,
            selector: (i * 8) as u16,
            attributes: segments::descriptor_attributes(boot_gdt(i)) as u16,
        },
    )
}

/// The registers with which a processor enters a kernel at `entry`.
pub open spec fn boot_registers(entry: u64) -> Seq<RegisterWrite> {
    seq![
        registers::reg64_write(RegisterName::Rip, entry),
        registers::reg64_write(RegisterName::Rflags, 0x2),
        registers::reg64_write(RegisterName::Rsp, BOOT_STACK_POINTER),
        registers::reg64_write(RegisterName::Rbp, BOOT_STACK_POINTER),
        registers::reg64_write(RegisterName::Rsi, ZERO_PAGE_START),
        registers::reg64_write(RegisterName::Cr0, 0x8000_0001),
        registers::reg64_write(RegisterName::Cr3, PML4_START),
        registers::reg64_write(RegisterName::Cr4, 0x20),
        registers::reg64_write(RegisterName::Efer, 0x500),
        RegisterWrite { name: RegisterName::Cs, value: boot_segment(1) },
        RegisterWrite { name: RegisterName::Ds, value: boot_segment(2) },
        RegisterWrite { name: RegisterName::Es, value: boot_segment(2) },
        RegisterWrite { name: RegisterName::Fs, value: boot_segment(2) },
        RegisterWrite { name: RegisterName::Gs, value: boot_segment(2) },
        RegisterWrite { name: RegisterName::Ss, value: boot_segment(2) },
        RegisterWrite { name: RegisterName::Tr, value: boot_segment(3) },
        RegisterWrite {
            name: RegisterName::Gdtr,
            value: RegisterValue::Table(TableRegister { base: GDT_START, limit: 31 }),
        },
        RegisterWrite {
            name: RegisterName::Idtr,
            value: RegisterValue::Table(TableRegister { base: IDT_START, limit: 7 }),
        },
    ]
}

/// Memory backs every one of the writes.
pub open spec fn all_backed(bytes: Map<u64, u8>, writes: Seq<(u64, u64)>) -> bool {
    forall|j: int| 0 <= j < writes.len() ==> guest_memory::backed(bytes, (#[trigger] writes[j]).0)
}

/// The writes stopped at number `n`, the first that memory does not back.
pub open spec fn stopped_at(
    before: Map<u64, u8>,
    after: Map<u64, u8>,
    writes: Seq<(u64, u64)>,
    n: int,
) -> bool {
    &&& 0 <= n < writes.len()
    &&& !guest_memory::backed(before, writes[n].0)
    &&& all_backed(before, writes.take(n))
    &&& after == guest_memory::stored_all(before, writes.take(n + 1))
}

/// The boot descriptor table.
fn boot_gdt_entries() -> (gdt: [u64; 4])
    ensures
        forall|i: int| 0 <= i < 4 ==> #[trigger] gdt@[i] == boot_gdt(i),
{
    [
        0,
        segments::gdt_entry(0xa09b, 0, 0xfffff),
        segments::gdt_entry(0xc093, 0, 0xfffff),
        segments::gdt_entry(0x808b, 0, 0xfffff),
    ]
}

/// All writes of the boot tables, as pairs of an address and a value.
pub fn boot_tables() -> (writes: Vec<(u64, u64)>)
    ensures
        writes@ == boot_writes(),
{
    let mut writes: Vec<(u64, u64)> = Vec::new();
    proof {
        assert(0xA000u64 | 0x03u64 == 0xA003u64) by (bit_vector);
        assert(0xB000u64 | 0x03u64 == 0xB003u64) by (bit_vector);
    }
    writes.push((PML4_START, PDPTE_START | 0x03u64));
    writes.push((PDPTE_START, PDE_START | 0x03u64));
    let mut i: u64 = 0;
    while i < 512
        invariant
            i <= 512,
            writes@.len() == i + 2,
            forall|k: int| 0 <= k < writes@.len() ==> #[trigger] writes@[k] == boot_write(k),
        decreases 512 - i,
    {
        proof {
            assert((i << 21) | 0x83 == i * 0x20_0000 + 0x83) by (bit_vector)
                requires
                    i < 512,
            ;
        }
        writes.push((PDE_START + i * 8, (i << 21) | 0x83));
        i = i + 1;
    }
    let gdt: [u64; 4] = boot_gdt_entries();
    let mut n: usize = 0;
    while n < 4
        invariant
            n <= 4,
            forall|k: int| 0 <= k < 4 ==> #[trigger] gdt@[k] == boot_gdt(k),
            writes@.len() == n + 514,
            forall|k: int| 0 <= k < writes@.len() ==> #[trigger] writes@[k] == boot_write(k),
        decreases 4 - n,
    {
        writes.push((GDT_START + (n as u64) * 8, gdt[n]));
        n = n + 1;
    }
    writes.push((IDT_START, 0u64));
    assert(writes@ =~= boot_writes());
    writes
}

/// Performs the writes in order and stops at the first that memory does not
/// back.
pub fn store_list(guest_mem: &mut GuestMemoryMmap<()>, writes: &Vec<(u64, u64)>) -> (r: Result<
    (),
    GuestMemoryError,
>)
    ensures
        r is Ok <==> all_backed(guest_memory::guest_bytes(*old(guest_mem)), writes@),
        r is Ok ==> guest_memory::guest_bytes(*final(guest_mem)) == guest_memory::stored_all(
            guest_memory::guest_bytes(*old(guest_mem)),
            writes@,
        ),
        r matches Err(e) ==> exists|n: int| #[trigger]
            stopped_at(
                guest_memory::guest_bytes(*old(guest_mem)),
                guest_memory::guest_bytes(*final(guest_mem)),
                writes@,
                n,
            ) && e == guest_memory::write_failure(
                guest_memory::guest_bytes(*old(guest_mem)).dom(),
                writes@[n].0,
            ),
{
    let ghost before = guest_memory::guest_bytes(*guest_mem);
    let mut i: usize = 0;
    while i < writes.len()
        invariant
            i <= writes@.len(),
            all_backed(before, writes@.take(i as int)),
            guest_memory::guest_bytes(*guest_mem) == guest_memory::stored_all(
                before,
                writes@.take(i as int),
            ),
            before == guest_memory::guest_bytes(*old(guest_mem)),
        decreases writes@.len() - i,
    {
        let (addr, value) = writes[i];
        let ghost now = guest_memory::guest_bytes(*guest_mem);
        proof {
            let next = writes@.take(i + 1);
            assert(next.drop_last() =~= writes@.take(i as int));
            assert(next.last() == writes@[i as int]);
            guest_memory::stores_keep_layout(before, writes@.take(i as int));
            assert(now.dom() == before.dom());
            assert forall|a: u64| now.contains_key(a) <==> before.contains_key(a) by {
                assert(now.dom().contains(a) == before.dom().contains(a));
            }
            if guest_memory::backed(before, addr) {
                assert forall|a: u64| addr <= a < addr + 8 implies now.contains_key(a) by {
                    assert(before.contains_key(a));
                }
            }
            if guest_memory::backed(now, addr) {
                assert forall|a: u64| addr <= a < addr + 8 implies before.contains_key(a) by {
                    assert(now.contains_key(a));
                }
            }
            assert(guest_memory::backed(now, addr) == guest_memory::backed(before, addr));
        }
        let outcome: Result<(), GuestMemoryError> = guest_memory::write_obj(guest_mem, value, addr);
        if outcome.is_err() {
            proof {
                let after = guest_memory::guest_bytes(*guest_mem);
                assert(stopped_at(before, after, writes@, i as int));
                assert(!guest_memory::backed(before, writes@[i as int].0));
            }
            return outcome;
        }
        proof {
            assert forall|j: int| 0 <= j < writes@.take(i + 1).len() implies guest_memory::backed(
                before,
                (#[trigger] writes@.take(i + 1)[j]).0,
            ) by {
                if j < i {
                    assert(writes@.take(i + 1)[j] == writes@.take(i as int)[j]);
                }
            }
        }
        i = i + 1;
    }
    proof {
        assert(writes@.take(i as int) =~= writes@);
    }
    Ok(())
}

/// The segment register for a descriptor that stands at `selector`.
fn segment(entry: u64, selector: u16) -> (value: RegisterValue)
    ensures
        value == RegisterValue::Segment(
            SegmentRegister {
                base: segments::descriptor_base(entry) as u64,
                limit: segments::descriptor_limit(entry) as u32,
                selector,
                attributes: segments::descriptor_attributes(entry) as u16,
            },
        ),
{
    RegisterValue::Segment(
        SegmentRegister {
            base: segments::seg_base(entry),
            limit: segments::seg_limit(entry),
            selector,
            attributes: segments::seg_attributes(entry),
        },
    )
}

/// The registers with which a processor enters a kernel at `entry`.
pub fn boot_register_list(entry: u64) -> (list: Vec<RegisterWrite>)
    ensures
        list@ == boot_registers(entry),
{
    let gdt: [u64; 4] = boot_gdt_entries();
    let code: RegisterValue = segment(gdt[1], 8);
    let data: RegisterValue = segment(gdt[2], 16);
    let task: RegisterValue = segment(gdt[3], 24);
    let list: Vec<RegisterWrite> = vec![
        registers::reg64(RegisterName::Rip, entry),
        registers::reg64(RegisterName::Rflags, 0x2),
        registers::reg64(RegisterName::Rsp, BOOT_STACK_POINTER),
        registers::reg64(RegisterName::Rbp, BOOT_STACK_POINTER),
        registers::reg64(RegisterName::Rsi, ZERO_PAGE_START),
        registers::reg64(RegisterName::Cr0, 0x8000_0001),
        registers::reg64(RegisterName::Cr3, PML4_START),
        registers::reg64(RegisterName::Cr4, 0x20),
        registers::reg64(RegisterName::Efer, 0x500),
        RegisterWrite { name: RegisterName::Cs, value: code },
        RegisterWrite { name: RegisterName::Ds, value: data },
        RegisterWrite { name: RegisterName::Es, value: data },
        RegisterWrite { name: RegisterName::Fs, value: data },
        RegisterWrite { name: RegisterName::Gs, value: data },
        RegisterWrite { name: RegisterName::Ss, value: data },
        RegisterWrite { name: RegisterName::Tr, value: task },
        RegisterWrite {
            name: RegisterName::Gdtr,
            value: RegisterValue::Table(TableRegister { base: GDT_START, limit: 31 }),
        },
        RegisterWrite {
            name: RegisterName::Idtr,
            value: RegisterValue::Table(TableRegister { base: IDT_START, limit: 7 }),
        },
    ];
    assert(list@ =~= boot_registers(entry));
    list
}

/// A page table entry is present.
pub open spec fn present(entry: int) -> bool {
    entry % 2 == 1
}

/// A page directory entry maps a large page.
pub open spec fn large(entry: int) -> bool {
    entry / 0x80 % 2 == 1
}

/// The table that an entry of a higher level points to.
pub open spec fn table_of(entry: int) -> int {
    entry / 0x1000 % 0x100_0000_0000 * 0x1000
}

/// The physical address of `va` under the page tables at `root` that map
/// large pages of 2 MiB; `None` where they map none there.
pub open spec fn translated(bytes: Map<u64, u8>, root: u64, va: u64) -> Option<int> {
    let e4 = guest_memory::loaded(bytes, (root + va as int / 0x80_0000_0000 % 512 * 8) as u64);
    let e3 = guest_memory::loaded(bytes, (table_of(e4) + va as int / 0x4000_0000 % 512 * 8) as u64);
    let e2 = guest_memory::loaded(bytes, (table_of(e3) + va as int / 0x20_0000 % 512 * 8) as u64);
    if present(e4) && present(e3) && !large(e3) && present(e2) && large(e2) {
        Some(e2 / 0x20_0000 % 0x8000_0000 * 0x20_0000 + va as int % 0x20_0000)
    } else {
        None
    }
}

/// The boot tables do not overlap each other.
pub proof fn boot_tables_are_disjoint()
    ensures
        guest_memory::disjoint(boot_writes()),
{
    let writes = boot_writes();
    assert forall|i: int, j: int| 0 <= i < j < writes.len() implies #[trigger] writes[i].0 + 8
        <= #[trigger] writes[j].0 || writes[j].0 + 8 <= writes[i].0 by {
        assert(writes[i] == boot_write(i));
        assert(writes[j] == boot_write(j));
    }
}

/// With the boot tables in memory and the boot page table register, the first
/// gibibyte is mapped to itself.
pub proof fn first_gibibyte_is_identity_mapped(bytes: Map<u64, u8>, va: u64)
    requires
        all_backed(bytes, boot_writes()),
        va < 0x4000_0000,
    ensures
        translated(guest_memory::stored_all(bytes, boot_writes()), PML4_START, va) == Some(
            va as int,
        ),
{
    let writes = boot_writes();
    let i = va as int / 0x20_0000;
    boot_tables_are_disjoint();
    guest_memory::loads_after_stores(bytes, writes, 0);
    guest_memory::loads_after_stores(bytes, writes, 1);
    guest_memory::loads_after_stores(bytes, writes, i + 2);
    assert(writes[0] == boot_write(0));
    assert(writes[1] == boot_write(1));
    assert(writes[i + 2] == boot_write(i + 2));
    let e2 = i * 0x20_0000 + 0x83;
    assert(e2 / 0x20_0000 == i);
    assert(e2 % 2 == 1);
    assert(e2 / 0x80 == i * 0x4000 + 1);
    assert(va as int / 0x80_0000_0000 == 0);
    assert(va as int / 0x4000_0000 == 0);
    assert(table_of(0xA003) == 0xA000);
    assert(table_of(0xB003) == 0xB000);
}

/// With the boot tables in memory, the descriptor that each segment register
/// selects is the one from which the register's hidden part was made.
pub proof fn segments_match_descriptors(bytes: Map<u64, u8>, entry: u64, r: int)
    requires
        all_backed(bytes, boot_writes()),
        9 <= r < 16,
    ensures
        boot_registers(entry)[r].value matches RegisterValue::Segment(seg) && ({
            let d = guest_memory::loaded(
                guest_memory::stored_all(bytes, boot_writes()),
                (GDT_START + seg.selector) as u64,
            ) as u64;
            &&& seg.selector % 8 == 0 && seg.selector + 7 <= 31
            &&& seg.base == segments::descriptor_base(d)
            &&& seg.limit == segments::descriptor_limit(d)
            &&& seg.attributes == segments::descriptor_attributes(d)
        }),
{
    let writes = boot_writes();
    boot_tables_are_disjoint();
    let i = if r == 9 {
        1int
    } else if r < 15 {
        2
    } else {
        3
    };
    guest_memory::loads_after_stores(bytes, writes, 514 + i);
    assert(writes[514 + i] == boot_write(514 + i));
}

/// The list writes the register exactly once, with the given value.
pub open spec fn sets_once(
    list: Seq<RegisterWrite>,
    name: RegisterName,
    value: RegisterValue,
) -> bool {
    exists|i: int| #[trigger] is_only_write(list, i, name, value)
}

/// The write at a place of the list gives the register its value, and no other
/// one writes it.
pub open spec fn is_only_write(
    list: Seq<RegisterWrite>,
    i: int,
    name: RegisterName,
    value: RegisterValue,
) -> bool {
    &&& 0 <= i < list.len()
    &&& list[i].name == name && list[i].value == value
    &&& forall|j: int| 0 <= j < list.len() && (#[trigger] list[j]).name == name ==> j == i
}

/// The processor enters the kernel at its entry address, whatever that is,
/// with the stack, the boot parameters and the page tables where they were
/// put. Protection and paging (bits 0 and 31), physical address extension (bit
/// 5) and long mode (bits 8 and 10) are on, and nothing else is. The
/// descriptor tables are those in memory.
pub proof fn kernel_is_entered_at_its_address(entry: u64, list: Vec<RegisterWrite>)
    requires
        call_ensures(boot_register_list, (entry,), list),
    ensures
        list@.len() == 18,
        sets_once(list@, RegisterName::Rip, RegisterValue::Reg64(entry)),
        sets_once(list@, RegisterName::Rflags, RegisterValue::Reg64(2)),
        sets_once(list@, RegisterName::Rsp, RegisterValue::Reg64(0x8ff0)),
        sets_once(list@, RegisterName::Rbp, RegisterValue::Reg64(0x8ff0)),
        sets_once(list@, RegisterName::Rsi, RegisterValue::Reg64(0x7000)),
        sets_once(list@, RegisterName::Cr0, RegisterValue::Reg64((1u64 << 31) | 1)),
        sets_once(list@, RegisterName::Cr3, RegisterValue::Reg64(0x9000)),
        sets_once(list@, RegisterName::Cr4, RegisterValue::Reg64(1u64 << 5)),
        sets_once(list@, RegisterName::Efer, RegisterValue::Reg64((1u64 << 8) | (1u64 << 10))),
        sets_once(
            list@,
            RegisterName::Gdtr,
            RegisterValue::Table(TableRegister { base: 0x500, limit: 31 }),
        ),
        sets_once(
            list@,
            RegisterName::Idtr,
            RegisterValue::Table(TableRegister { base: 0x520, limit: 7 }),
        ),
{
    assert((1u64 << 31) | 1 == 0x8000_0001u64 && 1u64 << 5 == 0x20u64 && (1u64 << 8) | (1u64 << 10)
        == 0x500u64) by (bit_vector);
    let l = list@;
    assert(is_only_write(l, 0, RegisterName::Rip, RegisterValue::Reg64(entry)));
    assert(is_only_write(l, 1, RegisterName::Rflags, RegisterValue::Reg64(2)));
    assert(is_only_write(l, 2, RegisterName::Rsp, RegisterValue::Reg64(0x8ff0)));
    assert(is_only_write(l, 3, RegisterName::Rbp, RegisterValue::Reg64(0x8ff0)));
    assert(is_only_write(l, 4, RegisterName::Rsi, RegisterValue::Reg64(0x7000)));
    assert(is_only_write(l, 5, RegisterName::Cr0, RegisterValue::Reg64(0x8000_0001)));
    assert(is_only_write(l, 6, RegisterName::Cr3, RegisterValue::Reg64(0x9000)));
    assert(is_only_write(l, 7, RegisterName::Cr4, RegisterValue::Reg64(0x20)));
    assert(is_only_write(l, 8, RegisterName::Efer, RegisterValue::Reg64(0x500)));
    assert(is_only_write(
        l,
        16,
        RegisterName::Gdtr,
        RegisterValue::Table(TableRegister { base: 0x500, limit: 31 }),
    ));
    assert(is_only_write(
        l,
        17,
        RegisterName::Idtr,
        RegisterValue::Table(TableRegister { base: 0x520, limit: 7 }),
    ));
}

/// A flat segment: it begins at zero and spans 2^20 units.
pub open spec fn flat_segment(selector: u16, attributes: u16) -> RegisterValue {
    RegisterValue::Segment(SegmentRegister { base: 0, limit: 0xf_ffff, selector, attributes })
}

/// The processor has flat segments: present code that is 64-bit and counted in
/// pages (selector 8), writable data (16) in every data segment register, and
/// a busy task state (24).
pub proof fn kernel_has_flat_segments(entry: u64, list: Vec<RegisterWrite>)
    requires
        call_ensures(boot_register_list, (entry,), list),
    ensures
        sets_once(list@, RegisterName::Cs, flat_segment(8, 0xa09b)),
        sets_once(list@, RegisterName::Ds, flat_segment(16, 0xc093)),
        sets_once(list@, RegisterName::Es, flat_segment(16, 0xc093)),
        sets_once(list@, RegisterName::Fs, flat_segment(16, 0xc093)),
        sets_once(list@, RegisterName::Gs, flat_segment(16, 0xc093)),
        sets_once(list@, RegisterName::Ss, flat_segment(16, 0xc093)),
        sets_once(list@, RegisterName::Tr, flat_segment(24, 0x808b)),
{
    lemma_boot_descriptors();
    let l = list@;
    assert(is_only_write(l, 9, RegisterName::Cs, flat_segment(8, 0xa09b)));
    assert(is_only_write(l, 10, RegisterName::Ds, flat_segment(16, 0xc093)));
    assert(is_only_write(l, 11, RegisterName::Es, flat_segment(16, 0xc093)));
    assert(is_only_write(l, 12, RegisterName::Fs, flat_segment(16, 0xc093)));
    assert(is_only_write(l, 13, RegisterName::Gs, flat_segment(16, 0xc093)));
    assert(is_only_write(l, 14, RegisterName::Ss, flat_segment(16, 0xc093)));
    assert(is_only_write(l, 15, RegisterName::Tr, flat_segment(24, 0x808b)));
}

proof fn lemma_boot_descriptors()
    ensures
        boot_gdt(0) == 0,
        boot_gdt(1) == 0x00af_9b00_0000_ffff,
        boot_gdt(2) == 0x00cf_9300_0000_ffff,
        boot_gdt(3) == 0x008f_8b00_0000_ffff,
{
}

/// The boot tables are four: a top level and a middle level with one entry
/// each, which point to the next table and are present and writable; a page
/// directory whose entry `k` maps the large page at `k` times 2 MiB, present
/// and writable; four descriptors and an empty interrupt entry. Nothing else
/// is written.
pub proof fn boot_tables_hold_the_mapping(writes: Vec<(u64, u64)>, k: int)
    requires
        call_ensures(boot_tables, (), writes),
        0 <= k < 512,
    ensures
        writes@.len() == 2 + 512 + 4 + 1,
        writes@[0] == (0x9000u64, 0xA003u64),
        writes@[1] == (0xA000u64, 0xB003u64),
        writes@[2 + k].0 == 0xB000 + 8 * k,
        writes@[2 + k].1 - 0x83 == k * 2 * 1024 * 1024,
        writes@[514] == (0x500u64, 0u64),
        writes@[515] == (0x508u64, 0x00af_9b00_0000_ffffu64),
        writes@[516] == (0x510u64, 0x00cf_9300_0000_ffffu64),
        writes@[517] == (0x518u64, 0x008f_8b00_0000_ffffu64),
        writes@[518] == (0x520u64, 0u64),
{
    lemma_boot_descriptors();
    assert(writes@[2 + k] == boot_write(2 + k));
    assert(writes@[514] == boot_write(514));
    assert(writes@[515] == boot_write(515));
    assert(writes@[516] == boot_write(516));
    assert(writes@[517] == boot_write(517));
    assert(writes@[518] == boot_write(518));
}

/// The address is in one of the boot tables.
pub open spec fn in_boot_tables(a: u64) -> bool {
    ||| 0x500 <= a < 0x528
    ||| 0x9000 <= a < 0x9008
    ||| 0xA000 <= a < 0xA008
    ||| 0xB000 <= a < 0xC000
}

proof fn lemma_stores_elsewhere(bytes: Map<u64, u8>, writes: Seq<(u64, u64)>, a: u64)
    requires
        forall|i: int|
            0 <= i < writes.len() ==> !((#[trigger] writes[i]).0 <= a < writes[i].0 + 8),
        bytes.contains_key(a),
    ensures
        guest_memory::stored_all(bytes, writes).contains_key(a),
        guest_memory::stored_all(bytes, writes)[a] == bytes[a],
    decreases writes.len(),
{
    if writes.len() > 0 {
        let shorter = writes.drop_last();
        assert forall|i: int| 0 <= i < shorter.len() implies !((#[trigger] shorter[i]).0 <= a
            < shorter[i].0 + 8) by {
            assert(shorter[i] == writes[i]);
        }
        lemma_stores_elsewhere(bytes, shorter, a);
        assert(!(writes[writes.len() - 1].0 <= a < writes[writes.len() - 1].0 + 8));
    }
}

/// Memory outside the boot tables stays as it is.
pub proof fn boot_tables_touch_nothing_else(bytes: Map<u64, u8>, a: u64)
    requires
        bytes.contains_key(a),
        !in_boot_tables(a),
    ensures
        guest_memory::stored_all(bytes, boot_writes())[a] == bytes[a],
{
    let writes = boot_writes();
    assert forall|i: int| 0 <= i < writes.len() implies !((#[trigger] writes[i]).0 <= a
        < writes[i].0 + 8) by {
        assert(writes[i] == boot_write(i));
    }
    lemma_stores_elsewhere(bytes, writes, a);
}

/// Writes to different places are all in memory afterwards, if memory backs
/// them, and otherwise there is an error.
pub proof fn stored_lists_are_read_back(
    guest_mem: &mut GuestMemoryMmap<()>,
    writes: Vec<(u64, u64)>,
    r: Result<(), GuestMemoryError>,
    i: int,
)
    requires
        call_ensures(store_list, (guest_mem, &writes), r),
        guest_memory::disjoint(writes@),
        0 <= i < writes@.len(),
    ensures
        r is Ok ==> guest_memory::loaded(
            guest_memory::guest_bytes(*final(guest_mem)),
            writes@[i].0,
        ) == writes@[i].1,
        r is Ok ==> guest_memory::backed(
            guest_memory::guest_bytes(*old(guest_mem)),
            writes@[i].0,
        ),
        !guest_memory::backed(guest_memory::guest_bytes(*old(guest_mem)), writes@[i].0) ==> r
            is Err,
{
    if r is Ok {
        guest_memory::loads_after_stores(
            guest_memory::guest_bytes(*old(guest_mem)),
            writes@,
            i,
        );
    }
}

/// Writes that stopped at the first that memory does not back touched nothing
/// but the boot tables.
pub proof fn stopped_tables_touch_nothing_else(
    before: Map<u64, u8>,
    after: Map<u64, u8>,
    n: int,
    a: u64,
)
    requires
        stopped_at(before, after, boot_writes(), n),
        before.contains_key(a),
        !in_boot_tables(a),
    ensures
        after[a] == before[a],
        in_boot_tables(boot_writes()[n].0),
        !guest_memory::backed(before, boot_writes()[n].0),
{
    let writes = boot_writes().take(n + 1);
    assert forall|i: int| 0 <= i < writes.len() implies !((#[trigger] writes[i]).0 <= a
        < writes[i].0 + 8) by {
        assert(writes[i] == boot_write(i));
    }
    lemma_stores_elsewhere(before, writes, a);
    assert(boot_writes()[n] == boot_write(n));
}

} // verus!
