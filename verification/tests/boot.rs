use krun_whpx::vmm::boot::{boot_register_list, boot_tables};
use krun_whpx::vmm::error::Error;
use krun_whpx::vmm::registers::{RegisterName, RegisterValue, SegmentRegister, TableRegister};
use krun_whpx::vmm::segments::{gdt_entry, seg_attributes, seg_base, seg_limit};
use krun_whpx::vmm::vcpu::{CpuFeaturesTemplate, CreateProgress, Vcpu, VcpuConfig};
use vm_memory::{Bytes, GuestAddress, GuestMemoryMmap};

fn memory(regions: &[(u64, usize)]) -> GuestMemoryMmap<()> {
    let ranges: Vec<(GuestAddress, usize)> =
        regions.iter().map(|(a, l)| (GuestAddress(*a), *l)).collect();
    GuestMemoryMmap::from_ranges(&ranges).unwrap()
}

fn processor() -> Vcpu<u8> {
    match Vcpu::<u8>::new_x86_64(3).advance::<u8>(0) {
        CreateProgress::Continue(c) => match c.advance(0) {
            CreateProgress::Ready(v) => v,
            _ => panic!("the emulator comes last"),
        },
        _ => panic!("the processor comes first"),
    }
}

fn config() -> VcpuConfig {
    VcpuConfig { vcpu_count: 1, ht_enabled: false, cpu_template: Some(CpuFeaturesTemplate::T2) }
}

fn load(mem: &GuestMemoryMmap<()>, addr: u64) -> u64 {
    mem.read_obj(GuestAddress(addr)).unwrap()
}

#[test]
fn descriptors_are_encoded_bit_by_bit() {
    assert_eq!(gdt_entry(0xa09b, 0, 0xfffff), 0x00af_9b00_0000_ffff);
    assert_eq!(gdt_entry(0xc093, 0, 0xfffff), 0x00cf_9300_0000_ffff);
    assert_eq!(gdt_entry(0x808b, 0, 0xfffff), 0x008f_8b00_0000_ffff);
    assert_eq!(gdt_entry(0, 0, 0), 0);
    assert_eq!(gdt_entry(0xffff, 0x1234_5678, 0xdead_beef), 0x12fd_ff34_5678_beef);
}

#[test]
fn decoding_gives_back_what_was_encoded() {
    let e = gdt_entry(0xc093, 0x8765_4321, 0x9_8765);
    assert_eq!(seg_base(e), 0x8765_4321);
    assert_eq!(seg_limit(e), 0x9_8765);
    assert_eq!(seg_attributes(e), 0xc093);
    assert_eq!(seg_attributes(gdt_entry(0xffff, 0, 0)), 0xf0ff);
}

#[test]
fn boot_tables_have_their_places() {
    let t = boot_tables();
    assert_eq!(t.len(), 519);
    assert_eq!(t[0], (0x9000, 0xA003));
    assert_eq!(t[1], (0xA000, 0xB003));
    assert_eq!(t[2], (0xB000, 0x83));
    assert_eq!(t[3], (0xB008, 0x20_0083));
    assert_eq!(t[513], (0xBFF8, 511 * 0x20_0000 + 0x83));
    assert_eq!(t[514], (0x500, 0));
    assert_eq!(t[515], (0x508, 0x00af_9b00_0000_ffff));
    assert_eq!(t[516], (0x510, 0x00cf_9300_0000_ffff));
    assert_eq!(t[517], (0x518, 0x008f_8b00_0000_ffff));
    assert_eq!(t[518], (0x520, 0));
}

#[test]
fn kernel_boot_fills_memory_and_registers() {
    let mut mem = memory(&[(0, 0x2_0000)]);
    mem.write_obj(u64::MAX, GuestAddress(0x520)).unwrap();
    mem.write_obj(0x5555u64, GuestAddress(0xC000)).unwrap();
    let list = processor()
        .configure_x86_64(&mut mem, 0x10_0000, &config(), true)
        .unwrap()
        .unwrap();
    assert_eq!(list, boot_register_list(0x10_0000));
    for (addr, value) in boot_tables() {
        assert_eq!(load(&mem, addr), value);
    }
    assert_eq!(load(&mem, 0xC000), 0x5555);
}

#[test]
fn first_gibibyte_maps_to_itself() {
    let mut mem = memory(&[(0, 0x2_0000)]);
    processor().configure_x86_64(&mut mem, 0, &config(), true).unwrap();
    for va in [0u64, 0x1234, 0x1F_FFFF, 0x20_0000, 0x3FFF_FFFF] {
        let e4 = load(&mem, 0x9000 + (va >> 39) % 512 * 8);
        let e3 = load(&mem, (e4 & !0xFFF) + (va >> 30) % 512 * 8);
        let e2 = load(&mem, (e3 & !0xFFF) + (va >> 21) % 512 * 8);
        assert_eq!(e4 & e3 & e2 & 3, 3);
        assert_eq!(e2 & 0x80, 0x80);
        assert_eq!((e2 & !0x1F_FFFF) + va % 0x20_0000, va);
    }
}

#[test]
fn boot_registers_enter_long_mode() {
    let list = boot_register_list(0x123_4000);
    assert_eq!(list.len(), 18);
    let get = |name: RegisterName| list.iter().find(|w| w.name == name).unwrap().value;
    assert_eq!(get(RegisterName::Rip), RegisterValue::Reg64(0x123_4000));
    assert_eq!(get(RegisterName::Rflags), RegisterValue::Reg64(2));
    assert_eq!(get(RegisterName::Rsp), RegisterValue::Reg64(0x8ff0));
    assert_eq!(get(RegisterName::Rbp), RegisterValue::Reg64(0x8ff0));
    assert_eq!(get(RegisterName::Rsi), RegisterValue::Reg64(0x7000));
    assert_eq!(get(RegisterName::Cr0), RegisterValue::Reg64(0x8000_0001));
    assert_eq!(get(RegisterName::Cr3), RegisterValue::Reg64(0x9000));
    assert_eq!(get(RegisterName::Cr4), RegisterValue::Reg64(0x20));
    assert_eq!(get(RegisterName::Efer), RegisterValue::Reg64(0x500));
    let seg = |selector: u16, attributes: u16| {
        RegisterValue::Segment(SegmentRegister { base: 0, limit: 0xf_ffff, selector, attributes })
    };
    assert_eq!(get(RegisterName::Cs), seg(8, 0xa09b));
    for name in [
        RegisterName::Ds,
        RegisterName::Es,
        RegisterName::Fs,
        RegisterName::Gs,
        RegisterName::Ss,
    ] {
        assert_eq!(get(name), seg(16, 0xc093));
    }
    assert_eq!(get(RegisterName::Tr), seg(24, 0x808b));
    assert_eq!(
        get(RegisterName::Gdtr),
        RegisterValue::Table(TableRegister { base: 0x500, limit: 31 })
    );
    assert_eq!(
        get(RegisterName::Idtr),
        RegisterValue::Table(TableRegister { base: 0x520, limit: 7 })
    );
}

#[test]
fn firmware_boot_touches_nothing() {
    let mut mem = memory(&[(0, 0x1000)]);
    let r = processor().configure_x86_64(&mut mem, 0x10_0000, &config(), false);
    assert!(matches!(r, Ok(None)));
    assert_eq!(load(&mem, 0x508), 0);
}

#[test]
fn boot_stops_where_memory_ends() {
    // The page directory is cut off within its first entry.
    let mut mem = memory(&[(0x500, 0xB004 - 0x500)]);
    let r = processor().configure_x86_64(&mut mem, 0x10_0000, &config(), true);
    match r {
        Err(Error::GuestMemoryMmap(e)) => {
            let text = Error::GuestMemoryMmap(e).to_string();
            // The error is that of the write that was cut off.
            let same = mem.write_obj(0x83u64, GuestAddress(0xB000)).unwrap_err();
            assert_eq!(text, format!("Guest memory error: {same:?}"));
        }
        _ => panic!("expected a memory error"),
    }
    assert_eq!(load(&mem, 0x9000), 0xA003);
    assert_eq!(load(&mem, 0xA000), 0xB003);
    assert_eq!(mem.read_obj::<u32>(GuestAddress(0xB000)).unwrap(), 0x83);
    // Nothing after the page directory is written.
    assert_eq!(load(&mem, 0x508), 0);
}

#[test]
fn writes_cross_regions() {
    let mut mem = memory(&[(0, 0x9004), (0x9004, 0x1_0000)]);
    processor().configure_x86_64(&mut mem, 0, &config(), true).unwrap();
    assert_eq!(load(&mem, 0x9000), 0xA003);
}
