use krun_whpx::utils::os_error::OsError;
use krun_whpx::vmm::error::{check_whpx, Error, S_OK};
use krun_whpx::vmm::hyperv_tlfs;
use krun_whpx::vmm::launch::{kernel_format, launch, KernelFormat, LOOP_TIMEOUT_MS};
use krun_whpx::vmm::mmio;
use krun_whpx::vmm::mmio::{
    CreateMmioTransportError, DeviceType, MMIODeviceManager, MmioDevice, MmioTransport,
};
use krun_whpx::vmm::registers::{register_read, registers_set, RegisterName, RegisterValue, RegisterWrite};
use krun_whpx::vmm::vcpu;
use krun_whpx::vmm::vcpu::{
    after_io, after_mmio, after_registers, handle_exit, handle_io_exit, handle_mmio_exit,
    init_thread_local_data, is_known_msr, reset_thread_local_data, run, run_emulation,
    translate_gva, BusAccess, CpuidAccess, CreateAction, CreateProgress, ExitContext, ExitStep,
    MsrAccess, Vcpu, VcpuAction, VcpuEmulation,
};
use krun_whpx::vmm::vm::{
    map_requests, mapping_reply, mapping_step, MapRequest, MappingStep, PartitionProperty,
    SetupAction, SetupProgress, UnmapRequest, Vm,
};
use krun_whpx::vmm::vsock;
use krun_whpx::vmm::vsock::{TsiFlags, VsockConfigError, VsockDeviceConfig, VsockError};
use krun_whpx::vmm::vsock_windows;
use std::collections::HashMap;
use vm_memory::{GuestAddress, GuestMemory, GuestMemoryMmap};
use windows_sys::Win32::System::Hypervisor as whv;

fn os(text: &str) -> OsError {
    OsError { code: Some(5), text: String::from(text) }
}

#[test]
fn errors_have_texts() {
    let hr: i32 = -2147024809; // 0x80070057
    let cases = vec![
        (Error::CreatePartition(hr), "Failed to create WHPX partition: HRESULT 0x80070057"),
        (Error::SetPartitionProperty(hr), "Failed to set partition property: HRESULT 0x80070057"),
        (Error::SetupPartition(hr), "Failed to setup partition: HRESULT 0x80070057"),
        (Error::MapGpaRange(hr), "Failed to map GPA range: HRESULT 0x80070057"),
        (Error::UnmapGpaRange(hr), "Failed to unmap GPA range: HRESULT 0x80070057"),
        (Error::CreateVirtualProcessor(hr), "Failed to create virtual processor: HRESULT 0x80070057"),
        (Error::DeleteVirtualProcessor(hr), "Failed to delete virtual processor: HRESULT 0x80070057"),
        (Error::RunVirtualProcessor(hr), "Failed to run virtual processor: HRESULT 0x80070057"),
        (Error::GetRegisters(hr), "Failed to get registers: HRESULT 0x80070057"),
        (Error::SetRegisters(1), "Failed to set registers: HRESULT 0x00000001"),
        (Error::TranslateGva(0x1ab), "Failed to translate GVA: HRESULT 0x000001AB"),
        (Error::CreateEmulator(-1), "Failed to create emulator: HRESULT 0xFFFFFFFF"),
        (Error::IoEmulation(hr), "IO emulation failed: HRESULT 0x80070057"),
        (Error::MmioEmulation(hr), "MMIO emulation failed: HRESULT 0x80070057"),
        (Error::VmSetup(hr), "Cannot configure the microvm: HRESULT 0x80070057"),
        (Error::NotEnoughMemorySlots, "Not enough memory slots"),
        (Error::VcpuRun, "Cannot run the VCPUs"),
        (Error::VcpuTlsInit, "Cannot clean init vcpu TLS"),
        (Error::VcpuTlsNotPresent, "Vcpu not present in TLS"),
        (Error::VcpuCountNotInitialized, "vCPU count is not initialized"),
        (Error::VcpuSpawn(os("no more")), "Cannot spawn a new vCPU thread: no more"),
        (Error::SignalVcpu(os("gone")), "Failed to signal Vcpu: gone"),
        (Error::VcpuUnhandledExit(4294967295), "Unexpected WHPX exit reason: 4294967295"),
    ];
    for (e, text) in cases {
        assert_eq!(e.to_string(), text);
    }
}

#[test]
fn result_codes() {
    assert_eq!(S_OK, 0);
    assert_eq!(check_whpx(0), Ok(()));
    assert_eq!(check_whpx(-5), Err(-5));
    assert!(registers_set(0).is_ok());
    assert!(matches!(registers_set(7), Err(Error::SetRegisters(7))));
    assert!(matches!(register_read(0, 9), Ok(9)));
    assert!(matches!(register_read(7, 9), Err(Error::GetRegisters(7))));
    assert!(mapping_reply(0));
    assert!(!mapping_reply(1));
    assert_eq!(translate_gva(0, 5), (0, Some(5)));
    assert_eq!(translate_gva(-2, 5), (-2, None));
}

#[test]
fn register_numbers_are_those_of_the_hypervisor() {
    let cases = vec![
        (RegisterName::Rax, whv::WHvX64RegisterRax),
        (RegisterName::Rbx, whv::WHvX64RegisterRbx),
        (RegisterName::Rcx, whv::WHvX64RegisterRcx),
        (RegisterName::Rdx, whv::WHvX64RegisterRdx),
        (RegisterName::Rsp, whv::WHvX64RegisterRsp),
        (RegisterName::Rbp, whv::WHvX64RegisterRbp),
        (RegisterName::Rsi, whv::WHvX64RegisterRsi),
        (RegisterName::Rip, whv::WHvX64RegisterRip),
        (RegisterName::Rflags, whv::WHvX64RegisterRflags),
        (RegisterName::Es, whv::WHvX64RegisterEs),
        (RegisterName::Cs, whv::WHvX64RegisterCs),
        (RegisterName::Ss, whv::WHvX64RegisterSs),
        (RegisterName::Ds, whv::WHvX64RegisterDs),
        (RegisterName::Fs, whv::WHvX64RegisterFs),
        (RegisterName::Gs, whv::WHvX64RegisterGs),
        (RegisterName::Tr, whv::WHvX64RegisterTr),
        (RegisterName::Idtr, whv::WHvX64RegisterIdtr),
        (RegisterName::Gdtr, whv::WHvX64RegisterGdtr),
        (RegisterName::Cr0, whv::WHvX64RegisterCr0),
        (RegisterName::Cr3, whv::WHvX64RegisterCr3),
        (RegisterName::Cr4, whv::WHvX64RegisterCr4),
        (RegisterName::Efer, whv::WHvX64RegisterEfer),
        (RegisterName::PendingInterruption, whv::WHvRegisterPendingInterruption),
    ];
    for (name, code) in cases {
        assert_eq!(name.code(), code);
    }
}

#[test]
fn exit_reasons_are_those_of_the_hypervisor() {
    assert_eq!(vcpu::EXIT_MEMORY_ACCESS, whv::WHvRunVpExitReasonMemoryAccess);
    assert_eq!(vcpu::EXIT_IO_PORT_ACCESS, whv::WHvRunVpExitReasonX64IoPortAccess);
    assert_eq!(vcpu::EXIT_UNRECOVERABLE_EXCEPTION, whv::WHvRunVpExitReasonUnrecoverableException);
    assert_eq!(vcpu::EXIT_INVALID_REGISTER_VALUE, whv::WHvRunVpExitReasonInvalidVpRegisterValue);
    assert_eq!(vcpu::EXIT_UNSUPPORTED_FEATURE, whv::WHvRunVpExitReasonUnsupportedFeature);
    assert_eq!(vcpu::EXIT_INTERRUPT_WINDOW, whv::WHvRunVpExitReasonX64InterruptWindow);
    assert_eq!(vcpu::EXIT_HALT, whv::WHvRunVpExitReasonX64Halt);
    assert_eq!(vcpu::EXIT_APIC_EOI, whv::WHvRunVpExitReasonX64ApicEoi);
    assert_eq!(vcpu::EXIT_MSR_ACCESS, whv::WHvRunVpExitReasonX64MsrAccess);
    assert_eq!(vcpu::EXIT_CPUID, whv::WHvRunVpExitReasonX64Cpuid);
    assert_eq!(vcpu::EXIT_CANCELED, whv::WHvRunVpExitReasonCanceled);
}

#[test]
fn partition_setup_makes_its_calls_in_order() {
    let mut setup = Vm::new(4);
    let mut step = 0;
    let vm = loop {
        match (step, setup.action()) {
            (0, SetupAction::CreatePartition) => {}
            (1, SetupAction::SetProperty(PartitionProperty::ProcessorCount(4))) => {}
            (2, SetupAction::SetProperty(PartitionProperty::CpuidResultList(l))) => {
                assert_eq!(l.len(), 2);
                assert_eq!(l[0].function, 0x4000_0000);
                assert_eq!(l[0].eax, hyperv_tlfs::HYPERV_CPUID_MIN);
                let mut name = l[0].ebx.to_le_bytes().to_vec();
                name.extend_from_slice(&l[0].ecx.to_le_bytes());
                name.extend_from_slice(&l[0].edx.to_le_bytes());
                assert_eq!(name, "Microsoft Hv".as_bytes());
                assert_eq!(l[1].function, 0x4000_0003);
                assert_eq!(
                    l[1].eax,
                    hyperv_tlfs::HV_ACCESS_FREQUENCY_MSRS
                        | hyperv_tlfs::HV_ACCESS_TSC_INVARIANT
                        | hyperv_tlfs::HV_MSR_REFERENCE_TSC_AVAILABLE
                );
                assert_eq!((l[1].ebx, l[1].ecx), (0, 0));
                assert_eq!(l[1].edx, hyperv_tlfs::HV_FEATURE_FREQUENCY_MSRS_AVAILABLE);
            }
            (3, SetupAction::SetProperty(PartitionProperty::CpuidExitList(l))) => {
                assert_eq!(l, vec![0x1, 0x4, 0xB, 0x1F, 0x15]);
            }
            (4, SetupAction::SetProperty(PartitionProperty::ExtendedVmExits(3))) => {}
            (5, SetupAction::SetProperty(PartitionProperty::LocalApicEmulationMode(1))) => {}
            (6, SetupAction::SetupPartition) => {}
            (n, a) => panic!("call {n} is {a:?}"),
        }
        match setup.advance(0, if step == 0 { 77 } else { -1 }) {
            SetupProgress::Continue(next) => setup = next,
            SetupProgress::Ready(vm) => break vm,
            SetupProgress::Failed { .. } => panic!("nothing failed"),
        }
        step += 1;
    };
    assert_eq!(step, 6);
    assert_eq!(vm.partition_handle(), 77);
}

#[test]
fn failed_setup_deletes_its_partition() {
    for fail_at in 0..7 {
        let mut setup = Vm::new(1);
        for _ in 0..fail_at {
            setup = match setup.advance(0, 77) {
                SetupProgress::Continue(next) => next,
                _ => panic!("nothing failed yet"),
            };
        }
        match setup.advance(-9, 0) {
            SetupProgress::Failed { error, delete } => {
                assert_eq!(delete, if fail_at == 0 { None } else { Some(77) });
                match error {
                    Error::CreatePartition(-9) => assert_eq!(fail_at, 0),
                    Error::SetPartitionProperty(-9) => assert!((1..6).contains(&fail_at)),
                    Error::SetupPartition(-9) => assert_eq!(fail_at, 6),
                    e => panic!("unexpected {e:?}"),
                }
            }
            _ => panic!("the call failed"),
        }
    }
}

fn ready_vm(handle: isize) -> Vm {
    let mut setup = Vm::new(1);
    loop {
        match setup.advance(0, handle) {
            SetupProgress::Continue(next) => setup = next,
            SetupProgress::Ready(vm) => return vm,
            SetupProgress::Failed { .. } => panic!("nothing failed"),
        }
    }
}

#[test]
fn guest_memory_is_mapped_region_by_region() {
    let mem: GuestMemoryMmap<()> = GuestMemoryMmap::from_ranges(&[
        (GuestAddress(0), 0x2000),
        (GuestAddress(0x10_0000), 0x1000),
    ])
    .unwrap();
    let requests = ready_vm(1).memory_init(&mem);
    let ranges: Vec<(u64, u64, i32)> =
        requests.iter().map(|r| (r.guest_addr, r.len, r.flags)).collect();
    assert_eq!(ranges, vec![(0, 0x2000, 7), (0x10_0000, 0x1000, 7)]);
    for r in &requests {
        let host = mem.get_host_address(GuestAddress(r.guest_addr)).unwrap() as u64;
        assert_eq!(r.host_addr, host);
    }
    assert_eq!(
        7,
        whv::WHvMapGpaRangeFlagRead | whv::WHvMapGpaRangeFlagWrite | whv::WHvMapGpaRangeFlagExecute
    );
}

#[test]
fn touching_regions_are_mapped_one_by_one() {
    let regions = vec![(0x7000, 0, 0x1000), (0x3000, 0x1000, 0x2000)];
    let requests = map_requests(&regions);
    assert_eq!(
        requests,
        vec![
            MapRequest { host_addr: 0x7000, guest_addr: 0, len: 0x1000, flags: 7 },
            MapRequest { host_addr: 0x3000, guest_addr: 0x1000, len: 0x2000, flags: 7 },
        ]
    );
    let mem: GuestMemoryMmap<()> =
        GuestMemoryMmap::from_ranges(&[(GuestAddress(0), 0x1000), (GuestAddress(0x1000), 0x2000)])
            .unwrap();
    assert_eq!(ready_vm(1).memory_init(&mem).len(), 2);
    // The requests are made in order, up to the first that fails.
    match mapping_step(&requests, 0, 0) {
        MappingStep::MapRange(r) => assert_eq!(r, requests[0]),
        s => panic!("unexpected {s:?}"),
    }
    match mapping_step(&requests, 1, 0) {
        MappingStep::MapRange(r) => assert_eq!(r, requests[1]),
        s => panic!("unexpected {s:?}"),
    }
    assert!(matches!(mapping_step(&requests, 2, 0), MappingStep::Done));
    assert!(matches!(
        mapping_step(&requests, 1, -3),
        MappingStep::Failed(Error::MapGpaRange(-3))
    ));
    assert!(matches!(
        mapping_step(&requests, 2, -3),
        MappingStep::Failed(Error::MapGpaRange(-3))
    ));
}

#[test]
fn mappings_are_replaced_and_removed() {
    let vm = ready_vm(1);
    assert_eq!(
        vm.add_mapping(0x7000, 0x1000, 0x2000),
        (
            UnmapRequest { guest_addr: 0x1000, len: 0x2000 },
            MapRequest { host_addr: 0x7000, guest_addr: 0x1000, len: 0x2000, flags: 7 }
        )
    );
    assert_eq!(vm.remove_mapping(5, 6), UnmapRequest { guest_addr: 5, len: 6 });
}

fn context(reason: i32) -> ExitContext {
    ExitContext {
        exit_reason: reason,
        rip: 0x1000,
        cpuid: CpuidAccess {
            default_result_rax: 1,
            default_result_rbx: 2,
            default_result_rcx: 3,
            default_result_rdx: 4,
        },
        msr: MsrAccess { msr_number: 0x4000_0022, access_info: 0 },
    }
}

fn reg(name: RegisterName, value: u64) -> RegisterWrite {
    RegisterWrite { name, value: RegisterValue::Reg64(value) }
}

#[test]
fn cpuid_exits_give_the_default_answers() {
    match run_emulation(0, &context(vcpu::EXIT_CPUID)) {
        VcpuAction::SetRegisters { now, then } => {
            assert_eq!(
                now,
                vec![
                    reg(RegisterName::Rax, 1),
                    reg(RegisterName::Rbx, 2),
                    reg(RegisterName::Rcx, 3),
                    reg(RegisterName::Rdx, 4),
                    reg(RegisterName::Rip, 0x1002),
                ]
            );
            assert!(matches!(after_registers(0, then), VcpuAction::Run));
        }
        a => panic!("unexpected {a:?}"),
    }
}

#[test]
fn synthetic_registers_read_zero_and_take_writes() {
    for msr in [
        hyperv_tlfs::HV_X64_MSR_TSC_FREQUENCY,
        hyperv_tlfs::HV_X64_MSR_APIC_FREQUENCY,
        hyperv_tlfs::HV_X64_MSR_TSC_INVARIANT_CONTROL,
    ] {
        assert!(is_known_msr(msr));
        let mut ctx = context(vcpu::EXIT_MSR_ACCESS);
        ctx.msr.msr_number = msr;
        ctx.msr.access_info = 2;
        let mut batches = Vec::new();
        let mut action = run_emulation(0, &ctx);
        while let VcpuAction::SetRegisters { now, then } = action {
            batches.push(now);
            action = after_registers(0, then);
        }
        assert!(matches!(action, VcpuAction::Run));
        assert_eq!(
            batches,
            vec![
                vec![reg(RegisterName::Rax, 0)],
                vec![reg(RegisterName::Rdx, 0)],
                vec![reg(RegisterName::Rip, 0x1002)],
            ]
        );
        ctx.msr.access_info = 3;
        match run_emulation(0, &ctx) {
            VcpuAction::SetRegisters { now, then } => {
                assert_eq!(now, vec![reg(RegisterName::Rip, 0x1002)]);
                assert!(then.is_empty());
            }
            a => panic!("unexpected {a:?}"),
        }
    }
}

#[test]
fn other_model_specific_registers_fault() {
    for access_info in [0, 1] {
        let mut ctx = context(vcpu::EXIT_MSR_ACCESS);
        ctx.msr = MsrAccess { msr_number: 0x10, access_info };
        assert!(!is_known_msr(0x10));
        ctx.rip = u64::MAX;
        match run_emulation(0, &ctx) {
            VcpuAction::SetRegisters { now, then } => {
                // Vector 13, pending, an exception, with error code.
                assert_eq!(now, vec![reg(RegisterName::PendingInterruption, 0xD_0017)]);
                assert!(then.is_empty());
            }
            a => panic!("unexpected {a:?}"),
        }
    }
}

#[test]
fn exits_are_sorted_out() {
    let step = |reason: i32| handle_exit(&context(reason));
    assert!(matches!(step(vcpu::EXIT_MEMORY_ACCESS), Ok(ExitStep::EmulateMmio)));
    assert!(matches!(step(vcpu::EXIT_IO_PORT_ACCESS), Ok(ExitStep::EmulateIo)));
    for reason in [vcpu::EXIT_HALT, vcpu::EXIT_CANCELED] {
        assert!(matches!(step(reason), Ok(ExitStep::Done(VcpuEmulation::Stopped))));
        assert!(matches!(
            run_emulation(0, &context(reason)),
            VcpuAction::Exit { code: 0, error: None }
        ));
    }
    for reason in [vcpu::EXIT_APIC_EOI, vcpu::EXIT_INTERRUPT_WINDOW] {
        assert!(matches!(step(reason), Ok(ExitStep::Done(VcpuEmulation::Handled))));
        assert!(matches!(run_emulation(0, &context(reason)), VcpuAction::Run));
    }
    for reason in [4, 5, 6, 0, 3, 12345] {
        match run_emulation(0, &context(reason)) {
            VcpuAction::Exit { code: 1, error: Some(Error::VcpuUnhandledExit(n)) } => {
                assert_eq!(n, reason as u32)
            }
            a => panic!("unexpected {a:?}"),
        }
    }
    assert!(matches!(step(-1), Err(Error::VcpuUnhandledExit(0xFFFF_FFFF))));
    assert!(matches!(run_emulation(0, &context(1)), VcpuAction::EmulateMmio));
    assert!(matches!(run_emulation(0, &context(2)), VcpuAction::EmulateIo));
}

#[test]
fn failed_calls_end_the_processor() {
    assert!(matches!(
        run_emulation(-3, &context(8)),
        VcpuAction::Exit { code: 1, error: Some(Error::RunVirtualProcessor(-3)) }
    ));
    assert!(matches!(
        after_mmio(-3, 1),
        VcpuAction::Exit { code: 1, error: Some(Error::MmioEmulation(-3)) }
    ));
    assert!(matches!(
        after_io(-3, 1),
        VcpuAction::Exit { code: 1, error: Some(Error::IoEmulation(-3)) }
    ));
    assert!(matches!(
        after_registers(-3, vec![vec![reg(RegisterName::Rip, 0)]]),
        VcpuAction::Exit { code: 1, error: Some(Error::SetRegisters(-3)) }
    ));
    // An emulation without success is only noted.
    assert!(matches!(after_mmio(0, 0), VcpuAction::Run));
    assert!(matches!(after_io(0, 2), VcpuAction::Run));
    assert!(matches!(handle_mmio_exit(0, 3), Ok(true)));
    assert!(matches!(handle_mmio_exit(0, 2), Ok(false)));
    assert!(matches!(handle_io_exit(0, 1), Ok(true)));
    assert!(matches!(handle_io_exit(0, 0), Ok(false)));
    assert!(matches!(run(Ok(VcpuEmulation::Handled)), VcpuAction::Run));
}

#[test]
fn processors_are_created_in_two_calls() {
    let creation = Vcpu::<u8>::new_x86_64(5);
    assert_eq!(creation.action(), CreateAction::CreateVirtualProcessor { index: 5 });
    assert!(matches!(
        Vcpu::<u8>::new_x86_64(5).advance::<u8>(2),
        CreateProgress::Failed(Error::CreateVirtualProcessor(2))
    ));
    let next = match creation.advance::<u8>(0) {
        CreateProgress::Continue(c) => c,
        _ => panic!("the emulator is missing"),
    };
    assert_eq!(next.action(), CreateAction::CreateEmulator);
    let mut v: Vcpu<u8> = match next.advance(0) {
        CreateProgress::Ready(v) => v,
        _ => panic!("nothing failed"),
    };
    Vcpu::<u8>::register_kick_signal_handler();
    assert_eq!((v.cpu_index(), v.whpx_index()), (5, 5));
    assert_eq!(v.thread_name(), "fc_vcpu 5");
    assert_eq!(v.io_port_access(0, 0x43, 1), None);
    assert_eq!(v.memory_access(0, 0x43, 1), None);
    v.set_io_bus(10);
    v.set_mmio_bus(20);
    assert_eq!(
        v.io_port_access(1, 0x43, 1),
        Some((&10, BusAccess { vcpu: 5, addr: 0x43, len: 1, write: true }))
    );
    assert_eq!(
        v.memory_access(0, 0xfec0_0010, 4),
        Some((&20, BusAccess { vcpu: 5, addr: 0xfec0_0010, len: 4, write: false }))
    );
    let failing = match Vcpu::<u8>::new_x86_64(5).advance::<u8>(0) {
        CreateProgress::Continue(c) => c.advance::<u8>(7),
        _ => panic!("the emulator is missing"),
    };
    assert!(matches!(failing, CreateProgress::Failed(Error::CreateEmulator(7))));
}

#[test]
fn thread_slot_belongs_to_one_processor() {
    let mut slot = None;
    assert!(matches!(reset_thread_local_data(&mut slot, 1), Err(Error::VcpuTlsNotPresent)));
    assert!(init_thread_local_data(&mut slot, 1).is_ok());
    assert!(matches!(init_thread_local_data(&mut slot, 2), Err(Error::VcpuTlsInit)));
    assert!(matches!(reset_thread_local_data(&mut slot, 2), Err(Error::VcpuTlsNotPresent)));
    assert_eq!(slot, Some(1));
    assert!(reset_thread_local_data(&mut slot, 1).is_ok());
    assert_eq!(slot, None);
}

type Devices = MMIODeviceManager<char, u8>;

#[test]
fn devices_get_windows_and_lines_in_order() {
    let mut base = 0xd000_0000;
    let mut m = Devices::new(&mut base, (5, 6));
    assert_eq!(base, 0xd000_0000);
    let net = m.register_mmio_device(MmioTransport::new('n'), 1, String::from("eth0")).unwrap();
    assert_eq!(net, (0xd000_0000, 5));
    let blk = m.register_mmio_device(MmioTransport::new('b'), 2, String::from("root")).unwrap();
    assert_eq!(blk, (0xd000_1000, 6));
    assert!(matches!(
        m.register_mmio_device(MmioTransport::new('x'), 2, String::from("more")),
        Err(mmio::Error::IrqsExhausted)
    ));
    match m.get_device(DeviceType::Virtio(2), "root") {
        Some(MmioDevice::Virtio(t)) => {
            assert_eq!(t.device, 'b');
            assert_eq!(t.irq_line, Some(6));
        }
        _ => panic!("the device is missing"),
    }
    assert!(m.get_device(DeviceType::Virtio(1), "root").is_none());
    assert!(m.get_device(DeviceType::Virtio(2), "roo").is_none());
    match m.bus.get_device(0xd000_0fff) {
        Some((0xfff, MmioDevice::Virtio(t))) => assert_eq!(t.device, 'n'),
        _ => panic!("the device is missing"),
    }
}

#[test]
fn devices_are_placed_in_turn() {
    let mut base = 0x1000;
    let mut m = Devices::new(&mut base, (5, 7));
    let mut add = |m: &mut Devices, c: char| {
        m.register_mmio_device(MmioTransport::new(c), 1, String::from(c))
    };
    assert_eq!(add(&mut m, 'a').unwrap(), (0x1000, 5));
    // A controller takes no turn, and neither does a device that finds no room.
    assert!(m.register_mmio_ioapic(1, 0x9000, 0x100).is_ok());
    assert!(m.register_mmio_ioapic(2, 0x1fff, 1).is_err());
    assert_eq!(add(&mut m, 'b').unwrap(), (0x2000, 6));
    assert!(m.register_mmio_ioapic(3, 0x3800, 0x100).is_ok());
    assert!(matches!(add(&mut m, 'c'), Err(mmio::Error::BusError(_))));
    assert!(matches!(add(&mut m, 'c'), Err(mmio::Error::BusError(_))));
    for (c, addr, irq) in [('a', 0x1000, 5), ('b', 0x2000, 6)] {
        match m.bus.get_device(addr) {
            Some((0, MmioDevice::Virtio(t))) => {
                assert_eq!((t.device, t.irq_line), (c, Some(irq)))
            }
            _ => panic!("the device is missing"),
        }
    }
}

#[test]
fn later_device_of_the_same_name_is_found() {
    let mut base = 0;
    let mut m = Devices::new(&mut base, (0, 9));
    m.register_mmio_device(MmioTransport::new('a'), 1, String::from("eth0")).unwrap();
    m.register_mmio_device(MmioTransport::new('b'), 1, String::from("eth0")).unwrap();
    match m.get_device(DeviceType::Virtio(1), "eth0") {
        Some(MmioDevice::Virtio(t)) => assert_eq!((t.device, t.irq_line), ('b', Some(1))),
        _ => panic!("the device is missing"),
    }
}

#[test]
fn interrupt_controller_shares_the_bus() {
    let mut base = 0xfebf_f000;
    let mut m = Devices::new(&mut base, (0, 9));
    assert!(m.register_mmio_ioapic(1, 0xfec0_0000, 0).is_ok());
    assert!(m.bus.get_device(0xfec0_0000).is_none());
    assert!(m.register_mmio_ioapic(1, 0xfec0_0000, 0x100).is_ok());
    assert!(matches!(
        m.register_mmio_ioapic(2, 0xfec0_00ff, 1),
        Err(mmio::Error::BusError(_))
    ));
    assert!(m.register_mmio_device(MmioTransport::new('a'), 1, String::from("a")).is_ok());
    match m.register_mmio_device(MmioTransport::new('b'), 1, String::from("b")) {
        Err(e) => assert_eq!(
            e.to_string(),
            "failed to perform bus operation: New device overlaps with an old device."
        ),
        Ok(_) => panic!("the window is taken"),
    }
    assert!(m.get_device(DeviceType::Virtio(1), "b").is_none());
}

#[test]
fn device_errors_have_texts() {
    let made: mmio::Error = CreateMmioTransportError { text: String::from("x") }.into();
    assert_eq!(made.to_string(), "failed to create mmio transport for the device x");
    assert_eq!(
        mmio::Error::Cmdline(String::from("long")).to_string(),
        "unable to add device to kernel command line: long"
    );
    assert_eq!(
        mmio::Error::EventFd(os("none")).to_string(),
        "failed to create or clone event descriptor: none"
    );
    assert_eq!(mmio::Error::IrqsExhausted.to_string(), "no more IRQs are available");
    assert_eq!(mmio::Error::RegisterIoEvent.to_string(), "failed to register IO event");
    assert_eq!(mmio::Error::RegisterIrqFd.to_string(), "failed to register irqfd");
    assert_eq!(mmio::Error::DeviceNotFound.to_string(), "the device couldn't be found");
    assert_eq!(mmio::Error::UpdateFailed.to_string(), "failed to update the mmio device");
}

fn default_config() -> VsockDeviceConfig {
    let vsock_dev_id = "vsock";
    VsockDeviceConfig {
        vsock_id: vsock_dev_id.to_string(),
        guest_cid: 3,
        host_port_map: None,
        unix_ipc_port_map: None,
        tsi_flags: TsiFlags::default(),
    }
}

#[test]
fn test_vsock_insert() {
    let mut store = vsock::VsockBuilder::new();
    let mut vsock_config = default_config();

    store.insert(vsock_config.clone(), Ok(())).unwrap();
    let vsock = store.get().unwrap();
    assert_eq!(vsock.id(), &vsock_config.vsock_id);

    let new_cid = vsock_config.guest_cid + 1;
    vsock_config.guest_cid = new_cid;
    store.insert(vsock_config, Ok(())).unwrap();
    let vsock = store.get().unwrap();
    assert_eq!(vsock.cid(), new_cid as u64);
}

#[test]
fn failed_vsock_keeps_the_old_one() {
    let mut store = vsock::VsockBuilder::default();
    assert!(store.get().is_none());
    assert_eq!(store.tsi_flags(), TsiFlags { bits: 0 });
    store.insert(default_config(), Ok(())).unwrap();
    let mut other = default_config();
    other.guest_cid = 9;
    other.tsi_flags = TsiFlags { bits: 2 };
    match store.insert(other, Err(VsockError { text: String::from("EventFd(..)") })) {
        Err(e) => assert_eq!(e.to_string(), "Cannot create vsock device: EventFd(..)"),
        Ok(()) => panic!("the device did not open"),
    }
    assert_eq!(store.get().unwrap().cid(), 3);
    assert_eq!(store.tsi_flags(), TsiFlags { bits: 2 });
}

#[test]
fn vsock_takes_over_its_ports() {
    let mut cfg = default_config();
    cfg.host_port_map = Some(HashMap::from([(80, 8080)]));
    cfg.unix_ipc_port_map = Some(HashMap::from([(5, (String::from("/tmp/s"), true))]));
    let v = vsock::VsockBuilder::create_vsock(cfg.clone(), Ok(())).unwrap();
    assert_eq!(v.host_port_map, cfg.host_port_map);
    assert_eq!(v.unix_ipc_port_map, cfg.unix_ipc_port_map);
}

#[test]
fn vsock_is_not_supported_everywhere() {
    let mut store = vsock_windows::VsockBuilder::default();
    match store.insert(default_config()) {
        Err(VsockConfigError::NotSupported) => {}
        _ => panic!("expected a refusal"),
    }
    assert!(store.get().is_none());
    assert_eq!(store.tsi_flags(), TsiFlags { bits: 0 });
    assert_eq!(VsockConfigError::NotSupported.to_string(), "Vsock is not supported on Windows");
}

#[test]
fn launch_reads_its_arguments() {
    let args = |a: &[&str]| a.iter().map(|s| s.to_string()).collect::<Vec<String>>();
    assert_eq!(launch(&args(&["boot"])).unwrap_err(), "Usage: boot <bzImage> [initrd]");
    let plan = launch(&args(&["boot", "/k/bzImage"])).unwrap();
    assert_eq!(plan.kernel_path, "/k/bzImage");
    assert_eq!(plan.kernel_format, KernelFormat::Raw);
    assert_eq!(plan.initrd_path, None);
    assert_eq!((plan.vcpu_count, plan.mem_size_mib, plan.ht_enabled), (1, 256, false));
    assert_eq!(plan.mac, [0x52, 0x54, 0x00, 0x12, 0x34, 0x56]);
    assert_eq!((plan.iface_id.as_str(), plan.features), ("eth0", 0));
    assert!(plan.cmdline.starts_with("console=ttyS0 earlyprintk=ttyS0 reboot=t panic=-1 "));
    assert!(plan.cmdline.ends_with("nohpet lapic ip=dhcp"));
    let plan = launch(&args(&["boot", "my-vmlinux.elf", "rd", "x"])).unwrap();
    assert_eq!(plan.kernel_format, KernelFormat::Elf);
    assert_eq!(plan.initrd_path, Some(String::from("rd")));
    assert_eq!(kernel_format("vmlinu"), KernelFormat::Raw);
    assert_eq!(kernel_format("vvmlinux"), KernelFormat::Elf);
    assert_eq!(kernel_format(""), KernelFormat::Raw);
    assert_eq!(LOOP_TIMEOUT_MS, 1000);
}
