//! Virtual processors: creation, boot configuration, the run loop and the
//! handling of exits.
use crate::text;
use crate::vmm::boot;
use crate::vmm::error;
use crate::vmm::error::{Error, S_OK};
use crate::vmm::guest_memory;
use crate::vmm::hyperv_tlfs::{
    HV_X64_MSR_APIC_FREQUENCY, HV_X64_MSR_TSC_FREQUENCY, HV_X64_MSR_TSC_INVARIANT_CONTROL,
};
use crate::vmm::registers;
use crate::vmm::registers::{RegisterName, RegisterValue, RegisterWrite};
use vm_memory::GuestMemoryMmap;
use vstd::prelude::*;

verus! {

/// The guest accessed memory that is not mapped.
pub const EXIT_MEMORY_ACCESS: i32 = 1;

/// The guest accessed an IO port.
pub const EXIT_IO_PORT_ACCESS: i32 = 2;

/// The guest raised an exception that cannot be delivered.
pub const EXIT_UNRECOVERABLE_EXCEPTION: i32 = 4;

/// A register of the virtual processor holds an invalid value.
pub const EXIT_INVALID_REGISTER_VALUE: i32 = 5;

/// The guest used a feature that is not supported.
pub const EXIT_UNSUPPORTED_FEATURE: i32 = 6;

/// The guest can take an interrupt.
pub const EXIT_INTERRUPT_WINDOW: i32 = 7;

/// The guest halted.
pub const EXIT_HALT: i32 = 8;

/// The guest signalled the end of an interrupt.
pub const EXIT_APIC_EOI: i32 = 9;

/// The guest accessed a model specific register.
pub const EXIT_MSR_ACCESS: i32 = 4096;

/// The guest executed CPUID.
pub const EXIT_CPUID: i32 = 4097;

/// The run was cancelled.
pub const EXIT_CANCELED: i32 = 8193;

/// Exit code of a processor that stopped.
pub const FC_EXIT_CODE_OK: u8 = 0;

/// Exit code of a processor that failed.
pub const FC_EXIT_CODE_GENERIC_ERROR: u8 = 1;

/// Template by which CPUID features are masked.
#[derive(Clone, Copy, PartialEq, Eq, Structural, Debug)]
pub enum CpuFeaturesTemplate {
    C3,
    T2,
}

/// Encapsulates configuration parameters for the guest vCPUs.
#[derive(PartialEq, Eq, Structural, Debug)]
pub struct VcpuConfig {
    /// Number of guest VCPUs.
    pub vcpu_count: u8,
    /// Enable hyperthreading in the CPUID configuration.
    pub ht_enabled: bool,
    /// CPUID template to use.
    pub cpu_template: Option<CpuFeaturesTemplate>,
}

/// Events that can be sent to a vCPU thread.
#[derive(Clone, Copy, PartialEq, Eq, Structural, Debug)]
pub enum VcpuEvent {
    /// Pause the vCPU.
    Pause,
    /// Resume the vCPU.
    Resume,
}

/// Responses from the vCPU thread.
#[derive(Clone, Copy, PartialEq, Eq, Structural, Debug)]
pub enum VcpuResponse {
    /// vCPU is paused.
    Paused,
    /// vCPU is resumed.
    Resumed,
    /// vCPU has exited.
    Exited(u8),
}

/// What handling an exit amounted to.
#[derive(Clone, Copy, PartialEq, Eq, Structural, Debug)]
pub enum VcpuEmulation {
    /// The exit was handled; continue running.
    Handled,
    /// The guest has stopped (halt, shutdown, cancel).
    Stopped,
}

/// The answers that CPUID would give by default.
#[derive(Clone, Copy, PartialEq, Eq, Structural, Debug)]
pub struct CpuidAccess {
    pub default_result_rax: u64,
    pub default_result_rbx: u64,
    pub default_result_rcx: u64,
    pub default_result_rdx: u64,
}

/// An access to a model specific register.
#[derive(Clone, Copy, PartialEq, Eq, Structural, Debug)]
pub struct MsrAccess {
    pub msr_number: u32,
    /// The lowest bit is set for a write.
    pub access_info: u32,
}

/// Why a processor left the guest. The two accesses are meaningful only for
/// the exit reasons that they belong to.
#[derive(Clone, Copy, PartialEq, Eq, Structural, Debug)]
pub struct ExitContext {
    pub exit_reason: i32,
    pub rip: u64,
    pub cpuid: CpuidAccess,
    pub msr: MsrAccess,
}

/// What is left to do to handle an exit.
#[derive(Debug)]
pub enum ExitStep {
    /// Nothing.
    Done(VcpuEmulation),
    /// Let the instruction emulator perform the memory access.
    EmulateMmio,
    /// Let the instruction emulator perform the port access.
    EmulateIo,
    /// Set registers, one batch after the other.
    SetRegisters(Vec<Vec<RegisterWrite>>),
}

/// What the thread of a processor does next.
#[derive(Debug)]
pub enum VcpuAction {
    /// Run the guest until it exits.
    Run,
    /// Let the instruction emulator perform the memory access.
    EmulateMmio,
    /// Let the instruction emulator perform the port access.
    EmulateIo,
    /// Set the registers of `now`; `then` holds the batches that follow.
    SetRegisters { now: Vec<RegisterWrite>, then: Vec<Vec<RegisterWrite>> },
    /// Announce the exit code and end. `error` is what went wrong, if anything.
    Exit { code: u8, error: Option<Error> },
}

/// An access of the guest to a device on a bus.
#[derive(Clone, Copy, PartialEq, Eq, Structural, Debug)]
pub struct BusAccess {
    pub vcpu: u64,
    pub addr: u64,
    pub len: usize,
    pub write: bool,
}

/// The step to the next instruction after one of two bytes.
pub open spec fn skip_two(ctx: ExitContext) -> RegisterWrite {
    registers::reg64_write(RegisterName::Rip, (ctx.rip + 2) as u64)
}

/// The registers that complete a CPUID instruction: the default answers, and
/// the step to the next instruction.
pub open spec fn cpuid_writes(ctx: ExitContext) -> Seq<RegisterWrite> {
    seq![
        registers::reg64_write(RegisterName::Rax, ctx.cpuid.default_result_rax),
        registers::reg64_write(RegisterName::Rbx, ctx.cpuid.default_result_rbx),
        registers::reg64_write(RegisterName::Rcx, ctx.cpuid.default_result_rcx),
        registers::reg64_write(RegisterName::Rdx, ctx.cpuid.default_result_rdx),
        skip_two(ctx),
    ]
}

/// The general protection fault.
pub const GP_VECTOR: u64 = 13;

/// The interruption that delivers an exception with error code zero: bit 0
/// marks it pending, bits 1 to 3 make it an exception, bit 4 asks for the
/// error code, and the vector follows from bit 16 on.
pub open spec fn pending_exception(vector: u64) -> u64 {
    (1 + 3 * 2 + 0x10 + vector * 0x1_0000) as u64
}

/// A synthetic register that the guest is told about.
pub open spec fn known_msr(msr_number: u32) -> bool {
    ||| msr_number == HV_X64_MSR_TSC_INVARIANT_CONTROL
    ||| msr_number == HV_X64_MSR_APIC_FREQUENCY
    ||| msr_number == HV_X64_MSR_TSC_FREQUENCY
}

/// The guest writes the model specific register.
pub open spec fn is_msr_write(ctx: ExitContext) -> bool {
    ctx.msr.access_info % 2 == 1
}

/// The batches that complete an access to a model specific register. A write
/// of a synthetic register is accepted and dropped; a read gives zero in both
/// halves. Then follows the step to the next instruction. An access to any
/// other register faults at the instruction.
pub open spec fn msr_batches(ctx: ExitContext) -> Seq<Seq<RegisterWrite>> {
    if !known_msr(ctx.msr.msr_number) {
        seq![
            seq![
                registers::reg64_write(
                    RegisterName::PendingInterruption,
                    pending_exception(GP_VECTOR),
                ),
            ],
        ]
    } else if is_msr_write(ctx) {
        seq![seq![skip_two(ctx)]]
    } else {
        seq![
            seq![registers::reg64_write(RegisterName::Rax, 0)],
            seq![registers::reg64_write(RegisterName::Rdx, 0)],
            seq![skip_two(ctx)],
        ]
    }
}

/// The register writes of a list of batches.
pub open spec fn batches_view(batches: Seq<Vec<RegisterWrite>>) -> Seq<Seq<RegisterWrite>> {
    Seq::new(batches.len(), |i: int| batches[i]@)
}

/// The exits that are handled by a step to the next instruction are at an
/// instruction after which the address space does not end.
pub open spec fn rip_in_range(ctx: ExitContext) -> bool {
    ctx.exit_reason == EXIT_CPUID || ctx.exit_reason == EXIT_MSR_ACCESS && known_msr(
        ctx.msr.msr_number,
    ) ==> ctx.rip + 2 <= u64::MAX
}

/// An exit code that amounts to an error.
pub open spec fn is_unhandled(reason: i32) -> bool {
    &&& reason != EXIT_MEMORY_ACCESS
    &&& reason != EXIT_IO_PORT_ACCESS
    &&& reason != EXIT_HALT
    &&& reason != EXIT_CANCELED
    &&& reason != EXIT_CPUID
    &&& reason != EXIT_MSR_ACCESS
    &&& reason != EXIT_APIC_EOI
    &&& reason != EXIT_INTERRUPT_WINDOW
}

/// `r` is how the exit is to be handled.
pub open spec fn exit_handled(ctx: ExitContext, r: Result<ExitStep, Error>) -> bool {
    match r {
        Ok(ExitStep::EmulateMmio) => ctx.exit_reason == EXIT_MEMORY_ACCESS,
        Ok(ExitStep::EmulateIo) => ctx.exit_reason == EXIT_IO_PORT_ACCESS,
        Ok(ExitStep::Done(VcpuEmulation::Stopped)) => ctx.exit_reason == EXIT_HALT
            || ctx.exit_reason == EXIT_CANCELED,
        Ok(ExitStep::Done(VcpuEmulation::Handled)) => ctx.exit_reason == EXIT_APIC_EOI
            || ctx.exit_reason == EXIT_INTERRUPT_WINDOW,
        Ok(ExitStep::SetRegisters(batches)) => {
            ||| ctx.exit_reason == EXIT_CPUID && batches_view(batches@) == seq![cpuid_writes(ctx)]
            ||| ctx.exit_reason == EXIT_MSR_ACCESS && batches_view(batches@) == msr_batches(ctx)
        },
        Err(e) => is_unhandled(ctx.exit_reason) && e == Error::VcpuUnhandledExit(
            error::hresult_bits(ctx.exit_reason),
        ),
    }
}

/// What the run loop does with the outcome of handling an exit.
pub open spec fn continuation(r: Result<VcpuEmulation, Error>) -> VcpuAction {
    match r {
        Ok(VcpuEmulation::Handled) => VcpuAction::Run,
        Ok(VcpuEmulation::Stopped) => VcpuAction::Exit { code: FC_EXIT_CODE_OK, error: None },
        Err(e) => VcpuAction::Exit { code: FC_EXIT_CODE_GENERIC_ERROR, error: Some(e) },
    }
}

/// `action` sets the first of the batches now and the others then; without
/// any batch left the guest runs on.
pub open spec fn sets_in_order(batches: Seq<Seq<RegisterWrite>>, action: VcpuAction) -> bool {
    match action {
        VcpuAction::SetRegisters { now, then } => {
            &&& batches.len() > 0
            &&& now@ == batches[0]
            &&& batches_view(then@) == batches.drop_first()
        },
        VcpuAction::Run => batches.len() == 0,
        _ => false,
    }
}

/// `action` follows a run of the guest.
pub open spec fn follows_run(hr: i32, ctx: ExitContext, action: VcpuAction) -> bool {
    if hr != S_OK {
        action == continuation(Err(Error::RunVirtualProcessor(hr)))
    } else if ctx.exit_reason == EXIT_MEMORY_ACCESS {
        action == VcpuAction::EmulateMmio
    } else if ctx.exit_reason == EXIT_IO_PORT_ACCESS {
        action == VcpuAction::EmulateIo
    } else if ctx.exit_reason == EXIT_HALT || ctx.exit_reason == EXIT_CANCELED {
        action == continuation(Ok(VcpuEmulation::Stopped))
    } else if ctx.exit_reason == EXIT_CPUID {
        sets_in_order(seq![cpuid_writes(ctx)], action)
    } else if ctx.exit_reason == EXIT_MSR_ACCESS {
        sets_in_order(msr_batches(ctx), action)
    } else if ctx.exit_reason == EXIT_APIC_EOI || ctx.exit_reason == EXIT_INTERRUPT_WINDOW {
        action == continuation(Ok(VcpuEmulation::Handled))
    } else {
        action == continuation(Err(Error::VcpuUnhandledExit(error::hresult_bits(ctx.exit_reason))))
    }
}

/// A virtual processor with its buses.
#[derive(Debug)]
pub struct Vcpu<B> {
    id: u8,
    whpx_index: u32,
    io_bus: Option<B>,
    mmio_bus: Option<B>,
}

/// A call to make in order to create a virtual processor.
#[derive(Clone, Copy, PartialEq, Eq, Structural, Debug)]
pub enum CreateAction {
    CreateVirtualProcessor { index: u32 },
    CreateEmulator,
}

/// A virtual processor that is being created.
#[derive(Debug)]
pub struct VcpuCreation {
    id: u8,
    processor_exists: bool,
}

/// What follows a call that was made to create a virtual processor.
#[derive(Debug)]
pub enum CreateProgress<B> {
    /// There is another call to make.
    Continue(VcpuCreation),
    /// The processor is ready.
    Ready(Vcpu<B>),
    /// The creation failed.
    Failed(Error),
}

impl VcpuCreation {
    /// The processor's number.
    pub closed spec fn id(&self) -> u8 {
        self.id
    }

    /// The processor exists and its emulator comes next.
    pub closed spec fn processor_exists(&self) -> bool {
        self.processor_exists
    }

    /// The next call to make.
    pub fn action(&self) -> (action: CreateAction)
        ensures
            action == if self.processor_exists() {
                CreateAction::CreateEmulator
            } else {
                CreateAction::CreateVirtualProcessor { index: self.id() as u32 }
            },
    {
        if self.processor_exists {
            CreateAction::CreateEmulator
        } else {
            CreateAction::CreateVirtualProcessor { index: self.id as u32 }
        }
    }

    /// Takes note of the result code of the call.
    pub fn advance<B>(self, hr: i32) -> (progress: CreateProgress<B>)
        ensures
            match progress {
                CreateProgress::Continue(next) => hr == S_OK && !self.processor_exists()
                    && next.processor_exists() && next.id() == self.id(),
                CreateProgress::Ready(vcpu) => {
                    &&& hr == S_OK && self.processor_exists()
                    &&& vcpu.id() == self.id() && vcpu.index() == self.id()
                    &&& vcpu.io_bus() is None && vcpu.mmio_bus() is None
                },
                CreateProgress::Failed(e) => hr != S_OK && e == if self.processor_exists() {
                    Error::CreateEmulator(hr)
                } else {
                    Error::CreateVirtualProcessor(hr)
                },
            },
    {
        if hr != S_OK {
            if self.processor_exists {
                CreateProgress::Failed(Error::CreateEmulator(hr))
            } else {
                CreateProgress::Failed(Error::CreateVirtualProcessor(hr))
            }
        } else if self.processor_exists {
            CreateProgress::Ready(
                Vcpu { id: self.id, whpx_index: self.id as u32, io_bus: None, mmio_bus: None },
            )
        } else {
            CreateProgress::Continue(VcpuCreation { id: self.id, processor_exists: true })
        }
    }
}

/// A thread's slot after an attempt to put the processor `vcpu` there.
pub open spec fn slot_taken(slot: Option<usize>, vcpu: usize) -> Option<usize> {
    if slot is Some {
        slot
    } else {
        Some(vcpu)
    }
}

/// A thread's slot after an attempt to take the processor `vcpu` from it.
pub open spec fn slot_released(slot: Option<usize>, vcpu: usize) -> Option<usize> {
    if slot == Some(vcpu) {
        None
    } else {
        slot
    }
}

/// Associates the processor known as `vcpu` with a thread, whose slot for it
/// must be free.
pub fn init_thread_local_data(slot: &mut Option<usize>, vcpu: usize) -> (r: Result<(), Error>)
    ensures
        r == (if *old(slot) is Some {
            Err::<(), Error>(Error::VcpuTlsInit)
        } else {
            Ok(())
        }),
        *final(slot) == slot_taken(*old(slot), vcpu),
{
    if slot.is_some() {
        return Err(Error::VcpuTlsInit);
    }
    *slot = Some(vcpu);
    Ok(())
}

/// Deassociates the processor known as `vcpu` from a thread, whose slot must
/// hold it.
pub fn reset_thread_local_data(slot: &mut Option<usize>, vcpu: usize) -> (r: Result<(), Error>)
    ensures
        r == (if *old(slot) == Some(vcpu) {
            Ok::<(), Error>(())
        } else {
            Err(Error::VcpuTlsNotPresent)
        }),
        *final(slot) == slot_released(*old(slot), vcpu),
{
    match *slot {
        Some(present) => {
            if present == vcpu {
                *slot = None;
                return Ok(());
            }
        },
        None => {},
    }
    Err(Error::VcpuTlsNotPresent)
}

/// What became of a memory access of the instruction emulator, from the result
/// code and the emulator's status; the lowest bit of the status tells whether
/// the emulation was successful.
pub fn handle_mmio_exit(hr: i32, status: u32) -> (r: Result<bool, Error>)
    ensures
        r == (if hr == S_OK {
            Ok::<bool, Error>(status % 2 == 1)
        } else {
            Err(Error::MmioEmulation(hr))
        }),
{
    proof {
        assert(status & 1 == status % 2) by (bit_vector);
    }
    if hr == S_OK {
        Ok((status & 1) != 0)
    } else {
        Err(Error::MmioEmulation(hr))
    }
}

/// What became of a port access of the instruction emulator, from the result
/// code and the emulator's status; the lowest bit of the status tells whether
/// the emulation was successful.
pub fn handle_io_exit(hr: i32, status: u32) -> (r: Result<bool, Error>)
    ensures
        r == (if hr == S_OK {
            Ok::<bool, Error>(status % 2 == 1)
        } else {
            Err(Error::IoEmulation(hr))
        }),
{
    proof {
        assert(status & 1 == status % 2) by (bit_vector);
    }
    if hr == S_OK {
        Ok((status & 1) != 0)
    } else {
        Err(Error::IoEmulation(hr))
    }
}

/// The registers that complete a CPUID instruction.
pub fn handle_cpuid_exit(ctx: &ExitContext) -> (writes: Vec<RegisterWrite>)
    requires
        ctx.rip + 2 <= u64::MAX,
    ensures
        writes@ == cpuid_writes(*ctx),
{
    let writes: Vec<RegisterWrite> = vec![
        registers::reg64(RegisterName::Rax, ctx.cpuid.default_result_rax),
        registers::reg64(RegisterName::Rbx, ctx.cpuid.default_result_rbx),
        registers::reg64(RegisterName::Rcx, ctx.cpuid.default_result_rcx),
        registers::reg64(RegisterName::Rdx, ctx.cpuid.default_result_rdx),
        registers::reg64(RegisterName::Rip, ctx.rip + 2),
    ];
    assert(writes@ =~= cpuid_writes(*ctx));
    writes
}

/// A synthetic register that the guest is told about.
pub fn is_known_msr(msr_number: u32) -> (known: bool)
    ensures
        known == known_msr(msr_number),
{
    msr_number == HV_X64_MSR_TSC_INVARIANT_CONTROL || msr_number == HV_X64_MSR_APIC_FREQUENCY
        || msr_number == HV_X64_MSR_TSC_FREQUENCY
}

/// The batches that complete an access to a model specific register.
pub fn handle_msr_exit(ctx: &ExitContext) -> (batches: Vec<Vec<RegisterWrite>>)
    requires
        known_msr(ctx.msr.msr_number) ==> ctx.rip + 2 <= u64::MAX,
    ensures
        batches_view(batches@) == msr_batches(*ctx),
{
    if !is_known_msr(ctx.msr.msr_number) {
        let fault: Vec<Vec<RegisterWrite>> = vec![vec![
            registers::reg64(
                RegisterName::PendingInterruption,
                1 + 3 * 2 + 0x10 + GP_VECTOR * 0x1_0000,
            ),
        ]];
        assert(batches_view(fault@)[0] =~= msr_batches(*ctx)[0]);
        assert(batches_view(fault@) =~= msr_batches(*ctx));
        return fault;
    }
    let info: u32 = ctx.msr.access_info;
    proof {
        assert(info & 1 == info % 2) by (bit_vector);
    }
    let is_write: bool = (info & 1) != 0;
    let mut batches: Vec<Vec<RegisterWrite>> = Vec::new();
    if !is_write {
        batches.push(vec![registers::reg64(RegisterName::Rax, 0)]);
        batches.push(vec![registers::reg64(RegisterName::Rdx, 0)]);
    }
    batches.push(vec![registers::reg64(RegisterName::Rip, ctx.rip + 2)]);
    proof {
        assert forall|i: int| 0 <= i < batches@.len() implies batches_view(batches@)[i]
            =~= msr_batches(*ctx)[i] by {}
        assert(batches_view(batches@) =~= msr_batches(*ctx));
    }
    batches
}

/// Decides how an exit of the guest is handled.
pub fn handle_exit(ctx: &ExitContext) -> (r: Result<ExitStep, Error>)
    requires
        rip_in_range(*ctx),
    ensures
        exit_handled(*ctx, r),
{
    let reason: i32 = ctx.exit_reason;
    if reason == EXIT_MEMORY_ACCESS {
        Ok(ExitStep::EmulateMmio)
    } else if reason == EXIT_IO_PORT_ACCESS {
        Ok(ExitStep::EmulateIo)
    } else if reason == EXIT_HALT || reason == EXIT_CANCELED {
        Ok(ExitStep::Done(VcpuEmulation::Stopped))
    } else if reason == EXIT_CPUID {
        let batches: Vec<Vec<RegisterWrite>> = vec![handle_cpuid_exit(ctx)];
        assert(batches_view(batches@) =~= seq![cpuid_writes(*ctx)]);
        Ok(ExitStep::SetRegisters(batches))
    } else if reason == EXIT_MSR_ACCESS {
        Ok(ExitStep::SetRegisters(handle_msr_exit(ctx)))
    } else if reason == EXIT_APIC_EOI || reason == EXIT_INTERRUPT_WINDOW {
        Ok(ExitStep::Done(VcpuEmulation::Handled))
    } else {
        proof {
            error::lemma_bits(reason);
        }
        Err(Error::VcpuUnhandledExit(reason as u32))
    }
}

/// What the run loop does with the outcome of handling an exit.
pub fn run(r: Result<VcpuEmulation, Error>) -> (action: VcpuAction)
    ensures
        action == continuation(r),
{
    match r {
        Ok(VcpuEmulation::Handled) => VcpuAction::Run,
        Ok(VcpuEmulation::Stopped) => VcpuAction::Exit { code: FC_EXIT_CODE_OK, error: None },
        Err(e) => VcpuAction::Exit { code: FC_EXIT_CODE_GENERIC_ERROR, error: Some(e) },
    }
}

/// Goes on with the batches that are left.
fn next_batch(batches: Vec<Vec<RegisterWrite>>) -> (action: VcpuAction)
    ensures
        sets_in_order(batches_view(batches@), action),
{
    let mut batches: Vec<Vec<RegisterWrite>> = batches;
    if batches.len() == 0 {
        return run(Ok(VcpuEmulation::Handled));
    }
    let ghost all = batches_view(batches@);
    let now: Vec<RegisterWrite> = batches.remove(0);
    assert(batches_view(batches@) =~= all.drop_first());
    VcpuAction::SetRegisters { now, then: batches }
}

/// What follows a run of the guest, from the result code of the call and the
/// exit that it reported.
pub fn run_emulation(hr: i32, ctx: &ExitContext) -> (action: VcpuAction)
    requires
        hr == S_OK ==> rip_in_range(*ctx),
    ensures
        follows_run(hr, *ctx, action),
{
    if hr != S_OK {
        return run(Err(Error::RunVirtualProcessor(hr)));
    }
    match handle_exit(ctx) {
        Ok(ExitStep::Done(emulation)) => run(Ok(emulation)),
        Ok(ExitStep::EmulateMmio) => VcpuAction::EmulateMmio,
        Ok(ExitStep::EmulateIo) => VcpuAction::EmulateIo,
        Ok(ExitStep::SetRegisters(batches)) => next_batch(batches),
        Err(e) => run(Err(e)),
    }
}

/// The result code that the instruction emulator gets for a translation, and
/// the outcome that it is told, if the call succeeded.
pub fn translate_gva(hr: i32, result_code: i32) -> (reply: (i32, Option<i32>))
    ensures
        reply.0 == hr,
        reply.1 == if hr == S_OK {
            Some(result_code)
        } else {
            None
        },
{
    if hr == S_OK {
        (hr, Some(result_code))
    } else {
        (hr, None)
    }
}

/// What follows a memory access of the instruction emulator.
pub fn after_mmio(hr: i32, status: u32) -> (action: VcpuAction)
    ensures
        action == continuation(
            if hr == S_OK {
                Ok(VcpuEmulation::Handled)
            } else {
                Err(Error::MmioEmulation(hr))
            },
        ),
{
    match handle_mmio_exit(hr, status) {
        Ok(_) => run(Ok(VcpuEmulation::Handled)),
        Err(e) => run(Err(e)),
    }
}

/// What follows a port access of the instruction emulator.
pub fn after_io(hr: i32, status: u32) -> (action: VcpuAction)
    ensures
        action == continuation(
            if hr == S_OK {
                Ok(VcpuEmulation::Handled)
            } else {
                Err(Error::IoEmulation(hr))
            },
        ),
{
    match handle_io_exit(hr, status) {
        Ok(_) => run(Ok(VcpuEmulation::Handled)),
        Err(e) => run(Err(e)),
    }
}

/// What follows setting a batch of registers; `then` holds the batches left.
pub fn after_registers(hr: i32, then: Vec<Vec<RegisterWrite>>) -> (action: VcpuAction)
    ensures
        if hr == S_OK {
            sets_in_order(batches_view(then@), action)
        } else {
            action == continuation(Err(Error::SetRegisters(hr)))
        },
{
    match registers::registers_set(hr) {
        Ok(()) => next_batch(then),
        Err(e) => run(Err(e)),
    }
}

impl<B> Vcpu<B> {
    /// The processor's number.
    pub closed spec fn id(&self) -> u8 {
        self.id
    }

    /// The number by which the hypervisor knows the processor.
    pub closed spec fn index(&self) -> u32 {
        self.whpx_index
    }

    /// The bus of the IO ports.
    pub closed spec fn io_bus(&self) -> Option<B> {
        self.io_bus
    }

    /// The bus of the memory-mapped devices.
    pub closed spec fn mmio_bus(&self) -> Option<B> {
        self.mmio_bus
    }

    /// Begins to create the processor number `id`: first the processor, then
    /// its instruction emulator.
    pub fn new_x86_64(id: u8) -> (creation: VcpuCreation)
        ensures
            creation.id() == id,
            !creation.processor_exists(),
    {
        VcpuCreation { id, processor_exists: false }
    }

    /// Registers a signal handler to kick the vCPU. Runs are cancelled through
    /// the hypervisor, so there is nothing to register.
    pub fn register_kick_signal_handler() {
    }

    /// Returns the CPU index as seen by the guest.
    pub fn cpu_index(&self) -> (id: u8)
        ensures
            id == self.id(),
    {
        self.id
    }

    /// The name of the processor's thread.
    pub fn thread_name(&self) -> (name: String)
        ensures
            name@ == "fc_vcpu "@ + text::digits(self.id() as nat),
    {
        let mut name: String = "fc_vcpu ".to_owned();
        text::push_unsigned(&mut name, self.id as u64);
        name
    }

    /// Returns the index used in calls to the hypervisor.
    pub fn whpx_index(&self) -> (index: u32)
        ensures
            index == self.index(),
    {
        self.whpx_index
    }

    /// Sets the MMIO bus for this vCPU.
    pub fn set_mmio_bus(&mut self, mmio_bus: B)
        ensures
            final(self).mmio_bus() == Some(mmio_bus),
            final(self).io_bus() == old(self).io_bus(),
            final(self).id() == old(self).id(),
            final(self).index() == old(self).index(),
    {
        self.mmio_bus = Some(mmio_bus);
    }

    /// Sets the IO port bus for this vCPU.
    pub fn set_io_bus(&mut self, io_bus: B)
        ensures
            final(self).io_bus() == Some(io_bus),
            final(self).mmio_bus() == old(self).mmio_bus(),
            final(self).id() == old(self).id(),
            final(self).index() == old(self).index(),
    {
        self.io_bus = Some(io_bus);
    }

    /// Prepares memory and returns the registers with which the processor
    /// boots a kernel at `kernel_start_addr` in 64-bit long mode. Without a
    /// direct kernel boot the processor starts at its reset vector, and
    /// neither memory nor a register is touched.
    pub fn configure_x86_64(
        &self,
        guest_mem: &mut GuestMemoryMmap<()>,
        kernel_start_addr: u64,
        _vcpu_config: &VcpuConfig,
        kernel_boot: bool,
    ) -> (r: Result<Option<Vec<RegisterWrite>>, Error>)
        ensures
            match r {
                Ok(None) => {
                    &&& !kernel_boot
                    &&& *final(guest_mem) == *old(guest_mem)
                },
                Ok(Some(list)) => {
                    &&& kernel_boot
                    &&& boot::all_backed(
                        guest_memory::guest_bytes(*old(guest_mem)),
                        boot::boot_writes(),
                    )
                    &&& guest_memory::guest_bytes(*final(guest_mem)) == guest_memory::stored_all(
                        guest_memory::guest_bytes(*old(guest_mem)),
                        boot::boot_writes(),
                    )
                    &&& list@ == boot::boot_registers(kernel_start_addr)
                },
                Err(e) => {
                    &&& kernel_boot
                    &&& !boot::all_backed(
                        guest_memory::guest_bytes(*old(guest_mem)),
                        boot::boot_writes(),
                    )
                    &&& exists|n: int| #[trigger]
                        boot::stopped_at(
                            guest_memory::guest_bytes(*old(guest_mem)),
                            guest_memory::guest_bytes(*final(guest_mem)),
                            boot::boot_writes(),
                            n,
                        ) && e == Error::GuestMemoryMmap(
                            guest_memory::write_failure(
                                guest_memory::guest_bytes(*old(guest_mem)).dom(),
                                boot::boot_writes()[n].0,
                            ),
                        )
                },
            },
    {
        if !kernel_boot {
            return Ok(None);
        }
        let tables: Vec<(u64, u64)> = boot::boot_tables();
        match boot::store_list(guest_mem, &tables) {
            Ok(()) => Ok(Some(boot::boot_register_list(kernel_start_addr))),
            Err(e) => Err(Error::GuestMemoryMmap(e)),
        }
    }

    /// The access to a port device that the instruction emulator asks for. A
    /// direction of zero is a read. Without a bus nothing is accessed.
    pub fn io_port_access(&self, direction: u8, port: u16, size: u16) -> (r: Option<
        (&B, BusAccess),
    >)
        ensures
            r is Some == self.io_bus() is Some,
            r matches Some((bus, access)) ==> Some(*bus) == self.io_bus() && access == (BusAccess {
                vcpu: self.index() as u64,
                addr: port as u64,
                len: size as usize,
                write: direction != 0,
            }),
    {
        match &self.io_bus {
            Some(bus) => Some(
                (
                    bus,
                    BusAccess {
                        vcpu: self.whpx_index as u64,
                        addr: port as u64,
                        len: size as usize,
                        write: direction != 0,
                    },
                ),
            ),
            None => None,
        }
    }

    /// The access to a memory-mapped device that the instruction emulator asks
    /// for. A direction of zero is a read. Without a bus nothing is accessed.
    pub fn memory_access(&self, direction: u8, gpa: u64, size: u8) -> (r: Option<(&B, BusAccess)>)
        ensures
            r is Some == self.mmio_bus() is Some,
            r matches Some((bus, access)) ==> Some(*bus) == self.mmio_bus() && access == (
            BusAccess {
                vcpu: self.index() as u64,
                addr: gpa,
                len: size as usize,
                write: direction != 0,
            }),
    {
        match &self.mmio_bus {
            Some(bus) => Some(
                (
                    bus,
                    BusAccess {
                        vcpu: self.whpx_index as u64,
                        addr: gpa,
                        len: size as usize,
                        write: direction != 0,
                    },
                ),
            ),
            None => None,
        }
    }
}

/// An exit that is handled by writing registers ends with the step to the next
/// instruction, and no register is written after it. An access that faults
/// writes neither the instruction pointer nor a general register.
pub proof fn handled_instructions_are_stepped_over(ctx: ExitContext)
    ensures
        cpuid_writes(ctx).last() == skip_two(ctx),
        forall|i: int|
            0 <= i < cpuid_writes(ctx).len() - 1 ==> (#[trigger] cpuid_writes(ctx)[i]).name
                != RegisterName::Rip,
        known_msr(ctx.msr.msr_number) ==> msr_batches(ctx).last() == seq![skip_two(ctx)]
            && forall|i: int|
            0 <= i < msr_batches(ctx).len() - 1 ==> (#[trigger] msr_batches(ctx)[i]).len() == 1
                && msr_batches(ctx)[i][0].name != RegisterName::Rip,
        !known_msr(ctx.msr.msr_number) ==> msr_batches(ctx).len() == 1 && msr_batches(ctx)[0].len()
            == 1 && msr_batches(ctx)[0][0].name == RegisterName::PendingInterruption,
{
}

/// A processor that leaves its run loop reports success exactly if it stopped,
/// and runs on exactly if the exit was handled.
pub proof fn exit_codes_tell_errors(r: Result<VcpuEmulation, Error>)
    ensures
        continuation(r) is Run <==> r == Ok::<VcpuEmulation, Error>(VcpuEmulation::Handled),
        continuation(r) matches VcpuAction::Exit { code, error } ==> (code == FC_EXIT_CODE_OK <==> r
            == Ok::<VcpuEmulation, Error>(VcpuEmulation::Stopped)) && (error is Some <==> r is Err),
{
}

/// A slot that was taken holds the processor until that processor leaves it;
/// no other processor can take or clear it meanwhile.
pub proof fn slot_belongs_to_one_processor(vcpu: usize, other: usize)
    ensures
        slot_released(slot_taken(None, vcpu), vcpu) is None,
        slot_taken(slot_taken(None, vcpu), other) == Some(vcpu),
        other != vcpu ==> slot_released(slot_taken(None, vcpu), other) == Some(vcpu),
{
}

/// The write gives a 64-bit register a value.
pub open spec fn gives(write: RegisterWrite, name: RegisterName, value: int) -> bool {
    write.name == name && (write.value matches RegisterValue::Reg64(v) && v == value)
}

/// A completed CPUID instruction leaves its four answers in the registers of
/// the same names, whole, and the instruction pointer two bytes further on,
/// which is written last; no register is written twice and no other one.
pub proof fn cpuid_is_completed(ctx: ExitContext, writes: Vec<RegisterWrite>)
    requires
        call_ensures(handle_cpuid_exit, (&ctx,), writes),
        ctx.rip + 2 <= u64::MAX,
    ensures
        writes@.len() == 5,
        gives(writes@.last(), RegisterName::Rip, ctx.rip + 2),
        forall|i: int|
            0 <= i < 4 ==> {
                ||| gives(
                    #[trigger] writes@[i],
                    RegisterName::Rax,
                    ctx.cpuid.default_result_rax as int,
                )
                ||| gives(writes@[i], RegisterName::Rbx, ctx.cpuid.default_result_rbx as int)
                ||| gives(writes@[i], RegisterName::Rcx, ctx.cpuid.default_result_rcx as int)
                ||| gives(writes@[i], RegisterName::Rdx, ctx.cpuid.default_result_rdx as int)
            },
        forall|i: int, j: int|
            0 <= i < j < 5 ==> (#[trigger] writes@[i]).name != (#[trigger] writes@[j]).name,
{
}

/// The synthetic registers that the guest is told about are these three.
pub proof fn known_registers_are_three(msr_number: u32, known: bool)
    requires
        call_ensures(is_known_msr, (msr_number,), known),
    ensures
        known <==> msr_number == 0x4000_0118 || msr_number == 0x4000_0023 || msr_number
            == 0x4000_0022,
{
}

/// An access to a known synthetic register is completed: a read leaves zero
/// in both halves, a write, which bit 0 of the access tells, touches neither,
/// and then the instruction pointer moves two bytes on. An access to any other
/// register leaves the instruction pointer alone and raises exception 13: in
/// the pending interruption bit 0 is set, bits 1 to 3 hold type 3, bit 4 asks
/// for an error code, the vector stands from bit 16 on, and nothing else.
pub proof fn register_access_is_completed(ctx: ExitContext, batches: Vec<Vec<RegisterWrite>>)
    requires
        call_ensures(handle_msr_exit, (&ctx,), batches),
        known_msr(ctx.msr.msr_number) ==> ctx.rip + 2 <= u64::MAX,
    ensures
        forall|i: int| 0 <= i < batches@.len() ==> (#[trigger] batches@[i])@.len() == 1,
        ({
            let n = ctx.msr.msr_number;
            let known = n == 0x4000_0118 || n == 0x4000_0023 || n == 0x4000_0022;
            let writes = ctx.msr.access_info & 1 == 1;
            let last = batches@.last()@[0];
            &&& known && writes ==> batches@.len() == 1
            &&& known && !writes ==> batches@.len() == 3 && gives(
                batches@[0]@[0],
                RegisterName::Rax,
                0,
            ) && gives(batches@[1]@[0], RegisterName::Rdx, 0)
            &&& known ==> gives(last, RegisterName::Rip, ctx.rip + 2)
            &&& !known ==> batches@.len() == 1 && last.name == RegisterName::PendingInterruption
                && (last.value matches RegisterValue::Reg64(v) && v & 1 == 1 && (v >> 1) & 7 == 3
                && (v >> 4) & 1 == 1 && (v >> 5) & 0x7ff == 0 && v >> 16 == 13)
        }),
{
    let info = ctx.msr.access_info;
    assert(info & 1 == info % 2) by (bit_vector);
    let v: u64 = 0xD_0017;
    assert(v & 1 == 1 && (v >> 1) & 7 == 3 && (v >> 4) & 1 == 1 && (v >> 5) & 0x7ff == 0 && v >> 16
        == 13) by (bit_vector)
        requires
            v == 0xD_0017u64,
    ;
    let b = batches_view(batches@);
    assert forall|i: int| 0 <= i < batches@.len() implies (#[trigger] batches@[i])@ == b[i] by {}
    assert(batches@.last()@ == b.last());
}

/// After a run of the guest its thread runs it again exactly for the exits of
/// an interrupt's end and an interrupt window, emulates memory and port
/// accesses, sets registers for CPUID and model specific registers, and ends
/// well exactly if the guest halted or the run was cancelled. Any other exit,
/// and a run that failed, end it with an error that holds the code.
pub proof fn exits_are_sorted_out(hr: i32, ctx: ExitContext, action: VcpuAction)
    requires
        call_ensures(run_emulation, (hr, &ctx), action),
        hr == 0 ==> rip_in_range(ctx),
    ensures
        action is Run <==> hr == 0 && (ctx.exit_reason == 9 || ctx.exit_reason == 7),
        action is EmulateMmio <==> hr == 0 && ctx.exit_reason == 1,
        action is EmulateIo <==> hr == 0 && ctx.exit_reason == 2,
        action is SetRegisters <==> hr == 0 && (ctx.exit_reason == 4096 || ctx.exit_reason == 4097),
        action matches VcpuAction::Exit { code, error } ==> {
            &&& code == 0 || code == 1
            &&& code == 0 <==> hr == 0 && (ctx.exit_reason == 8 || ctx.exit_reason == 8193)
            &&& code == 0 <==> error is None
            &&& hr != 0 ==> error == Some(Error::RunVirtualProcessor(hr))
            &&& hr == 0 && code == 1 ==> (error matches Some(Error::VcpuUnhandledExit(bits)) && bits
                == (if ctx.exit_reason < 0 {
                ctx.exit_reason + 0x1_0000_0000
            } else {
                ctx.exit_reason as int
            }))
        },
{
}

/// Whatever registers an exit sets, the guest goes on at the next instruction:
/// the last of them is the instruction pointer, two bytes further on, for every
/// CPUID and every access to a known synthetic register.
pub proof fn guest_goes_on_behind_the_instruction(ctx: ExitContext, action: VcpuAction)
    requires
        call_ensures(run_emulation, (0, &ctx), action),
        rip_in_range(ctx),
        ctx.exit_reason == 4097 || ctx.exit_reason == 4096 && (ctx.msr.msr_number == 0x4000_0118
            || ctx.msr.msr_number == 0x4000_0023 || ctx.msr.msr_number == 0x4000_0022),
    ensures
        action matches VcpuAction::SetRegisters { now, then } && ({
            let batch = if then@.len() > 0 {
                then@.last()
            } else {
                now
            };
            gives(batch@.last(), RegisterName::Rip, ctx.rip + 2)
        }),
        ctx.exit_reason == 4097 ==> (action matches VcpuAction::SetRegisters { now, then }
            && then@.len() == 0 && now@.len() == 5),
{
    if let VcpuAction::SetRegisters { now, then } = action {
        if then@.len() > 0 {
            assert(then@.last()@ == batches_view(then@).last());
        }
        assert(then@.len() == batches_view(then@).len());
    }
}

/// Batches of registers are set one after the other, in order and none left
/// out, and then the guest runs on. A batch that cannot be set ends it all.
pub proof fn batches_are_set_in_order(
    hr: i32,
    batches: Vec<Vec<RegisterWrite>>,
    action: VcpuAction,
)
    requires
        call_ensures(after_registers, (hr, batches), action),
    ensures
        hr != 0 ==> action == (VcpuAction::Exit { code: 1, error: Some(Error::SetRegisters(hr)) }),
        hr == 0 && batches@.len() == 0 ==> action is Run,
        hr == 0 && batches@.len() > 0 ==> (action matches VcpuAction::SetRegisters { now, then }
            && now@ == batches@[0]@ && then@.len() == batches@.len() - 1 && forall|i: int|
            0 <= i < then@.len() ==> (#[trigger] then@[i])@ == batches@[i + 1]@),
{
    if let VcpuAction::SetRegisters { now, then } = action {
        let left = batches_view(batches@).drop_first();
        assert(then@.len() == left.len());
        assert forall|i: int| 0 <= i < then@.len() implies (#[trigger] then@[i])@
            == batches@[i + 1]@ by {
            assert(batches_view(then@)[i] == left[i]);
        }
    }
}

/// An emulated access lets the guest run on whenever the call succeeded; bit 0
/// of the status tells whether the emulation did. A failed call ends the
/// processor with an error of the kind of the access.
pub proof fn emulated_accesses_let_the_guest_run(
    hr: i32,
    status: u32,
    mmio: Result<bool, Error>,
    io: Result<bool, Error>,
    after: (VcpuAction, VcpuAction),
)
    requires
        call_ensures(handle_mmio_exit, (hr, status), mmio),
        call_ensures(handle_io_exit, (hr, status), io),
        call_ensures(after_mmio, (hr, status), after.0),
        call_ensures(after_io, (hr, status), after.1),
    ensures
        hr == 0 ==> after.0 is Run && after.1 is Run && (mmio matches Ok(done) && done == (status
            & 1 == 1)) && (io matches Ok(done) && done == (status & 1 == 1)),
        hr != 0 ==> {
            &&& mmio == Err::<bool, Error>(Error::MmioEmulation(hr))
            &&& io == Err::<bool, Error>(Error::IoEmulation(hr))
            &&& after.0 == (VcpuAction::Exit { code: 1, error: Some(Error::MmioEmulation(hr)) })
            &&& after.1 == (VcpuAction::Exit { code: 1, error: Some(Error::IoEmulation(hr)) })
        },
{
    assert(status & 1 == status % 2) by (bit_vector);
}

/// A translation hands on the result code, and its outcome exactly if that is
/// zero.
pub proof fn translations_are_handed_on(hr: i32, result_code: i32, reply: (i32, Option<i32>))
    requires
        call_ensures(translate_gva, (hr, result_code), reply),
    ensures
        reply.0 == hr,
        hr == 0 ==> reply.1 == Some(result_code),
        hr != 0 ==> reply.1 is None,
{
}

/// A processor is created under its own number: first the processor, then its
/// emulator, and it is ready only when both calls have succeeded.
pub proof fn processors_are_created_under_their_number<B>(
    id: u8,
    first: VcpuCreation,
    second: VcpuCreation,
    calls: (CreateAction, CreateAction),
    hr: i32,
    outcome: CreateProgress<B>,
)
    requires
        call_ensures(Vcpu::<B>::new_x86_64, (id,), first),
        call_ensures(VcpuCreation::action, (&first,), calls.0),
        call_ensures(VcpuCreation::advance::<B>, (first, 0), CreateProgress::Continue(second)),
        call_ensures(VcpuCreation::action, (&second,), calls.1),
        call_ensures(VcpuCreation::advance::<B>, (second, hr), outcome),
    ensures
        calls.0 matches CreateAction::CreateVirtualProcessor { index } && index == id,
        calls.1 is CreateEmulator,
        hr == 0 ==> (outcome matches CreateProgress::Ready(vcpu) && vcpu.id() == id && vcpu.index()
            == id && vcpu.io_bus() is None && vcpu.mmio_bus() is None),
        hr != 0 ==> outcome == CreateProgress::<B>::Failed(Error::CreateEmulator(hr)),
{
}

/// A failed first call ends the creation with the processor's error.
pub proof fn failed_processor_is_not_created<B>(
    id: u8,
    first: VcpuCreation,
    hr: i32,
    outcome: CreateProgress<B>,
)
    requires
        call_ensures(Vcpu::<B>::new_x86_64, (id,), first),
        call_ensures(VcpuCreation::advance::<B>, (first, hr), outcome),
    ensures
        outcome is Failed <==> hr != 0,
        outcome matches CreateProgress::Failed(e) ==> e == Error::CreateVirtualProcessor(hr),
{
}

/// An access of the instruction emulator reaches the bus of its kind as the
/// guest made it: at the address, for as many bytes, and as a write for any
/// direction but zero. There is none exactly if that bus is not set.
pub proof fn accesses_reach_their_bus<B>(
    vcpu: Vcpu<B>,
    direction: u8,
    port: u16,
    gpa: u64,
    port_size: u16,
    size: u8,
    io: Option<(&B, BusAccess)>,
    memory: Option<(&B, BusAccess)>,
)
    requires
        call_ensures(Vcpu::<B>::io_port_access, (&vcpu, direction, port, port_size), io),
        call_ensures(Vcpu::<B>::memory_access, (&vcpu, direction, gpa, size), memory),
    ensures
        io is None <==> vcpu.io_bus() is None,
        memory is None <==> vcpu.mmio_bus() is None,
        io matches Some((bus, a)) ==> *bus == vcpu.io_bus()->0 && a.addr == port && a.len
            == port_size && (a.write <==> direction > 0) && a.vcpu == vcpu.index(),
        memory matches Some((bus, a)) ==> *bus == vcpu.mmio_bus()->0 && a.addr == gpa && a.len
            == size && (a.write <==> direction > 0) && a.vcpu == vcpu.index(),
{
}

/// A thread holds one processor at a time: one that joins a free slot holds
/// it, another one is refused, and only the holder can leave.
pub proof fn slots_are_taken_and_left(
    slot: &mut Option<usize>,
    held: &mut Option<usize>,
    vcpu: usize,
    leaver: usize,
    joined: Result<(), Error>,
    left: Result<(), Error>,
)
    requires
        call_ensures(init_thread_local_data, (slot, vcpu), joined),
        call_ensures(reset_thread_local_data, (held, leaver), left),
        *old(held) == *final(slot),
    ensures
        joined is Ok <==> *old(slot) is None,
        joined is Ok ==> *final(slot) == Some(vcpu),
        joined matches Err(e) ==> e == Error::VcpuTlsInit && *final(slot) == *old(slot),
        left is Ok <==> *old(held) == Some(leaver),
        left is Ok ==> *final(held) is None,
        left matches Err(e) ==> e == Error::VcpuTlsNotPresent && *final(held) == *old(held),
        joined is Ok ==> (left is Ok <==> leaver == vcpu),
{
}

/// A processor that is configured to boot a kernel enters it at its address:
/// of the registers to set exactly one is the instruction pointer, and its
/// value is the entry address itself. The first gibibyte is mapped to itself,
/// and memory outside the boot tables is left alone.
pub proof fn configured_processor_enters_the_kernel<B>(
    vcpu: Vcpu<B>,
    guest_mem: &mut GuestMemoryMmap<()>,
    entry: u64,
    config: VcpuConfig,
    kernel_boot: bool,
    list: Option<Vec<RegisterWrite>>,
    va: u64,
    a: u64,
)
    requires
        call_ensures(
            Vcpu::<B>::configure_x86_64,
            (&vcpu, guest_mem, entry, &config, kernel_boot),
            Ok(list),
        ),
        va < 0x4000_0000,
        guest_memory::guest_bytes(*old(guest_mem)).contains_key(a),
        !boot::in_boot_tables(a),
    ensures
        list is Some <==> kernel_boot,
        list matches Some(l) ==> {
            &&& boot::sets_once(l@, RegisterName::Rip, RegisterValue::Reg64(entry))
            &&& boot::sets_once(l@, RegisterName::Rsi, RegisterValue::Reg64(0x7000))
            &&& boot::sets_once(l@, RegisterName::Cr3, RegisterValue::Reg64(0x9000))
            &&& boot::translated(guest_memory::guest_bytes(*final(guest_mem)), 0x9000, va) == Some(
                va as int,
            )
        },
        guest_memory::guest_bytes(*final(guest_mem))[a] == guest_memory::guest_bytes(
            *old(guest_mem),
        )[a],
{
    if let Some(l) = list {
        let bytes = guest_memory::guest_bytes(*old(guest_mem));
        assert(boot::is_only_write(l@, 0, RegisterName::Rip, RegisterValue::Reg64(entry)));
        assert(boot::is_only_write(l@, 4, RegisterName::Rsi, RegisterValue::Reg64(0x7000)));
        assert(boot::is_only_write(l@, 6, RegisterName::Cr3, RegisterValue::Reg64(0x9000)));
        boot::first_gibibyte_is_identity_mapped(bytes, va);
        boot::boot_tables_touch_nothing_else(bytes, a);
    }
}

/// The name of a processor's thread ends with the processor's number.
pub proof fn threads_are_named_by_number<B>(vcpu: Vcpu<B>, name: String)
    requires
        call_ensures(Vcpu::<B>::thread_name, (&vcpu,), name),
    ensures
        name@.len() > 8,
        text::is_number(name@.skip(8), 10),
        text::number(name@.skip(8), 10) == vcpu.id(),
{
    reveal_strlit("fc_vcpu ");
    text::digits_stand_for_their_number(vcpu.id() as nat);
    assert(name@.skip(8) =~= text::digits(vcpu.id() as nat));
}

/// An exit is handled by what it asks for: memory and port accesses by the
/// emulator, CPUID and model specific registers by setting registers, an
/// interrupt's end and window by nothing; a halt and a cancelled run stop the
/// guest, and every other exit is an error that holds its number.
pub proof fn exits_are_handled_by_reason(ctx: ExitContext, r: Result<ExitStep, Error>)
    requires
        call_ensures(handle_exit, (&ctx,), r),
        rip_in_range(ctx),
    ensures
        r matches Ok(step) ==> {
            &&& step is EmulateMmio <==> ctx.exit_reason == 1
            &&& step is EmulateIo <==> ctx.exit_reason == 2
            &&& step is SetRegisters <==> ctx.exit_reason == 4096 || ctx.exit_reason == 4097
            &&& step == ExitStep::Done(VcpuEmulation::Stopped) <==> ctx.exit_reason == 8
                || ctx.exit_reason == 8193
            &&& step == ExitStep::Done(VcpuEmulation::Handled) <==> ctx.exit_reason == 9
                || ctx.exit_reason == 7
        },
        r is Err ==> !(ctx.exit_reason == 1 || ctx.exit_reason == 2 || 7 <= ctx.exit_reason <= 9
            || ctx.exit_reason == 4096 || ctx.exit_reason == 4097 || ctx.exit_reason == 8193),
        r matches Err(e) ==> (e matches Error::VcpuUnhandledExit(n) && (n == ctx.exit_reason || n
            == ctx.exit_reason + 0x1_0000_0000)),
{
}

/// The loop runs on exactly if an exit was handled, and ends with code 0
/// exactly if the guest stopped; an error ends it with code 1 and is handed on.
pub proof fn loop_runs_while_exits_are_handled(r: Result<VcpuEmulation, Error>, action: VcpuAction)
    requires
        call_ensures(run, (r,), action),
    ensures
        r == Ok::<VcpuEmulation, Error>(VcpuEmulation::Handled) ==> action is Run,
        r == Ok::<VcpuEmulation, Error>(VcpuEmulation::Stopped) ==> action == (VcpuAction::Exit {
            code: 0,
            error: None,
        }),
        r matches Err(e) ==> action == (VcpuAction::Exit { code: 1, error: Some(e) }),
{
}

/// A processor's buses are set one by one and keep its numbers.
pub proof fn buses_are_set_one_by_one<B>(
    a: &mut Vcpu<B>,
    b: &mut Vcpu<B>,
    mmio: B,
    io: B,
    id: u8,
    index: u32,
)
    requires
        call_ensures(Vcpu::<B>::set_mmio_bus, (a, mmio), ()),
        call_ensures(Vcpu::<B>::set_io_bus, (b, io), ()),
        *old(b) == *final(a),
        call_ensures(Vcpu::<B>::cpu_index, (&*final(b),), id),
        call_ensures(Vcpu::<B>::whpx_index, (&*final(b),), index),
    ensures
        final(b).mmio_bus() == Some(mmio),
        final(b).io_bus() == Some(io),
        final(a).io_bus() == old(a).io_bus(),
        id == old(a).id(),
        index == old(a).index(),
{
}

/// Where memory backs the boot tables, the configuration succeeds; without a
/// kernel to boot memory is not touched.
pub proof fn configuration_succeeds_with_room_for_the_tables<B>(
    vcpu: Vcpu<B>,
    guest_mem: &mut GuestMemoryMmap<()>,
    entry: u64,
    config: VcpuConfig,
    kernel_boot: bool,
    r: Result<Option<Vec<RegisterWrite>>, Error>,
)
    requires
        call_ensures(
            Vcpu::<B>::configure_x86_64,
            (&vcpu, guest_mem, entry, &config, kernel_boot),
            r,
        ),
        forall|a: u64| #[trigger]
            boot::in_boot_tables(a) ==> guest_memory::guest_bytes(*old(guest_mem)).contains_key(a),
    ensures
        r is Ok,
        !kernel_boot ==> *final(guest_mem) == *old(guest_mem),
{
    let bytes = guest_memory::guest_bytes(*old(guest_mem));
    let writes = boot::boot_writes();
    assert forall|j: int| 0 <= j < writes.len() implies guest_memory::backed(
        bytes,
        (#[trigger] writes[j]).0,
    ) by {
        assert(writes[j] == boot::boot_write(j));
        assert forall|a: u64| writes[j].0 <= a < writes[j].0 + 8 implies #[trigger]
            bytes.contains_key(a) by {
            assert(boot::in_boot_tables(a));
        }
    }
}

/// A configuration fails only for an address of the boot tables that memory
/// does not back, with the error of the write there, and leaves memory outside
/// the tables alone.
pub proof fn configuration_fails_for_want_of_memory<B>(
    vcpu: Vcpu<B>,
    guest_mem: &mut GuestMemoryMmap<()>,
    entry: u64,
    config: VcpuConfig,
    kernel_boot: bool,
    e: Error,
    a: u64,
)
    requires
        call_ensures(
            Vcpu::<B>::configure_x86_64,
            (&vcpu, guest_mem, entry, &config, kernel_boot),
            Err(e),
        ),
        guest_memory::guest_bytes(*old(guest_mem)).contains_key(a),
        !boot::in_boot_tables(a),
    ensures
        kernel_boot,
        exists|addr: u64| #[trigger]
            boot::in_boot_tables(addr) && !guest_memory::backed(
                guest_memory::guest_bytes(*old(guest_mem)),
                addr,
            ) && e == Error::GuestMemoryMmap(
                guest_memory::write_failure(
                    guest_memory::guest_bytes(*old(guest_mem)).dom(),
                    addr,
                ),
            ),
        guest_memory::guest_bytes(*final(guest_mem))[a] == guest_memory::guest_bytes(
            *old(guest_mem),
        )[a],
{
    let before = guest_memory::guest_bytes(*old(guest_mem));
    let after = guest_memory::guest_bytes(*final(guest_mem));
    let n = choose|n: int| #[trigger]
        boot::stopped_at(before, after, boot::boot_writes(), n) && e == Error::GuestMemoryMmap(
            guest_memory::write_failure(before.dom(), boot::boot_writes()[n].0),
        );
    boot::stopped_tables_touch_nothing_else(before, after, n, a);
    assert(boot::in_boot_tables(boot::boot_writes()[n].0));
}

} // verus!
