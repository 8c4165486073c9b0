//! Errors of the hypervisor backend.
use crate::text::{push_decimal, push_hex8};
use crate::utils::os_error::OsError;
use vm_memory::GuestMemoryError;
use vstd::prelude::*;

verus! {

/// The result code of a hypervisor call that succeeded.
pub const S_OK: i32 = 0;

/// `vm_memory::GuestMemoryError`, which says why an access to guest memory
/// failed. It is carried along unread.
#[verifier::external_type_specification]
#[verifier::external_body]
pub struct ExGuestMemoryError(GuestMemoryError);

/// Errors associated with the hypervisor backend.
#[derive(Debug)]
pub enum Error {
    /// The hypervisor refused to create a partition.
    CreatePartition(i32),
    /// Failed to set a partition property.
    SetPartitionProperty(i32),
    /// Failed to finalise the partition setup.
    SetupPartition(i32),
    /// Failed to map a guest physical address range.
    MapGpaRange(i32),
    /// Failed to unmap a guest physical address range.
    UnmapGpaRange(i32),
    /// Failed to create a virtual processor.
    CreateVirtualProcessor(i32),
    /// Failed to delete a virtual processor.
    DeleteVirtualProcessor(i32),
    /// Failed to run a virtual processor.
    RunVirtualProcessor(i32),
    /// Failed to get virtual processor registers.
    GetRegisters(i32),
    /// Failed to set virtual processor registers.
    SetRegisters(i32),
    /// Failed to translate a guest virtual address.
    TranslateGva(i32),
    /// Failed to create the instruction emulator.
    CreateEmulator(i32),
    /// IO port emulation failed.
    IoEmulation(i32),
    /// MMIO emulation failed.
    MmioEmulation(i32),
    /// Cannot configure the microvm.
    VmSetup(i32),
    /// Invalid guest memory configuration.
    GuestMemoryMmap(GuestMemoryError),
    /// The number of configured slots exceeds the maximum.
    NotEnoughMemorySlots,
    /// Cannot run the vCPUs.
    VcpuRun,
    /// Cannot cleanly initialise vCPU TLS.
    VcpuTlsInit,
    /// vCPU not present in TLS.
    VcpuTlsNotPresent,
    /// vCPU count is not initialised.
    VcpuCountNotInitialized,
    /// Cannot spawn a new vCPU thread.
    VcpuSpawn(OsError),
    /// Failed to signal vCPU.
    SignalVcpu(OsError),
    /// Unexpected exit reason.
    VcpuUnhandledExit(u32),
}

/// A signed number, such as a result code, as the unsigned number with the
/// same 32 bits.
pub open spec fn hresult_bits(hr: i32) -> u32 {
    if hr < 0 {
        (hr + 0x1_0000_0000) as u32
    } else {
        hr as u32
    }
}

/// `label` followed by the eight hexadecimal digits of the result code.
pub open spec fn with_hresult(label: &str, hr: i32) -> Seq<char> {
    label@ + crate::text::hex8(hresult_bits(hr))
}

/// `text` is the description of `e`. What follows the label of a guest memory
/// error is that error's own description.
pub open spec fn describes(e: Error, text: Seq<char>) -> bool {
    match e {
        Error::CreatePartition(hr) => text == with_hresult(
            "Failed to create WHPX partition: HRESULT 0x",
            hr,
        ),
        Error::SetPartitionProperty(hr) => text == with_hresult(
            "Failed to set partition property: HRESULT 0x",
            hr,
        ),
        Error::SetupPartition(hr) => text == with_hresult(
            "Failed to setup partition: HRESULT 0x",
            hr,
        ),
        Error::MapGpaRange(hr) => text == with_hresult("Failed to map GPA range: HRESULT 0x", hr),
        Error::UnmapGpaRange(hr) => text == with_hresult(
            "Failed to unmap GPA range: HRESULT 0x",
            hr,
        ),
        Error::CreateVirtualProcessor(hr) => text == with_hresult(
            "Failed to create virtual processor: HRESULT 0x",
            hr,
        ),
        Error::DeleteVirtualProcessor(hr) => text == with_hresult(
            "Failed to delete virtual processor: HRESULT 0x",
            hr,
        ),
        Error::RunVirtualProcessor(hr) => text == with_hresult(
            "Failed to run virtual processor: HRESULT 0x",
            hr,
        ),
        Error::GetRegisters(hr) => text == with_hresult("Failed to get registers: HRESULT 0x", hr),
        Error::SetRegisters(hr) => text == with_hresult("Failed to set registers: HRESULT 0x", hr),
        Error::TranslateGva(hr) => text == with_hresult("Failed to translate GVA: HRESULT 0x", hr),
        Error::CreateEmulator(hr) => text == with_hresult(
            "Failed to create emulator: HRESULT 0x",
            hr,
        ),
        Error::IoEmulation(hr) => text == with_hresult("IO emulation failed: HRESULT 0x", hr),
        Error::MmioEmulation(hr) => text == with_hresult("MMIO emulation failed: HRESULT 0x", hr),
        Error::VmSetup(hr) => text == with_hresult("Cannot configure the microvm: HRESULT 0x", hr),
        Error::NotEnoughMemorySlots => text == "Not enough memory slots"@,
        Error::VcpuRun => text == "Cannot run the VCPUs"@,
        Error::VcpuTlsInit => text == "Cannot clean init vcpu TLS"@,
        Error::VcpuTlsNotPresent => text == "Vcpu not present in TLS"@,
        Error::VcpuCountNotInitialized => text == "vCPU count is not initialized"@,
        Error::VcpuSpawn(e) => text == "Cannot spawn a new vCPU thread: "@ + e.text@,
        Error::SignalVcpu(e) => text == "Failed to signal Vcpu: "@ + e.text@,
        Error::GuestMemoryMmap(_) => "Guest memory error: "@.is_prefix_of(text),
        Error::VcpuUnhandledExit(reason) => text == "Unexpected WHPX exit reason: "@
            + crate::text::decimal(reason as int, 0),
    }
}

/// The debugging output of `vm_memory::GuestMemoryError`. Nothing is claimed
/// of the text.
#[verifier::external_body]
fn guest_memory_error_text(e: &GuestMemoryError) -> (text: String) {
    format!("{e:?}")
}

/// A cast keeps the bits.
pub proof fn lemma_bits(hr: i32)
    ensures
        hr as u32 == hresult_bits(hr),
{
    assert(hr < 0 ==> hr as u32 == hr + 0x1_0000_0000) by (bit_vector);
}

/// `label` followed by the eight hexadecimal digits of the result code.
fn hresult_text(label: &str, hr: i32) -> (text: String)
    ensures
        text@ == with_hresult(label, hr),
{
    proof {
        lemma_bits(hr);
    }
    let mut text: String = label.to_owned();
    push_hex8(&mut text, hr as u32);
    text
}

/// `label` followed by `tail`.
fn joined(label: &str, tail: &str) -> (text: String)
    ensures
        text@ == label@ + tail@,
{
    let mut text: String = label.to_owned();
    text.append(tail);
    text
}

impl Error {
    /// Describes the error in one line.
    pub fn to_string(&self) -> (text: String)
        ensures
            describes(*self, text@),
    {
        match self {
            Error::CreatePartition(hr) => hresult_text(
                "Failed to create WHPX partition: HRESULT 0x",
                *hr,
            ),
            Error::SetPartitionProperty(hr) => hresult_text(
                "Failed to set partition property: HRESULT 0x",
                *hr,
            ),
            Error::SetupPartition(hr) => hresult_text("Failed to setup partition: HRESULT 0x", *hr),
            Error::MapGpaRange(hr) => hresult_text("Failed to map GPA range: HRESULT 0x", *hr),
            Error::UnmapGpaRange(hr) => hresult_text("Failed to unmap GPA range: HRESULT 0x", *hr),
            Error::CreateVirtualProcessor(hr) => hresult_text(
                "Failed to create virtual processor: HRESULT 0x",
                *hr,
            ),
            Error::DeleteVirtualProcessor(hr) => hresult_text(
                "Failed to delete virtual processor: HRESULT 0x",
                *hr,
            ),
            Error::RunVirtualProcessor(hr) => hresult_text(
                "Failed to run virtual processor: HRESULT 0x",
                *hr,
            ),
            Error::GetRegisters(hr) => hresult_text("Failed to get registers: HRESULT 0x", *hr),
            Error::SetRegisters(hr) => hresult_text("Failed to set registers: HRESULT 0x", *hr),
            Error::TranslateGva(hr) => hresult_text("Failed to translate GVA: HRESULT 0x", *hr),
            Error::CreateEmulator(hr) => hresult_text("Failed to create emulator: HRESULT 0x", *hr),
            Error::IoEmulation(hr) => hresult_text("IO emulation failed: HRESULT 0x", *hr),
            Error::MmioEmulation(hr) => hresult_text("MMIO emulation failed: HRESULT 0x", *hr),
            Error::VmSetup(hr) => hresult_text("Cannot configure the microvm: HRESULT 0x", *hr),
            Error::NotEnoughMemorySlots => "Not enough memory slots".to_owned(),
            Error::VcpuRun => "Cannot run the VCPUs".to_owned(),
            Error::VcpuTlsInit => "Cannot clean init vcpu TLS".to_owned(),
            Error::VcpuTlsNotPresent => "Vcpu not present in TLS".to_owned(),
            Error::VcpuCountNotInitialized => "vCPU count is not initialized".to_owned(),
            Error::VcpuSpawn(e) => joined("Cannot spawn a new vCPU thread: ", e.text.as_str()),
            Error::SignalVcpu(e) => joined("Failed to signal Vcpu: ", e.text.as_str()),
            Error::GuestMemoryMmap(e) => {
                let tail: String = guest_memory_error_text(e);
                joined("Guest memory error: ", tail.as_str())
            },
            Error::VcpuUnhandledExit(reason) => {
                let mut text: String = "Unexpected WHPX exit reason: ".to_owned();
                push_decimal(&mut text, *reason as i64, 0);
                text
            },
        }
    }
}

/// Turns the result code of a hypervisor call into a `Result`.
pub fn check_whpx(hr: i32) -> (r: Result<(), i32>)
    ensures
        r == (if hr == S_OK {
            Ok::<(), i32>(())
        } else {
            Err(hr)
        }),
{
    if hr == S_OK {
        Ok(())
    } else {
        Err(hr)
    }
}

/// The result code that an error of a hypervisor call holds.
pub open spec fn code_of(e: Error) -> Option<i32> {
    match e {
        Error::CreatePartition(hr) => Some(hr),
        Error::SetPartitionProperty(hr) => Some(hr),
        Error::SetupPartition(hr) => Some(hr),
        Error::MapGpaRange(hr) => Some(hr),
        Error::UnmapGpaRange(hr) => Some(hr),
        Error::CreateVirtualProcessor(hr) => Some(hr),
        Error::DeleteVirtualProcessor(hr) => Some(hr),
        Error::RunVirtualProcessor(hr) => Some(hr),
        Error::GetRegisters(hr) => Some(hr),
        Error::SetRegisters(hr) => Some(hr),
        Error::TranslateGva(hr) => Some(hr),
        Error::CreateEmulator(hr) => Some(hr),
        Error::IoEmulation(hr) => Some(hr),
        Error::MmioEmulation(hr) => Some(hr),
        Error::VmSetup(hr) => Some(hr),
        _ => None,
    }
}

/// The two errors are of the same kind, and hold a result code.
pub open spec fn same_call(a: Error, b: Error) -> bool {
    match a {
        Error::CreatePartition(_) => b is CreatePartition,
        Error::SetPartitionProperty(_) => b is SetPartitionProperty,
        Error::SetupPartition(_) => b is SetupPartition,
        Error::MapGpaRange(_) => b is MapGpaRange,
        Error::UnmapGpaRange(_) => b is UnmapGpaRange,
        Error::CreateVirtualProcessor(_) => b is CreateVirtualProcessor,
        Error::DeleteVirtualProcessor(_) => b is DeleteVirtualProcessor,
        Error::RunVirtualProcessor(_) => b is RunVirtualProcessor,
        Error::GetRegisters(_) => b is GetRegisters,
        Error::SetRegisters(_) => b is SetRegisters,
        Error::TranslateGva(_) => b is TranslateGva,
        Error::CreateEmulator(_) => b is CreateEmulator,
        Error::IoEmulation(_) => b is IoEmulation,
        Error::MmioEmulation(_) => b is MmioEmulation,
        Error::VmSetup(_) => b is VmSetup,
        _ => false,
    }
}

/// The description of a failed hypervisor call ends with the result code in
/// eight hexadecimal digits, as an unsigned number.
pub proof fn descriptions_end_with_the_code(e: Error, text: String)
    requires
        call_ensures(Error::to_string, (&e,), text),
        code_of(e) is Some,
    ensures
        text@.len() > 8,
        ({
            let s = text@.skip(text@.len() - 8);
            let hr = code_of(e)->0;
            &&& crate::text::is_number(s, 16)
            &&& crate::text::number(s, 16) == if hr < 0 {
                hr + 0x1_0000_0000
            } else {
                hr as int
            }
        }),
{
    let hr = code_of(e)->0;
    crate::text::hex8_stands_for_its_number(hresult_bits(hr));
    reveal_strlit("Failed to create WHPX partition: HRESULT 0x");
    reveal_strlit("Failed to set partition property: HRESULT 0x");
    reveal_strlit("Failed to setup partition: HRESULT 0x");
    reveal_strlit("Failed to map GPA range: HRESULT 0x");
    reveal_strlit("Failed to unmap GPA range: HRESULT 0x");
    reveal_strlit("Failed to create virtual processor: HRESULT 0x");
    reveal_strlit("Failed to delete virtual processor: HRESULT 0x");
    reveal_strlit("Failed to run virtual processor: HRESULT 0x");
    reveal_strlit("Failed to get registers: HRESULT 0x");
    reveal_strlit("Failed to set registers: HRESULT 0x");
    reveal_strlit("Failed to translate GVA: HRESULT 0x");
    reveal_strlit("Failed to create emulator: HRESULT 0x");
    reveal_strlit("IO emulation failed: HRESULT 0x");
    reveal_strlit("MMIO emulation failed: HRESULT 0x");
    reveal_strlit("Cannot configure the microvm: HRESULT 0x");
    assert(text@.skip(text@.len() - 8) =~= crate::text::hex8(hresult_bits(hr)));
}

/// Descriptions of failures of the same call differ in the code alone.
pub proof fn descriptions_differ_in_the_code_alone(a: Error, b: Error, x: String, y: String)
    requires
        call_ensures(Error::to_string, (&a,), x),
        call_ensures(Error::to_string, (&b,), y),
        same_call(a, b),
    ensures
        x@.len() == y@.len(),
        x@.take(x@.len() - 8) == y@.take(y@.len() - 8),
        x@ == y@ <==> code_of(a) == code_of(b),
{
    descriptions_end_with_the_code(a, x);
    descriptions_end_with_the_code(b, y);
    let s = crate::text::hex8(hresult_bits(code_of(a)->0));
    let t = crate::text::hex8(hresult_bits(code_of(b)->0));
    crate::text::hex8_stands_for_its_number(hresult_bits(code_of(a)->0));
    crate::text::hex8_stands_for_its_number(hresult_bits(code_of(b)->0));
    assert(x@.skip(x@.len() - 8) =~= s);
    assert(y@.skip(y@.len() - 8) =~= t);
    assert(x@.take(x@.len() - 8) =~= y@.take(y@.len() - 8));
}

/// A description without a result code ends with what the error holds: the
/// text of the operating system, or the number of the exit in decimal.
pub proof fn descriptions_end_with_the_cause(e: Error, text: String)
    requires
        call_ensures(Error::to_string, (&e,), text),
    ensures
        e matches Error::VcpuSpawn(os) ==> text@.skip(text@.len() - os.text@.len()) == os.text@,
        e matches Error::SignalVcpu(os) ==> text@.skip(text@.len() - os.text@.len()) == os.text@,
        e matches Error::VcpuUnhandledExit(reason) ==> text@.len() > 29 && crate::text::is_number(
            text@.skip(29),
            10,
        ) && crate::text::number(text@.skip(29), 10) == reason,
{
    match e {
        Error::VcpuSpawn(os) => {
            assert(text@.skip(text@.len() - os.text@.len()) =~= os.text@);
        },
        Error::SignalVcpu(os) => {
            assert(text@.skip(text@.len() - os.text@.len()) =~= os.text@);
        },
        Error::VcpuUnhandledExit(reason) => {
            reveal_strlit("Unexpected WHPX exit reason: ");
            crate::text::digits_stand_for_their_number(reason as nat);
            assert(crate::text::decimal(reason as int, 0) =~= crate::text::digits(reason as nat));
            assert(text@.skip(29) =~= crate::text::digits(reason as nat));
        },
        _ => {},
    }
}

/// A call succeeded exactly if its result code is zero; any other one is
/// handed on.
pub proof fn calls_succeed_with_zero(hr: i32, r: Result<(), i32>)
    requires
        call_ensures(check_whpx, (hr,), r),
    ensures
        r is Ok <==> hr == 0,
        r matches Err(code) ==> code == hr,
{
}

} // verus!
