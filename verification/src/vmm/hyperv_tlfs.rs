//! Constants of the interface that Hyper-V guests expect.
use vstd::prelude::*;

verus! {

/// CPUID Leaf Range Register.
pub const HYPERV_CPUID_VENDOR_AND_MAX_FUNCTIONS: u32 = 0x40000000;

/// Start of CPUID information for Hyper-V.
pub const HYPERV_CPUID_MIN: u32 = 0x40000005;

/// Hypervisor Feature Identification Register.
pub const HYPERV_CPUID_FEATURES: u32 = 0x40000003;

/// Feature for Frequency MSR availability.
pub const HV_FEATURE_FREQUENCY_MSRS_AVAILABLE: u32 = 0x100;

/// Privilege bit for partition reference TSC register.
pub const HV_MSR_REFERENCE_TSC_AVAILABLE: u32 = 0x200;

/// Privilege bit showing Partition Local APIC and TSC frequency registers availability.
pub const HV_ACCESS_FREQUENCY_MSRS: u32 = 0x800;

/// Privilege bit for AccessTscInvariantControls.
pub const HV_ACCESS_TSC_INVARIANT: u32 = 0x8000;

/// The MSR that controls the invariant TSC.
pub const HV_X64_MSR_TSC_INVARIANT_CONTROL: u32 = 0x40000118;

/// The MSR that holds the APIC frequency.
pub const HV_X64_MSR_APIC_FREQUENCY: u32 = 0x40000023;

/// The MSR that holds the TSC frequency.
pub const HV_X64_MSR_TSC_FREQUENCY: u32 = 0x40000022;

} // verus!
