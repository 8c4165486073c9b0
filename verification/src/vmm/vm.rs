//! The partition: how it is set up and how guest memory is mapped into it.
use crate::bytes;
use crate::vmm::error::{Error, S_OK};
use crate::vmm::guest_memory;
use crate::vmm::hyperv_tlfs::{
    HV_ACCESS_FREQUENCY_MSRS, HV_ACCESS_TSC_INVARIANT, HV_FEATURE_FREQUENCY_MSRS_AVAILABLE,
    HV_MSR_REFERENCE_TSC_AVAILABLE, HYPERV_CPUID_FEATURES, HYPERV_CPUID_MIN,
    HYPERV_CPUID_VENDOR_AND_MAX_FUNCTIONS,
};
use vm_memory::GuestMemoryMmap;
use vstd::prelude::*;

verus! {

/// Guest accesses to a mapped range that are allowed: read, write, execute.
pub const MAP_READ_WRITE_EXECUTE: i32 = 7;

/// What a processor answers to CPUID for one leaf.
#[derive(Clone, Copy, PartialEq, Eq, Structural, Debug)]
pub struct CpuidResult {
    pub function: u32,
    pub eax: u32,
    pub ebx: u32,
    pub ecx: u32,
    pub edx: u32,
}

/// A property that a partition gets before it is set up.
#[derive(Debug)]
pub enum PartitionProperty {
    /// The number of virtual processors.
    ProcessorCount(u32),
    /// CPUID leaves with fixed answers.
    CpuidResultList(Vec<CpuidResult>),
    /// CPUID leaves that leave the processor.
    CpuidExitList(Vec<u32>),
    /// Instructions that leave the processor, one bit each.
    ExtendedVmExits(u64),
    /// How the local interrupt controllers are emulated.
    LocalApicEmulationMode(i32),
}

/// A call to make in order to set up a partition.
#[derive(Debug)]
pub enum SetupAction {
    CreatePartition,
    SetProperty(PartitionProperty),
    SetupPartition,
}

/// The leaf that names the hypervisor as "Microsoft Hv".
pub open spec fn vendor_leaf() -> CpuidResult {
    CpuidResult {
        function: HYPERV_CPUID_VENDOR_AND_MAX_FUNCTIONS,
        eax: HYPERV_CPUID_MIN,
        ebx: bytes::word_of('M' as u8, 'i' as u8, 'c' as u8, 'r' as u8) as u32,
        ecx: bytes::word_of('o' as u8, 's' as u8, 'o' as u8, 'f' as u8) as u32,
        edx: bytes::word_of('t' as u8, ' ' as u8, 'H' as u8, 'v' as u8) as u32,
    }
}

/// The leaf that announces the synthetic features.
pub open spec fn features_leaf() -> CpuidResult {
    CpuidResult {
        function: HYPERV_CPUID_FEATURES,
        eax: (HV_ACCESS_FREQUENCY_MSRS + HV_ACCESS_TSC_INVARIANT
            + HV_MSR_REFERENCE_TSC_AVAILABLE) as u32,
        ebx: 0,
        ecx: 0,
        edx: HV_FEATURE_FREQUENCY_MSRS_AVAILABLE,
    }
}

/// The CPUID leaves whose answers depend on the processor.
pub open spec fn exit_leaves() -> Seq<u32> {
    seq![0x1, 0x4, 0xB, 0x1F, 0x15]
}

/// `action` is call number `step` of setting up a partition for `num_cpus`
/// processors.
pub open spec fn is_setup_action(step: int, num_cpus: u32, action: SetupAction) -> bool {
    match action {
        SetupAction::CreatePartition => step == 0,
        SetupAction::SetProperty(PartitionProperty::ProcessorCount(n)) => step == 1 && n
            == num_cpus,
        SetupAction::SetProperty(PartitionProperty::CpuidResultList(leaves)) => step == 2
            && leaves@ == seq![vendor_leaf(), features_leaf()],
        SetupAction::SetProperty(PartitionProperty::CpuidExitList(leaves)) => step == 3 && leaves@
            == exit_leaves(),
        SetupAction::SetProperty(PartitionProperty::ExtendedVmExits(bits)) => step == 4 && bits
            == 3,
        SetupAction::SetProperty(PartitionProperty::LocalApicEmulationMode(mode)) => step == 5
            && mode == 1,
        SetupAction::SetupPartition => step == 6,
    }
}

/// The error that a failing call number `step` amounts to.
pub open spec fn setup_error(step: int, hr: i32) -> Error {
    if step == 0 {
        Error::CreatePartition(hr)
    } else if step < 6 {
        Error::SetPartitionProperty(hr)
    } else {
        Error::SetupPartition(hr)
    }
}

/// A partition representing the virtual machine.
#[derive(Debug)]
pub struct Vm {
    partition: isize,
}

/// A partition that is being set up.
#[derive(Debug)]
pub struct PartitionSetup {
    num_cpus: u32,
    step: u8,
    partition: isize,
}

/// What follows a call that was made to set up a partition.
#[derive(Debug)]
pub enum SetupProgress {
    /// There is another call to make.
    Continue(PartitionSetup),
    /// The partition is ready.
    Ready(Vm),
    /// The setup failed. A partition that exists by now has to be deleted.
    Failed { error: Error, delete: Option<isize> },
}

/// `progress` follows call number `setup.step()` with the result code `hr`;
/// `handle` is the handle that the first call filled in.
pub open spec fn setup_advanced(
    setup: PartitionSetup,
    hr: i32,
    handle: isize,
    progress: SetupProgress,
) -> bool {
    match progress {
        SetupProgress::Continue(next) => {
            &&& hr == S_OK
            &&& setup.step() < 6
            &&& next.wf()
            &&& next.step() == setup.step() + 1
            &&& next.num_cpus() == setup.num_cpus()
            &&& next.partition() == if setup.step() == 0 {
                handle
            } else {
                setup.partition()
            }
        },
        SetupProgress::Ready(vm) => hr == S_OK && setup.step() == 6 && vm.handle()
            == setup.partition(),
        SetupProgress::Failed { error, delete } => {
            &&& hr != S_OK
            &&& error == setup_error(setup.step(), hr)
            &&& delete == if setup.step() == 0 {
                None
            } else {
                Some(setup.partition())
            }
        },
    }
}

impl PartitionSetup {
    /// The number of the next call.
    pub closed spec fn step(&self) -> int {
        self.step as int
    }

    /// The number of virtual processors.
    pub closed spec fn num_cpus(&self) -> u32 {
        self.num_cpus
    }

    /// The handle of the partition, once it exists.
    pub closed spec fn partition(&self) -> isize {
        self.partition
    }

    /// There is a next call.
    pub open spec fn wf(&self) -> bool {
        0 <= self.step() <= 6
    }

    /// The next call to make.
    pub fn action(&self) -> (action: SetupAction)
        requires
            self.wf(),
        ensures
            is_setup_action(self.step(), self.num_cpus(), action),
    {
        if self.step == 0 {
            SetupAction::CreatePartition
        } else if self.step == 1 {
            SetupAction::SetProperty(PartitionProperty::ProcessorCount(self.num_cpus))
        } else if self.step == 2 {
            SetupAction::SetProperty(PartitionProperty::CpuidResultList(cpuid_results()))
        } else if self.step == 3 {
            let leaves: Vec<u32> = vec![0x1, 0x4, 0xB, 0x1F, 0x15];
            assert(leaves@ =~= exit_leaves());
            SetupAction::SetProperty(PartitionProperty::CpuidExitList(leaves))
        } else if self.step == 4 {
            proof {
                assert((1u64 << 0) | (1u64 << 1) == 3u64) by (bit_vector);
            }
            SetupAction::SetProperty(PartitionProperty::ExtendedVmExits((1u64 << 0) | (1u64 << 1)))
        } else if self.step == 5 {
            SetupAction::SetProperty(PartitionProperty::LocalApicEmulationMode(1))
        } else {
            SetupAction::SetupPartition
        }
    }

    /// Takes note of the result code of the call, and of the partition's
    /// handle if the call was to create it.
    pub fn advance(self, hr: i32, handle: isize) -> (progress: SetupProgress)
        requires
            self.wf(),
        ensures
            setup_advanced(self, hr, handle, progress),
    {
        if hr != S_OK {
            if self.step == 0 {
                SetupProgress::Failed { error: Error::CreatePartition(hr), delete: None }
            } else if self.step < 6 {
                SetupProgress::Failed {
                    error: Error::SetPartitionProperty(hr),
                    delete: Some(self.partition),
                }
            } else {
                SetupProgress::Failed {
                    error: Error::SetupPartition(hr),
                    delete: Some(self.partition),
                }
            }
        } else if self.step == 6 {
            SetupProgress::Ready(Vm { partition: self.partition })
        } else {
            SetupProgress::Continue(
                PartitionSetup {
                    num_cpus: self.num_cpus,
                    step: self.step + 1,
                    partition: if self.step == 0 {
                        handle
                    } else {
                        self.partition
                    },
                },
            )
        }
    }
}

/// The CPUID leaves with fixed answers.
fn cpuid_results() -> (leaves: Vec<CpuidResult>)
    ensures
        leaves@ == seq![vendor_leaf(), features_leaf()],
{
    proof {
        assert(0x800u32 | 0x8000u32 | 0x200u32 == 0x8a00u32) by (bit_vector);
    }
    let leaves: Vec<CpuidResult> = vec![
        CpuidResult {
            function: HYPERV_CPUID_VENDOR_AND_MAX_FUNCTIONS,
            eax: HYPERV_CPUID_MIN,
            ebx: bytes::le_word(0x4d, 0x69, 0x63, 0x72),
            ecx: bytes::le_word(0x6f, 0x73, 0x6f, 0x66),
            edx: bytes::le_word(0x74, 0x20, 0x48, 0x76),
        },
        CpuidResult {
            function: HYPERV_CPUID_FEATURES,
            eax: HV_ACCESS_FREQUENCY_MSRS | HV_ACCESS_TSC_INVARIANT
                | HV_MSR_REFERENCE_TSC_AVAILABLE,
            ebx: 0,
            ecx: 0,
            edx: HV_FEATURE_FREQUENCY_MSRS_AVAILABLE,
        },
    ];
    assert(leaves@ =~= seq![vendor_leaf(), features_leaf()]);
    leaves
}

/// A range of guest physical addresses to map to host memory.
#[derive(Clone, Copy, PartialEq, Eq, Structural, Debug)]
pub struct MapRequest {
    pub host_addr: u64,
    pub guest_addr: u64,
    pub len: u64,
    pub flags: i32,
}

/// A range of guest physical addresses to unmap.
#[derive(Clone, Copy, PartialEq, Eq, Structural, Debug)]
pub struct UnmapRequest {
    pub guest_addr: u64,
    pub len: u64,
}

/// The requests map exactly the backed addresses, each once.
pub open spec fn maps_exactly(bytes: Map<u64, u8>, requests: Seq<MapRequest>) -> bool {
    &&& forall|a: u64| #[trigger]
        bytes.contains_key(a) <==> exists|i: int|
            0 <= i < requests.len() && (#[trigger] requests[i]).guest_addr <= a
                < requests[i].guest_addr + requests[i].len
    &&& forall|i: int, j: int|
        0 <= i < j < requests.len() ==> (#[trigger] requests[i]).guest_addr + requests[i].len <= (
        #[trigger] requests[j]).guest_addr
}

impl Vm {
    /// The partition's handle.
    pub closed spec fn handle(&self) -> isize {
        self.partition
    }

    /// Begins to set up a partition with the given number of processors. The
    /// calls are: create the partition, set the processor count, the fixed
    /// CPUID answers, the CPUID leaves and the instructions that leave the
    /// processor and the interrupt controller mode, and finish the setup.
    pub fn new(num_cpus: u32) -> (setup: PartitionSetup)
        ensures
            setup.wf(),
            setup.step() == 0,
            setup.num_cpus() == num_cpus,
    {
        PartitionSetup { num_cpus, step: 0, partition: 0 }
    }

    /// Returns the handle of the partition.
    pub fn partition_handle(&self) -> (handle: isize)
        ensures
            handle == self.handle(),
    {
        self.partition
    }

    /// Returns the ranges to map so that the guest sees all of `guest_mem`,
    /// one for each region and in their order. The host addresses are where
    /// the regions lie in this process.
    pub fn memory_init(&self, guest_mem: &GuestMemoryMmap<()>) -> (requests: Vec<MapRequest>)
        ensures
            requests@.len() == guest_memory::guest_regions(*guest_mem).len(),
            forall|i: int|
                0 <= i < requests@.len() ==> (
                    (#[trigger] requests@[i]).guest_addr,
                    requests@[i].len,
                ) == guest_memory::guest_regions(*guest_mem)[i],
            maps_exactly(guest_memory::guest_bytes(*guest_mem), requests@),
            forall|i: int|
                0 <= i < requests@.len() ==> (#[trigger] requests@[i]).flags
                    == MAP_READ_WRITE_EXECUTE && requests@[i].len > 0,
    {
        let regions: Vec<(u64, u64, u64)> = guest_memory::regions(guest_mem);
        let requests: Vec<MapRequest> = map_requests(&regions);
        proof {
            let held = guest_memory::guest_bytes(*guest_mem);
            assert forall|a: u64| #[trigger]
                held.contains_key(a) <==> exists|k: int|
                    0 <= k < requests@.len() && (#[trigger] requests@[k]).guest_addr <= a
                        < requests@[k].guest_addr + requests@[k].len by {
                if held.contains_key(a) {
                    let k = choose|k: int|
                        0 <= k < regions@.len() && (#[trigger] regions@[k]).1 <= a < regions@[k].1
                            + regions@[k].2;
                    assert(requests@[k].guest_addr <= a);
                }
                if exists|k: int|
                    0 <= k < requests@.len() && (#[trigger] requests@[k]).guest_addr <= a
                        < requests@[k].guest_addr + requests@[k].len {
                    let k = choose|k: int|
                        0 <= k < requests@.len() && (#[trigger] requests@[k]).guest_addr <= a
                            < requests@[k].guest_addr + requests@[k].len;
                    assert(regions@[k].1 <= a);
                }
            }
            assert forall|p: int, q: int| 0 <= p < q < requests@.len() implies (
            #[trigger] requests@[p]).guest_addr + requests@[p].len <= (
            #[trigger] requests@[q]).guest_addr by {
                assert(regions@[p].1 + regions@[p].2 <= regions@[q].1);
            }
            assert forall|i: int| 0 <= i < requests@.len() implies (
            (#[trigger] requests@[i]).guest_addr, requests@[i].len) == guest_memory::guest_regions(
                *guest_mem,
            )[i] && requests@[i].len > 0 by {
                assert(0 < regions@[i].2);
            }
        }
        requests
    }

    /// Returns the two calls that put a host region into the guest's address
    /// space. The first removes what may be mapped there; its failure does
    /// not matter.
    pub fn add_mapping(&self, host_addr: u64, guest_addr: u64, len: u64) -> (calls: (
        UnmapRequest,
        MapRequest,
    ))
        ensures
            calls.0 == (UnmapRequest { guest_addr, len }),
            calls.1 == (MapRequest { host_addr, guest_addr, len, flags: MAP_READ_WRITE_EXECUTE }),
    {
        (
            UnmapRequest { guest_addr, len },
            MapRequest { host_addr, guest_addr, len, flags: MAP_READ_WRITE_EXECUTE },
        )
    }

    /// Returns the call that removes a mapping.
    pub fn remove_mapping(&self, guest_addr: u64, len: u64) -> (call: UnmapRequest)
        ensures
            call == (UnmapRequest { guest_addr, len }),
    {
        UnmapRequest { guest_addr, len }
    }
}

/// The requests to map regions, given as host address, start and length, for
/// every kind of access.
pub fn map_requests(regions: &Vec<(u64, u64, u64)>) -> (requests: Vec<MapRequest>)
    ensures
        requests@ == Seq::new(
            regions@.len(),
            |i: int|
                (MapRequest {
                    host_addr: regions@[i].0,
                    guest_addr: regions@[i].1,
                    len: regions@[i].2,
                    flags: MAP_READ_WRITE_EXECUTE,
                }),
        ),
{
    let mut requests: Vec<MapRequest> = Vec::new();
    let mut i: usize = 0;
    while i < regions.len()
        invariant
            i <= regions@.len(),
            requests@.len() == i,
            forall|k: int|
                0 <= k < i ==> #[trigger] requests@[k] == (MapRequest {
                    host_addr: regions@[k].0,
                    guest_addr: regions@[k].1,
                    len: regions@[k].2,
                    flags: MAP_READ_WRITE_EXECUTE,
                }),
        decreases regions@.len() - i,
    {
        let (host_addr, guest_addr, len) = regions[i];
        requests.push(MapRequest { host_addr, guest_addr, len, flags: MAP_READ_WRITE_EXECUTE });
        i = i + 1;
    }
    assert(requests@ =~= Seq::new(
        regions@.len(),
        |i: int|
            (MapRequest {
                host_addr: regions@[i].0,
                guest_addr: regions@[i].1,
                len: regions@[i].2,
                flags: MAP_READ_WRITE_EXECUTE,
            }),
    ));
    requests
}

/// What follows while initial memory is mapped.
#[derive(Debug)]
pub enum MappingStep {
    /// Map this range.
    MapRange(MapRequest),
    /// All of memory is mapped.
    Done,
    /// A range could not be mapped; those before it stay mapped and those
    /// after it are not tried.
    Failed(Error),
}

/// What follows once the first `done` requests were made, the last of them
/// with the result code `hr`.
pub open spec fn step_after(requests: Seq<MapRequest>, done: int, hr: i32) -> MappingStep {
    if hr != S_OK {
        MappingStep::Failed(Error::MapGpaRange(hr))
    } else if done < requests.len() {
        MappingStep::MapRange(requests[done])
    } else {
        MappingStep::Done
    }
}

/// What follows once the first `done` requests were made, the last of them
/// with the result code `hr`; before the first one `hr` is that of a success.
pub fn mapping_step(requests: &Vec<MapRequest>, done: usize, hr: i32) -> (step: MappingStep)
    requires
        done <= requests@.len(),
    ensures
        step == step_after(requests@, done as int, hr),
{
    if hr != S_OK {
        MappingStep::Failed(Error::MapGpaRange(hr))
    } else if done < requests.len() {
        MappingStep::MapRange(requests[done])
    } else {
        MappingStep::Done
    }
}

/// Mapping is done exactly when every request was made and succeeded. It
/// fails with the result code of the first request that did, which is the
/// last one made.
pub proof fn mapping_stops_at_the_first_failure(requests: Seq<MapRequest>, results: Seq<i32>)
    requires
        0 < results.len() <= requests.len(),
        forall|i: int|
            0 <= i < results.len() - 1 ==> step_after(requests, i + 1, #[trigger] results[i])
                is MapRange,
    ensures
        forall|i: int| 0 <= i < results.len() - 1 ==> #[trigger] results[i] == S_OK,
        ({
            let last = step_after(requests, results.len() as int, results.last());
            &&& last is Done <==> results.len() == requests.len() && results.last() == S_OK
            &&& last is Failed <==> results.last() != S_OK
            &&& last matches MappingStep::Failed(e) ==> e == Error::MapGpaRange(results.last())
        }),
{
}

/// The reply to a request to add or remove a mapping.
pub fn mapping_reply(hr: i32) -> (done: bool)
    ensures
        done == (hr == S_OK),
{
    hr == S_OK
}

/// A setup that began at the first call and of which every call so far has
/// succeeded, with the handles that the calls filled in.
pub open spec fn is_setup_run(states: Seq<PartitionSetup>, handles: Seq<isize>) -> bool {
    &&& states.len() == handles.len() + 1
    &&& states[0].wf() && states[0].step() == 0
    &&& forall|i: int|
        0 <= i < handles.len() ==> setup_advanced(
            #[trigger] states[i],
            S_OK,
            handles[i],
            SetupProgress::Continue(states[i + 1]),
        )
}

/// A setup makes its calls in order, and from the second call on it works on
/// the partition that the first call created. So that partition is the one
/// that is handed over after the last call or deleted after a failure.
pub proof fn setup_keeps_its_partition(
    states: Seq<PartitionSetup>,
    handles: Seq<isize>,
    i: int,
    hr: i32,
    handle: isize,
    progress: SetupProgress,
)
    requires
        is_setup_run(states, handles),
        0 <= i < states.len(),
        setup_advanced(states[i], hr, handle, progress),
    ensures
        states[i].step() == i <= 6,
        states[i].num_cpus() == states[0].num_cpus(),
        i > 0 ==> states[i].partition() == handles[0],
        progress matches SetupProgress::Ready(vm) ==> i == 6 && vm.handle() == handles[0],
        progress matches SetupProgress::Failed { error, delete } ==> delete == if i == 0 {
            None
        } else {
            Some(handles[0])
        },
    decreases i,
{
    if i > 0 {
        let before = states[i - 1];
        assert(setup_advanced(
            before,
            S_OK,
            handles[i - 1],
            SetupProgress::Continue(states[i - 1 + 1]),
        ));
        setup_keeps_its_partition(
            states,
            handles,
            i - 1,
            S_OK,
            handles[i - 1],
            SetupProgress::Continue(states[i]),
        );
    }
}

/// The calls that set up a partition are these, one after the other: create
/// it; give it as many processors as asked for; let it name its hypervisor
/// "Microsoft Hv" and announce the frequency registers (bit 11), the invariant
/// time stamp counter (bit 15) and the reference one (bit 9), with the
/// frequency feature (bit 8); let leaves 1, 4, 11, 31 and 21 leave the
/// processor; let CPUID (bit 0) and accesses to model specific registers (bit
/// 1) leave it; emulate the local interrupt controllers; finish.
pub proof fn partitions_are_set_up_as_guests_expect(setup: PartitionSetup, action: SetupAction)
    requires
        call_ensures(PartitionSetup::action, (&setup,), action),
        setup.wf(),
    ensures
        setup.step() == 0 <==> action is CreatePartition,
        setup.step() == 6 <==> action is SetupPartition,
        setup.step() == 1 ==> action == SetupAction::SetProperty(
            PartitionProperty::ProcessorCount(setup.num_cpus()),
        ),
        setup.step() == 2 ==> (action matches SetupAction::SetProperty(p)
            && p matches PartitionProperty::CpuidResultList(l) && l@.len() == 2 && l@[0] == (
        CpuidResult {
            function: 0x4000_0000,
            eax: 0x4000_0005,
            ebx: 0x7263_694d,
            ecx: 0x666f_736f,
            edx: 0x7648_2074,
        }) && l@[1] == (CpuidResult {
            function: 0x4000_0003,
            eax: (1u32 << 11) | (1u32 << 15) | (1u32 << 9),
            ebx: 0,
            ecx: 0,
            edx: 1u32 << 8,
        })),
        setup.step() == 3 ==> (action matches SetupAction::SetProperty(p)
            && p matches PartitionProperty::CpuidExitList(l) && l@ == seq![1u32, 4, 11, 31, 21]),
        setup.step() == 4 ==> (action matches SetupAction::SetProperty(p)
            && p matches PartitionProperty::ExtendedVmExits(bits) && bits == (1u64 | (1u64 << 1))),
        setup.step() == 5 ==> action == SetupAction::SetProperty(
            PartitionProperty::LocalApicEmulationMode(1),
        ),
{
    assert((1u32 << 11) | (1u32 << 15) | (1u32 << 9) == 0x8a00u32 && 1u32 << 8 == 0x100u32 && 1u64
        | (1u64 << 1) == 3u64) by (bit_vector);
    assert('M' as u8 == 0x4d && 'i' as u8 == 0x69 && 'c' as u8 == 0x63 && 'r' as u8 == 0x72 && 'o'
        as u8 == 0x6f && 's' as u8 == 0x73 && 'f' as u8 == 0x66 && 't' as u8 == 0x74 && ' ' as u8
        == 0x20 && 'H' as u8 == 0x48 && 'v' as u8 == 0x76);
}

/// A setup goes on after each success until the seventh call, whose success
/// makes the partition ready. A failure ends it with the error of its call,
/// and asks to delete the partition unless it was its creation that failed.
pub proof fn setups_end_at_the_last_call_or_a_failure(
    setup: PartitionSetup,
    hr: i32,
    handle: isize,
    progress: SetupProgress,
)
    requires
        call_ensures(PartitionSetup::advance, (setup, hr, handle), progress),
        setup.wf(),
    ensures
        progress is Failed <==> hr != 0,
        progress is Ready <==> hr == 0 && setup.step() == 6,
        progress matches SetupProgress::Ready(vm) ==> vm.handle() == setup.partition(),
        progress matches SetupProgress::Continue(next) ==> next.step() == setup.step() + 1
            && next.num_cpus() == setup.num_cpus() && (setup.step() == 0 ==> next.partition()
            == handle) && (setup.step() > 0 ==> next.partition() == setup.partition()),
        progress matches SetupProgress::Failed { error, delete } ==> {
            &&& setup.step() == 0 ==> error == Error::CreatePartition(hr) && delete is None
            &&& 1 <= setup.step() <= 5 ==> error == Error::SetPartitionProperty(hr)
            &&& setup.step() == 6 ==> error == Error::SetupPartition(hr)
            &&& setup.step() > 0 ==> delete == Some(setup.partition())
        },
{
}

/// A new setup begins at the first call, with the processors asked for.
pub proof fn setups_begin_at_the_first_call(num_cpus: u32, setup: PartitionSetup)
    requires
        call_ensures(Vm::new, (num_cpus,), setup),
    ensures
        setup.step() == 0,
        setup.num_cpus() == num_cpus,
{
}

/// Every region is mapped at its own addresses and in full, for reading (1),
/// writing (2) and executing (4).
pub proof fn regions_are_mapped_in_full(
    regions: Vec<(u64, u64, u64)>,
    requests: Vec<MapRequest>,
    i: int,
)
    requires
        call_ensures(map_requests, (&regions,), requests),
        0 <= i < regions@.len(),
    ensures
        requests@.len() == regions@.len(),
        requests@[i].host_addr == regions@[i].0,
        requests@[i].guest_addr == regions@[i].1,
        requests@[i].len == regions@[i].2,
        requests@[i].flags == 1 + 2 + 4,
{
}

/// Adding a mapping removes what is in its place and nothing else, and then
/// maps exactly the range asked for; removing it undoes that.
pub proof fn mappings_replace_what_is_there(
    vm: Vm,
    host_addr: u64,
    guest_addr: u64,
    len: u64,
    calls: (UnmapRequest, MapRequest),
    undo: UnmapRequest,
)
    requires
        call_ensures(Vm::add_mapping, (&vm, host_addr, guest_addr, len), calls),
        call_ensures(Vm::remove_mapping, (&vm, guest_addr, len), undo),
    ensures
        calls.0 == undo,
        undo.guest_addr == guest_addr && undo.len == len,
        calls.1.guest_addr == guest_addr && calls.1.len == len && calls.1.host_addr == host_addr,
        calls.1.flags == 7,
{
}

/// Requests are made in order, each once; a failure ends it with its code, and
/// the end comes when all are made.
pub proof fn requests_are_made_in_order(
    requests: Vec<MapRequest>,
    done: usize,
    hr: i32,
    step: MappingStep,
    reply: bool,
)
    requires
        call_ensures(mapping_step, (&requests, done, hr), step),
        call_ensures(mapping_reply, (hr,), reply),
        done <= requests@.len(),
    ensures
        step is Failed <==> hr != 0,
        step matches MappingStep::Failed(e) ==> e == Error::MapGpaRange(hr),
        step is Done <==> hr == 0 && done == requests@.len(),
        step matches MappingStep::MapRange(request) ==> request == requests@[done as int],
        reply <==> hr == 0,
{
}

/// The guest sees exactly the addresses that memory backs, each once, for every
/// kind of access.
pub proof fn guest_sees_all_of_memory(
    vm: Vm,
    guest_mem: GuestMemoryMmap<()>,
    requests: Vec<MapRequest>,
    a: u64,
)
    requires
        call_ensures(Vm::memory_init, (&vm, &guest_mem), requests),
    ensures
        guest_memory::guest_bytes(guest_mem).contains_key(a) <==> exists|i: int|
            0 <= i < requests@.len() && (#[trigger] requests@[i]).guest_addr <= a
                < requests@[i].guest_addr + requests@[i].len,
        forall|i: int, j: int|
            0 <= i < requests@.len() && 0 <= j < requests@.len() && (
            #[trigger] requests@[i]).guest_addr <= a < requests@[i].guest_addr + requests@[i].len
                && (#[trigger] requests@[j]).guest_addr <= a < requests@[j].guest_addr
                + requests@[j].len ==> i == j,
        forall|i: int| 0 <= i < requests@.len() ==> (#[trigger] requests@[i]).flags == 7,
{
}

/// The handle of a partition is the one that it was set up with.
pub proof fn partitions_keep_their_handle(vm: Vm, handle: isize)
    requires
        call_ensures(Vm::partition_handle, (&vm,), handle),
    ensures
        handle == vm.handle(),
{
}

} // verus!
