//! Epoll-compatible event notification on top of wait objects.
//!
//! Waiting is split into steps: the notifier says which handles to wait for,
//! and the outcome of each wait call is reported back to it.
use crate::utils::os_error::OsError;
use std::collections::HashMap;
use vstd::prelude::*;
use vstd::std_specs::iter::IteratorSpec;

verus! {

/// Pollable handle identifier.
pub type Pollable = usize;

/// A wait call reports that the first handle is signalled.
pub const WAIT_OBJECT_0: u32 = 0;

/// A wait call reports that the time is up.
pub const WAIT_TIMEOUT: u32 = 258;

/// The timeout of a wait call that waits forever.
pub const INFINITE: u32 = 0xFFFF_FFFF;

/// What to do with a registration.
#[derive(Clone, Copy, PartialEq, Eq, Structural, Debug)]
pub enum ControlOperation {
    Add,
    Modify,
    Delete,
}

/// A set of event kinds.
#[derive(Clone, Copy, PartialEq, Eq, Structural, Debug)]
pub struct EventSet {
    bits: u32,
}

impl EventSet {
    /// The set as one bit for each kind.
    pub closed spec fn mask(&self) -> u32 {
        self.bits
    }

    /// Readable.
    #[allow(non_snake_case)]
    pub fn IN() -> (set: EventSet)
        ensures
            set.mask() == 0b00000001,
    {
        EventSet { bits: 0b00000001 }
    }

    /// Writable.
    #[allow(non_snake_case)]
    pub fn OUT() -> (set: EventSet)
        ensures
            set.mask() == 0b00000010,
    {
        EventSet { bits: 0b00000010 }
    }

    /// The other side has hung up.
    #[allow(non_snake_case)]
    pub fn HANG_UP() -> (set: EventSet)
        ensures
            set.mask() == 0b00000100,
    {
        EventSet { bits: 0b00000100 }
    }

    /// The other side has shut down its writing half.
    #[allow(non_snake_case)]
    pub fn READ_HANG_UP() -> (set: EventSet)
        ensures
            set.mask() == 0b00001000,
    {
        EventSet { bits: 0b00001000 }
    }

    /// Only changes are reported.
    #[allow(non_snake_case)]
    pub fn EDGE_TRIGGERED() -> (set: EventSet)
        ensures
            set.mask() == 0b00010000,
    {
        EventSet { bits: 0b00010000 }
    }

    /// All kinds.
    pub fn all() -> (set: EventSet)
        ensures
            set.mask() == 0b00011111,
    {
        EventSet { bits: 0b00011111 }
    }

    /// The set as one bit for each kind.
    pub fn bits(&self) -> (bits: u32)
        ensures
            bits == self.mask(),
    {
        self.bits
    }

    /// The set with the given bits, if each of them stands for a kind.
    pub fn from_bits(bits: u32) -> (set: Option<EventSet>)
        ensures
            set is Some <==> bits < 32,
            set matches Some(s) ==> s.mask() == bits,
    {
        proof {
            assert(bits & !0b00011111u32 == 0 <==> bits < 32) by (bit_vector);
        }
        if bits & !0b00011111u32 == 0 {
            Some(EventSet { bits })
        } else {
            None
        }
    }

    /// No kinds.
    pub fn empty() -> (set: EventSet)
        ensures
            set.mask() == 0,
    {
        EventSet { bits: 0 }
    }

    /// Every kind of the other set is in this one.
    pub fn contains(&self, other: EventSet) -> (all: bool)
        ensures
            all == (self.mask() & other.mask() == other.mask()),
    {
        self.bits & other.bits == other.bits
    }

    /// The kinds of both sets.
    pub fn union(&self, other: EventSet) -> (set: EventSet)
        ensures
            set.mask() == self.mask() | other.mask(),
    {
        EventSet { bits: self.bits | other.bits }
    }

    /// The two sets have a kind in common.
    pub fn intersects(&self, other: EventSet) -> (common: bool)
        ensures
            common == (self.mask() & other.mask() != 0),
    {
        self.bits & other.bits != 0
    }

    /// The kinds of this set that are not in the other.
    pub fn difference(&self, other: EventSet) -> (set: EventSet)
        ensures
            set.mask() == self.mask() & !other.mask(),
    {
        EventSet { bits: self.bits & !other.bits }
    }
}

/// Kinds of events together with a number that tells their source.
#[derive(Clone, Copy, PartialEq, Eq, Structural, Debug)]
pub struct EpollEvent {
    pub events: u32,
    pub data: u64,
}

impl Default for EpollEvent {
    fn default() -> (event: EpollEvent)
        ensures
            event == (EpollEvent { events: 0, data: 0 }),
    {
        EpollEvent { events: 0, data: 0 }
    }
}

impl EpollEvent {
    pub fn new(events: EventSet, data: u64) -> (event: EpollEvent)
        ensures
            event == (EpollEvent { events: events.mask(), data }),
    {
        EpollEvent { events: events.bits(), data }
    }

    pub fn events(&self) -> (events: u32)
        ensures
            events == self.events,
    {
        self.events
    }

    /// The kinds of events, all of which must be known.
    pub fn event_set(&self) -> (set: EventSet)
        requires
            self.events < 32,
        ensures
            set.mask() == self.events,
    {
        EventSet::from_bits(self.events()).unwrap()
    }

    pub fn data(&self) -> (data: u64)
        ensures
            data == self.data,
    {
        self.data
    }

    /// The source as a handle; on a host with 32-bit handles the lower half.
    pub fn fd(&self) -> (fd: Pollable)
        ensures
            fd == self.data as usize,
    {
        self.data as Pollable
    }
}

/// A handle to wait for and the event to report for it.
#[derive(Clone, Copy, PartialEq, Eq, Structural, Debug)]
pub struct Registration {
    pub handle: Pollable,
    pub event: EpollEvent,
}

/// Epoll-like event notifier backed by wait objects.
#[derive(Debug)]
pub struct Epoll {
    registrations: HashMap<Pollable, EpollEvent>,
}

/// The registrations after an operation. Modifying or deleting what is not
/// registered changes nothing; adding what is registered replaces it.
pub open spec fn controlled(
    registered: Map<Pollable, EpollEvent>,
    operation: ControlOperation,
    pollable: Pollable,
    event: EpollEvent,
) -> Map<Pollable, EpollEvent> {
    match operation {
        ControlOperation::Add => registered.insert(pollable, event),
        ControlOperation::Modify => if registered.contains_key(pollable) {
            registered.insert(pollable, event)
        } else {
            registered
        },
        ControlOperation::Delete => registered.remove(pollable),
    }
}

/// The list holds every registration, each once, in any order.
pub open spec fn lists(entries: Seq<Registration>, registered: Map<Pollable, EpollEvent>) -> bool {
    &&& forall|i: int|
        0 <= i < entries.len() ==> registered.contains_key((#[trigger] entries[i]).handle)
            && registered[entries[i].handle] == entries[i].event
    &&& forall|p: Pollable| #[trigger]
        registered.contains_key(p) ==> exists|i: int|
            0 <= i < entries.len() && (#[trigger] entries[i]).handle == p
    &&& forall|i: int, j: int|
        0 <= i < j < entries.len() ==> (#[trigger] entries[i]).handle != (
        #[trigger] entries[j]).handle
}

/// How a wait begins.
#[derive(Debug)]
pub enum WaitStart {
    /// Nothing is registered: sleep for the milliseconds, if any, and report
    /// no event.
    Sleep(Option<u64>),
    /// Wait for the handles.
    Wait(EpollWait),
}

/// A wait for handles.
#[derive(Debug)]
pub struct EpollWait {
    entries: Vec<Registration>,
    timeout_ms: u32,
}

/// How a wait for handles ends.
pub enum Woken {
    /// The time is up; no event is reported.
    TimedOut,
    /// At least one handle is signalled; all of them are probed.
    Signalled(EpollScan),
    /// The wait failed with the system's last error.
    Failed,
}

/// The handles are probed one by one after a wake-up.
pub struct EpollScan {
    entries: Vec<Registration>,
    first: usize,
    limit: usize,
    next: usize,
    ready: Vec<EpollEvent>,
    outcomes: Ghost<Seq<bool>>,
}

/// The events of the entries whose probes found them signalled.
pub open spec fn collected(entries: Seq<Registration>, outcomes: Seq<bool>) -> Seq<EpollEvent>
    decreases outcomes.len(),
{
    if outcomes.len() == 0 {
        Seq::empty()
    } else {
        let before = collected(entries, outcomes.drop_last());
        if outcomes.last() {
            before.push(entries[outcomes.len() - 1].event)
        } else {
            before
        }
    }
}

/// Some event of the list has the given source.
pub open spec fn has_source(events: Seq<EpollEvent>, data: u64) -> bool {
    exists|i: int| 0 <= i < events.len() && (#[trigger] events[i]).data == data
}

/// The events to report: those that the probes found and, unless they have
/// the same source or there is no room, that of the handle whose signal ended
/// the wait.
pub open spec fn delivered(ready: Seq<EpollEvent>, first: EpollEvent, limit: nat) -> Seq<
    EpollEvent,
> {
    if has_source(ready, first.data) || ready.len() >= limit {
        ready
    } else {
        ready.push(first)
    }
}

impl Epoll {
    /// The registered handles and their events.
    pub closed spec fn registered(&self) -> Map<Pollable, EpollEvent> {
        self.registrations@
    }

    pub fn new() -> (r: Result<Epoll, OsError>)
        ensures
            r matches Ok(epoll) && epoll.registered() == Map::<Pollable, EpollEvent>::empty(),
    {
        Ok(Epoll { registrations: HashMap::new() })
    }

    /// Adds, modifies or deletes the registration of a handle.
    pub fn ctl(
        &mut self,
        operation: ControlOperation,
        pollable: Pollable,
        event: &EpollEvent,
    ) -> (r: Result<(), OsError>)
        ensures
            r is Ok,
            final(self).registered() == controlled(
                old(self).registered(),
                operation,
                pollable,
                *event,
            ),
    {
        broadcast use vstd::std_specs::hash::group_hash_axioms;

        match operation {
            ControlOperation::Add => {
                self.registrations.insert(pollable, *event);
            },
            ControlOperation::Modify => {
                if self.registrations.contains_key(&pollable) {
                    self.registrations.insert(pollable, *event);
                }
            },
            ControlOperation::Delete => {
                self.registrations.remove(&pollable);
            },
        }
        Ok(())
    }

    /// The registrations in any order.
    fn entries(&self) -> (entries: Vec<Registration>)
        ensures
            lists(entries@, self.registered()),
    {
        broadcast use vstd::std_specs::hash::group_hash_axioms;

        let mut entries: Vec<Registration> = Vec::new();
        let pairs = self.registrations.iter();
        let ghost listed = pairs.remaining();
        for (handle, event) in it: pairs
            invariant
                it.seq() == listed,
                entries@.len() == it.index(),
                forall|i: int|
                    0 <= i < entries@.len() ==> (#[trigger] entries@[i]).handle == *it.seq()[i].0
                        && entries@[i].event == *it.seq()[i].1,
        {
            entries.push(Registration { handle: *handle, event: *event });
        }
        proof {
            assert forall|p: Pollable| #[trigger] self.registered().contains_key(p) implies exists|
                i: int,
            | 0 <= i < entries@.len() && (#[trigger] entries@[i]).handle == p by {
                assert(listed.contains((&p, &self.registered()[p])));
                let i = choose|i: int|
                    0 <= i < listed.len() && listed[i] == (&p, &self.registered()[p]);
                assert(entries@[i].handle == p);
            }
            assert forall|i: int, j: int| 0 <= i < j < entries@.len() implies (
            #[trigger] entries@[i]).handle != (#[trigger] entries@[j]).handle by {
                assert(self.registered()[*listed[i].0] == *listed[i].1);
                assert(self.registered()[*listed[j].0] == *listed[j].1);
                assert(listed[i] != listed[j]);
            }
        }
        entries
    }

    /// There is no single handle behind the notifier.
    pub fn as_raw_handle(&self) -> (handle: Pollable)
        ensures
            handle == 0,
    {
        0
    }

    /// Begins to wait for at most `timeout` milliseconds; forever if that is
    /// negative.
    pub fn wait(&self, timeout: i32) -> (start: WaitStart)
        ensures
            match start {
                WaitStart::Sleep(ms) => {
                    &&& self.registered().is_empty()
                    &&& ms == if timeout > 0 {
                        Some(timeout as u64)
                    } else {
                        None
                    }
                },
                WaitStart::Wait(wait) => {
                    &&& !self.registered().is_empty()
                    &&& lists(wait.entries(), self.registered())
                    &&& wait.timeout() == if timeout < 0 {
                        INFINITE
                    } else {
                        timeout as u32
                    }
                },
            },
    {
        if self.registrations.is_empty() {
            return WaitStart::Sleep(
                if timeout > 0 {
                    Some(timeout as u64)
                } else {
                    None
                },
            );
        }
        WaitStart::Wait(
            EpollWait {
                entries: self.entries(),
                timeout_ms: if timeout < 0 {
                    INFINITE
                } else {
                    timeout as u32
                },
            },
        )
    }
}

impl EpollWait {
    /// The registrations, in the order in which their handles are waited for.
    pub closed spec fn entries(&self) -> Seq<Registration> {
        self.entries@
    }

    /// The timeout of the wait call.
    pub closed spec fn timeout(&self) -> u32 {
        self.timeout_ms
    }

    /// The handles to wait for.
    pub fn handles(&self) -> (handles: Vec<Pollable>)
        ensures
            handles@.len() == self.entries().len(),
            forall|i: int|
                0 <= i < handles@.len() ==> #[trigger] handles@[i] == self.entries()[i].handle,
    {
        let mut handles: Vec<Pollable> = Vec::new();
        let mut i: usize = 0;
        while i < self.entries.len()
            invariant
                i <= self.entries@.len(),
                handles@.len() == i,
                forall|k: int| 0 <= k < i ==> #[trigger] handles@[k] == self.entries@[k].handle,
            decreases self.entries@.len() - i,
        {
            handles.push(self.entries[i].handle);
            i = i + 1;
        }
        handles
    }

    /// The timeout of the wait call in milliseconds.
    pub fn timeout_ms(&self) -> (ms: u32)
        ensures
            ms == self.timeout(),
    {
        self.timeout_ms
    }

    /// Takes note of what the wait call returned. At most `max_events` events
    /// are reported, and at most `room`.
    pub fn woken(self, ret: u32, max_events: usize, room: usize) -> (woken: Woken)
        ensures
            match woken {
                Woken::TimedOut => ret == WAIT_TIMEOUT,
                Woken::Signalled(scan) => {
                    &&& ret != WAIT_TIMEOUT
                    &&& ret < self.entries().len()
                    &&& scan.wf()
                    &&& scan.entries() == self.entries()
                    &&& scan.first() == ret
                    &&& scan.limit() == if max_events < room {
                        max_events
                    } else {
                        room
                    }
                    &&& scan.outcomes().len() == 0
                },
                Woken::Failed => ret != WAIT_TIMEOUT && ret >= self.entries().len(),
            },
    {
        if ret == WAIT_TIMEOUT {
            return Woken::TimedOut;
        }
        let first: usize = (ret - WAIT_OBJECT_0) as usize;
        if first < self.entries.len() {
            Woken::Signalled(
                EpollScan {
                    entries: self.entries,
                    first,
                    limit: if max_events < room {
                        max_events
                    } else {
                        room
                    },
                    next: 0,
                    ready: Vec::new(),
                    outcomes: Ghost(Seq::empty()),
                },
            )
        } else {
            Woken::Failed
        }
    }
}

impl EpollScan {
    /// The registrations in the order in which they are probed.
    pub closed spec fn entries(&self) -> Seq<Registration> {
        self.entries@
    }

    /// The entry whose signal ended the wait.
    pub closed spec fn first(&self) -> int {
        self.first as int
    }

    /// How many events are reported at most.
    pub closed spec fn limit(&self) -> nat {
        self.limit as nat
    }

    /// What the probes so far found.
    pub closed spec fn outcomes(&self) -> Seq<bool> {
        self.outcomes@
    }

    /// The events found so far fit what the probes found.
    pub closed spec fn wf(&self) -> bool {
        &&& self.first < self.entries@.len()
        &&& self.next <= self.entries@.len()
        &&& self.next == self.outcomes@.len()
        &&& self.ready@ == collected(self.entries@, self.outcomes@)
        &&& self.ready@.len() <= self.limit
    }

    /// The waking entry exists, no more probes were made than there are
    /// entries, and no more events found than are reported.
    pub proof fn has_bounds(&self)
        requires
            self.wf(),
        ensures
            0 <= self.first() < self.entries().len(),
            self.outcomes().len() <= self.entries().len(),
            collected(self.entries(), self.outcomes()).len() <= self.limit(),
    {
    }

    /// The next handle to probe. There is none once all have been probed or
    /// no more events can be reported.
    pub fn probe(&self) -> (handle: Option<Pollable>)
        requires
            self.wf(),
        ensures
            handle is Some <==> self.outcomes().len() < self.entries().len() && collected(
                self.entries(),
                self.outcomes(),
            ).len() < self.limit(),
            handle matches Some(h) ==> h == self.entries()[self.outcomes().len() as int].handle,
    {
        if self.next < self.entries.len() && self.ready.len() < self.limit {
            Some(self.entries[self.next].handle)
        } else {
            None
        }
    }

    /// Takes note of what the probe of the next handle returned.
    pub fn probed(&mut self, ret: u32)
        requires
            old(self).wf(),
            old(self).outcomes().len() < old(self).entries().len(),
            collected(old(self).entries(), old(self).outcomes()).len() < old(self).limit(),
        ensures
            final(self).wf(),
            final(self).entries() == old(self).entries(),
            final(self).first() == old(self).first(),
            final(self).limit() == old(self).limit(),
            final(self).outcomes() == old(self).outcomes().push(ret == WAIT_OBJECT_0),
    {
        if ret == WAIT_OBJECT_0 {
            self.ready.push(self.entries[self.next].event);
        }
        assert(self.next < self.entries.len());
        self.next = self.next + 1;
        proof {
            let longer = self.outcomes@.push(ret == WAIT_OBJECT_0);
            assert(longer.drop_last() =~= self.outcomes@);
            self.outcomes = Ghost(longer);
        }
    }

    /// Stores the events to report at the front of `events` and returns their
    /// number.
    pub fn finish(self, events: &mut [EpollEvent]) -> (count: usize)
        requires
            self.wf(),
            self.limit() <= old(events)@.len(),
        ensures
            ({
                let list = delivered(
                    collected(self.entries(), self.outcomes()),
                    self.entries()[self.first()].event,
                    self.limit(),
                );
                &&& count == list.len()
                &&& count <= self.limit()
                &&& final(events)@ == list + old(events)@.skip(count as int)
            }),
    {
        let mut ready: Vec<EpollEvent> = self.ready;
        let first: EpollEvent = self.entries[self.first].event;
        let mut included: bool = false;
        let mut i: usize = 0;
        while i < ready.len()
            invariant
                i <= ready@.len(),
                included <==> exists|k: int|
                    0 <= k < i && (#[trigger] ready@[k]).data == first.data,
            decreases ready@.len() - i,
        {
            if ready[i].data == first.data {
                included = true;
            }
            i = i + 1;
        }
        if !included && ready.len() < self.limit {
            ready.push(first);
        }
        let mut n: usize = 0;
        while n < ready.len()
            invariant
                n <= ready@.len() <= old(events)@.len(),
                events@.len() == old(events)@.len(),
                forall|k: int| 0 <= k < n ==> events@[k] == ready@[k],
                forall|k: int| n <= k < events@.len() ==> events@[k] == old(events)@[k],
            decreases ready@.len() - n,
        {
            events[n] = ready[n];
            n = n + 1;
        }
        assert(events@ =~= ready@ + old(events)@.skip(n as int));
        n
    }
}

/// Every event that the probes find is the event of a registration.
proof fn lemma_collected(entries: Seq<Registration>, outcomes: Seq<bool>, i: int)
    requires
        outcomes.len() <= entries.len(),
        0 <= i < collected(entries, outcomes).len(),
    ensures
        exists|k: int|
            0 <= k < outcomes.len() && outcomes[k] && collected(entries, outcomes)[i] == (
            #[trigger] entries[k]).event,
    decreases outcomes.len(),
{
    if outcomes.len() > 0 {
        let shorter = outcomes.drop_last();
        let n = outcomes.len() - 1;
        if i < collected(entries, shorter).len() {
            lemma_collected(entries, shorter, i);
            let k = choose|k: int|
                0 <= k < shorter.len() && shorter[k] && collected(entries, shorter)[i] == (
                #[trigger] entries[k]).event;
            assert(outcomes[k] && collected(entries, outcomes)[i] == entries[k].event);
        } else {
            assert(outcomes[n] && collected(entries, outcomes)[i] == entries[n].event);
        }
    }
}

/// Only events of registered handles that were found signalled are reported.
pub proof fn only_signalled_registrations_are_reported(
    entries: Seq<Registration>,
    outcomes: Seq<bool>,
    first: int,
    limit: nat,
    i: int,
)
    requires
        outcomes.len() <= entries.len(),
        0 <= first < entries.len(),
        0 <= i < delivered(collected(entries, outcomes), entries[first].event, limit).len(),
    ensures
        exists|k: int|
            0 <= k < entries.len() && (k == first || k < outcomes.len() && outcomes[k])
                && delivered(collected(entries, outcomes), entries[first].event, limit)[i] == (
            #[trigger] entries[k]).event,
{
    let ready = collected(entries, outcomes);
    if i < ready.len() {
        lemma_collected(entries, outcomes, i);
    } else {
        assert(delivered(ready, entries[first].event, limit)[i] == entries[first].event);
    }
}

/// No signal that a probe consumed is lost: its event is reported.
pub proof fn probed_signals_are_reported(
    entries: Seq<Registration>,
    outcomes: Seq<bool>,
    first: EpollEvent,
    limit: nat,
    k: int,
)
    requires
        outcomes.len() <= entries.len(),
        0 <= k < outcomes.len(),
        outcomes[k],
    ensures
        delivered(collected(entries, outcomes), first, limit).contains(entries[k].event),
    decreases outcomes.len(),
{
    let event = entries[k].event;
    let shorter = outcomes.drop_last();
    let before = collected(entries, shorter);
    let ready = collected(entries, outcomes);
    let at = if k == outcomes.len() - 1 {
        before.len() as int
    } else {
        probed_signals_are_reported(entries, shorter, first, 0, k);
        choose|i: int| 0 <= i < before.len() && before[i] == event
    };
    assert(ready[at] == event);
    assert(delivered(ready, first, limit)[at] == event);
}

/// The source whose signal ended the wait is reported, unless as many events
/// as fit come from other sources.
pub proof fn waking_source_is_reported(
    entries: Seq<Registration>,
    outcomes: Seq<bool>,
    first: int,
    limit: nat,
)
    requires
        collected(entries, outcomes).len() <= limit,
    ensures
        ({
            let list = delivered(collected(entries, outcomes), entries[first].event, limit);
            has_source(list, entries[first].event.data) || list.len() == limit
        }),
{
    let ready = collected(entries, outcomes);
    let event = entries[first].event;
    if !has_source(ready, event.data) && ready.len() < limit {
        assert(ready.push(event)[ready.len() as int].data == event.data);
    }
}

/// What was deleted is not waited for, and what was added is.
pub proof fn registration_round_trip(
    registered: Map<Pollable, EpollEvent>,
    pollable: Pollable,
    event: EpollEvent,
    other: EpollEvent,
)
    ensures
        ({
            let added = controlled(registered, ControlOperation::Add, pollable, event);
            &&& added.contains_key(pollable) && added[pollable] == event
            &&& !controlled(added, ControlOperation::Delete, pollable, other).contains_key(pollable)
            &&& !registered.contains_key(pollable) ==> controlled(
                added,
                ControlOperation::Delete,
                pollable,
                other,
            ) == registered
        }),
{
    let added = controlled(registered, ControlOperation::Add, pollable, event);
    if !registered.contains_key(pollable) {
        assert(controlled(added, ControlOperation::Delete, pollable, other) =~= registered);
    }
}

/// An operation touches only the handle it names. Adding registers it with the
/// event, whatever was there; modifying replaces the event of a registered
/// handle and does not register another; deleting takes it out.
pub proof fn operations_touch_one_handle(
    epoll: &mut Epoll,
    operation: ControlOperation,
    pollable: Pollable,
    event: EpollEvent,
    r: Result<(), OsError>,
    p: Pollable,
)
    requires
        call_ensures(Epoll::ctl, (epoll, operation, pollable, &event), r),
    ensures
        r is Ok,
        ({
            let before = old(epoll).registered();
            let after = final(epoll).registered();
            &&& p != pollable ==> after.contains_key(p) == before.contains_key(p)
            &&& p != pollable && before.contains_key(p) ==> after[p] == before[p]
            &&& operation is Add ==> after.contains_key(pollable) && after[pollable] == event
            &&& operation is Modify ==> after.contains_key(pollable) == before.contains_key(
                pollable,
            )
            &&& operation is Modify && before.contains_key(pollable) ==> after[pollable] == event
            &&& operation is Delete ==> !after.contains_key(pollable)
        }),
{
}

/// With nothing registered a wait is a sleep for a positive timeout, and none
/// otherwise. Else every registered handle is waited for, each once, for the
/// timeout in milliseconds, or without end if it is negative.
pub proof fn waits_last_as_long_as_asked(
    epoll: Epoll,
    timeout: i32,
    start: WaitStart,
    wait: EpollWait,
    handles: Vec<Pollable>,
    ms: u32,
    p: Pollable,
)
    requires
        call_ensures(Epoll::wait, (&epoll, timeout), start),
        call_ensures(EpollWait::handles, (&wait,), handles),
        call_ensures(EpollWait::timeout_ms, (&wait,), ms),
        start matches WaitStart::Wait(w) ==> w == wait,
    ensures
        start is Sleep <==> epoll.registered().is_empty(),
        start matches WaitStart::Sleep(ms) ==> (ms matches Some(n) ==> n == timeout) && (ms is Some
            <==> timeout > 0),
        start is Wait ==> {
            &&& timeout >= 0 ==> ms == timeout
            &&& timeout < 0 ==> ms == 0xFFFF_FFFF
            &&& epoll.registered().contains_key(p) <==> handles@.contains(p)
            &&& forall|i: int, j: int|
                0 <= i < j < handles@.len() ==> #[trigger] handles@[i] != #[trigger] handles@[j]
        },
{
    if start is Wait {
        let registered = epoll.registered();
        if registered.contains_key(p) {
            let i = choose|i: int|
                0 <= i < wait.entries().len() && (#[trigger] wait.entries()[i]).handle == p;
            assert(handles@[i] == p);
        }
        if handles@.contains(p) {
            let i = choose|i: int| 0 <= i < handles@.len() && handles@[i] == p;
            assert(wait.entries()[i].handle == p);
        }
        assert forall|i: int, j: int| 0 <= i < j < handles@.len() implies #[trigger] handles@[i]
            != #[trigger] handles@[j] by {
            assert(wait.entries()[i].handle != wait.entries()[j].handle);
        }
    }
}

/// A wait that timed out (258) finds nothing; a number below that of the
/// handles is the place of the handle that is signalled; any other one is a
/// failure. No more events are reported than are asked for or have room.
pub proof fn wake_ups_name_their_handle(
    wait: EpollWait,
    ret: u32,
    max_events: usize,
    room: usize,
    woken: Woken,
)
    requires
        call_ensures(EpollWait::woken, (wait, ret, max_events, room), woken),
    ensures
        woken is TimedOut <==> ret == 258,
        woken is Signalled <==> ret != 258 && ret < wait.entries().len(),
        woken matches Woken::Signalled(scan) ==> scan.first() == ret && scan.entries()
            == wait.entries() && scan.limit() <= max_events && scan.limit() <= room && (scan.limit()
            == max_events || scan.limit() == room) && scan.outcomes().len() == 0,
{
}

/// Handles are probed in their order, each once, until all were or no more
/// events can be reported; the probe that returned zero found a signal.
pub proof fn handles_are_probed_in_order(
    scan: &mut EpollScan,
    handle: Option<Pollable>,
    ret: u32,
    next: Option<Pollable>,
)
    requires
        call_ensures(EpollScan::probe, (&*old(scan),), handle),
        handle is Some,
        call_ensures(EpollScan::probed, (scan, ret), ()),
        call_ensures(EpollScan::probe, (&*final(scan),), next),
        old(scan).wf(),
    ensures
        ({
            let n = old(scan).outcomes().len() as int;
            &&& handle == Some(old(scan).entries()[n].handle)
            &&& final(scan).outcomes().len() == n + 1
            &&& final(scan).outcomes().last() == (ret == 0)
            &&& final(scan).outcomes().drop_last() == old(scan).outcomes()
            &&& next is Some ==> next == Some(old(scan).entries()[n + 1].handle)
            &&& n + 1 == old(scan).entries().len() ==> next is None
        }),
{
    assert(final(scan).outcomes().drop_last() =~= old(scan).outcomes());
}

/// The events that the probes find are those of the signalled entries, in
/// their order, each once.
pub proof fn found_events_are_those_of_the_signalled(
    entries: Seq<Registration>,
    outcomes: Seq<bool>,
)
    requires
        outcomes.len() <= entries.len(),
    ensures
        collected(entries, outcomes) == Seq::new(
            outcomes.len(),
            |i: int| (entries[i].event, outcomes[i]),
        ).filter(|p: (EpollEvent, bool)| p.1).map_values(|p: (EpollEvent, bool)| p.0),
    decreases outcomes.len(),
{
    reveal(Seq::filter);
    let pairs = Seq::new(outcomes.len(), |i: int| (entries[i].event, outcomes[i]));
    let found = |p: (EpollEvent, bool)| p.1;
    let event = |p: (EpollEvent, bool)| p.0;
    if outcomes.len() > 0 {
        let shorter = outcomes.drop_last();
        found_events_are_those_of_the_signalled(entries, shorter);
        let before = Seq::new(shorter.len(), |i: int| (entries[i].event, shorter[i]));
        assert(pairs.drop_last() =~= before);
        let last = pairs.last();
        if last.1 {
            assert(before.filter(found).push(last).map_values(event) =~= before.filter(
                found,
            ).map_values(event).push(last.0));
        }
    }
    assert(collected(entries, outcomes) =~= pairs.filter(found).map_values(event));
}

/// The reported events come first in the buffer, no more than the limit, and
/// the rest of the buffer stays.
pub proof fn reports_stay_within_the_limit(
    scan: EpollScan,
    events: &mut [EpollEvent],
    count: usize,
)
    requires
        call_ensures(EpollScan::finish, (scan, events), count),
        scan.wf(),
        scan.limit() <= old(events)@.len(),
    ensures
        count <= scan.limit(),
        final(events)@.len() == old(events)@.len(),
        forall|i: int| count <= i < old(events)@.len() ==> final(events)@[i] == old(events)@[i],
        ({
            let found = collected(scan.entries(), scan.outcomes());
            let first = scan.entries()[scan.first()].event;
            &&& found.len() <= count <= found.len() + 1
            &&& forall|i: int| 0 <= i < found.len() ==> final(events)@[i] == #[trigger] found[i]
            &&& count == found.len() + 1 ==> final(events)@[count - 1] == first
            &&& count == found.len() + 1 <==> found.len() < scan.limit() && forall|i: int|
                0 <= i < found.len() ==> (#[trigger] found[i]).data != first.data
        }),
{
}

/// Sets behave as sets: a union has the kinds of both, a difference none of
/// the other, and a set contains what it has in common with another exactly
/// if nothing of the other is left over.
pub proof fn event_sets_are_sets(
    a: EventSet,
    b: EventSet,
    both: EventSet,
    rest: EventSet,
    contains: bool,
    intersects: bool,
    n: u32,
)
    requires
        call_ensures(EventSet::union, (&a, b), both),
        call_ensures(EventSet::difference, (&a, b), rest),
        call_ensures(EventSet::contains, (&a, b), contains),
        call_ensures(EventSet::intersects, (&a, b), intersects),
        n < 32,
    ensures
        both.mask() & (1u32 << n) != 0 <==> a.mask() & (1u32 << n) != 0 || b.mask() & (1u32 << n)
            != 0,
        rest.mask() & (1u32 << n) != 0 <==> a.mask() & (1u32 << n) != 0 && b.mask() & (1u32 << n)
            == 0,
        contains && b.mask() & (1u32 << n) != 0 ==> a.mask() & (1u32 << n) != 0,
        !contains ==> b.mask() & !a.mask() != 0,
        a.mask() & (1u32 << n) != 0 && b.mask() & (1u32 << n) != 0 ==> intersects,
        intersects ==> b.mask() & a.mask() != 0,
{
    let (x, y) = (a.mask(), b.mask());
    let s: u32 = 1u32 << n;
    assert(((x | y) & s != 0 <==> x & s != 0 || y & s != 0) && ((x & !y) & s != 0 <==> x & s != 0
        && y & s == 0) && (x & y == y && y & s != 0 ==> x & s != 0) && (x & y != y ==> y & !x != 0)
        && (x & s != 0 && y & s != 0 ==> x & y != 0) && (x & y == y & x)) by (bit_vector)
        requires
            s == 1u32 << n,
            n < 32,
    ;
}

/// An event keeps its kinds and its source.
pub proof fn events_keep_their_source(kinds: EventSet, data: u64, event: EpollEvent, fd: Pollable)
    requires
        call_ensures(EpollEvent::new, (kinds, data), event),
        call_ensures(EpollEvent::fd, (&event,), fd),
    ensures
        event.events == kinds.mask(),
        event.data == data,
        fd == data as usize,
        data <= usize::MAX ==> fd == data,
{
}

/// There are five kinds, one bit each, and a set is made of any of them and no
/// other bit.
pub proof fn kinds_have_one_bit_each(
    kinds: (EventSet, EventSet, EventSet, EventSet, EventSet),
    all: EventSet,
    bits: u32,
    set: Option<EventSet>,
    none: EventSet,
)
    requires
        call_ensures(EventSet::IN, (), kinds.0),
        call_ensures(EventSet::OUT, (), kinds.1),
        call_ensures(EventSet::HANG_UP, (), kinds.2),
        call_ensures(EventSet::READ_HANG_UP, (), kinds.3),
        call_ensures(EventSet::EDGE_TRIGGERED, (), kinds.4),
        call_ensures(EventSet::all, (), all),
        call_ensures(EventSet::empty, (), none),
        call_ensures(EventSet::from_bits, (bits,), set),
    ensures
        kinds.0.mask() == 1,
        kinds.1.mask() == 2 * kinds.0.mask(),
        kinds.2.mask() == 2 * kinds.1.mask(),
        kinds.3.mask() == 2 * kinds.2.mask(),
        kinds.4.mask() == 2 * kinds.3.mask(),
        all.mask() == kinds.0.mask() + kinds.1.mask() + kinds.2.mask() + kinds.3.mask()
            + kinds.4.mask(),
        none.mask() == 0,
        set is Some <==> bits <= all.mask(),
        set matches Some(s) ==> s.mask() == bits,
{
}

} // verus!
