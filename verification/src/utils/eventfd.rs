//! Event counters on top of auto-reset event objects.
//!
//! The event object belongs to the host; here stand the counter and what each
//! host call asks for and means.
use crate::utils::epoll::{Pollable, INFINITE, WAIT_OBJECT_0};
use vstd::prelude::*;

verus! {

/// Reading does not wait.
pub const EFD_NONBLOCK: i32 = 1;

/// Reading takes one off the counter; not supported and ignored.
pub const EFD_SEMAPHORE: i32 = 2;

/// One more than the largest value of a counter.
pub const COUNTER_MODULUS: u128 = 0x1_0000_0000_0000_0000;

/// Why an operation on an event failed.
#[derive(Clone, Copy, PartialEq, Eq, Structural, Debug)]
pub enum EventFdError {
    /// The host reports this error number.
    Os(i32),
    /// The event is not signalled.
    WouldBlock,
}

/// An event object of the host.
#[derive(Debug)]
pub struct EventFd {
    handle: Pollable,
    nonblock: bool,
}

/// The counter of an event. All clones of an event share one counter.
#[derive(Debug)]
pub struct EventCounter {
    value: u64,
}

/// A wait for one handle.
#[derive(Clone, Copy, PartialEq, Eq, Structural, Debug)]
pub struct SingleWait {
    pub handle: Pollable,
    pub timeout_ms: u32,
}

/// What a counter holds after a write; it wraps around.
pub open spec fn counted(value: int, added: int) -> int {
    (value + added) % (COUNTER_MODULUS as int)
}

impl EventCounter {
    /// What the counter holds.
    pub closed spec fn value(&self) -> u64 {
        self.value
    }

    /// A counter at zero.
    pub fn new() -> (counter: EventCounter)
        ensures
            counter.value() == 0,
    {
        EventCounter { value: 0 }
    }
}

impl EventFd {
    /// The event object.
    pub closed spec fn event(&self) -> Pollable {
        self.handle
    }

    /// Reading does not wait.
    pub closed spec fn is_nonblock(&self) -> bool {
        self.nonblock
    }

    /// Makes an event of the object that the host has created. The host
    /// reports a failure as handle zero, with its last error number.
    pub fn new(flag: i32, handle: Pollable, last_error: i32) -> (r: Result<EventFd, EventFdError>)
        ensures
            match r {
                Ok(e) => handle != 0 && e.event() == handle && e.is_nonblock() == (flag
                    & EFD_NONBLOCK != 0),
                Err(e) => handle == 0 && e == EventFdError::Os(last_error),
            },
    {
        if handle == 0 {
            return Err(EventFdError::Os(last_error));
        }
        Ok(EventFd { handle, nonblock: (flag & EFD_NONBLOCK) != 0 })
    }

    /// Adds `v` to the counter and returns the object to signal. The value
    /// counts even if signalling then fails.
    pub fn write(&self, counter: &mut EventCounter, v: u64) -> (handle: Pollable)
        ensures
            handle == self.event(),
            final(counter).value() == counted(old(counter).value() as int, v as int),
    {
        counter.value = counter.value.wrapping_add(v);
        self.handle
    }

    /// What a write returns once the host was told to signal the object.
    pub fn written(ret: i32, last_error: i32) -> (r: Result<(), EventFdError>)
        ensures
            r == if ret == 0 {
                Err(EventFdError::Os(last_error))
            } else {
                Ok::<(), EventFdError>(())
            },
    {
        if ret == 0 {
            return Err(EventFdError::Os(last_error));
        }
        Ok(())
    }

    /// The wait that comes before a read.
    pub fn read_wait(&self) -> (wait: SingleWait)
        ensures
            wait.handle == self.event(),
            wait.timeout_ms == if self.is_nonblock() {
                0
            } else {
                INFINITE
            },
    {
        SingleWait {
            handle: self.handle,
            timeout_ms: if self.nonblock {
                0
            } else {
                INFINITE
            },
        }
    }

    /// Takes what the counter holds, if the wait found the event signalled.
    pub fn read(&self, counter: &mut EventCounter, ret: u32) -> (r: Result<u64, EventFdError>)
        ensures
            if ret == WAIT_OBJECT_0 {
                r == Ok::<u64, EventFdError>(old(counter).value()) && final(counter).value() == 0
            } else {
                r == Err::<u64, EventFdError>(EventFdError::WouldBlock) && final(counter).value()
                    == old(counter).value()
            },
    {
        if ret != WAIT_OBJECT_0 {
            return Err(EventFdError::WouldBlock);
        }
        let value: u64 = counter.value;
        counter.value = 0;
        Ok(value)
    }

    /// Makes a clone of the handle that the host has duplicated. The host
    /// reports a failure as zero. The clone shares the event's counter.
    pub fn try_clone(&self, ret: i32, new_handle: Pollable, last_error: i32) -> (r: Result<
        EventFd,
        EventFdError,
    >)
        ensures
            match r {
                Ok(e) => ret != 0 && e.event() == new_handle && e.is_nonblock()
                    == self.is_nonblock(),
                Err(e) => ret == 0 && e == EventFdError::Os(last_error),
            },
    {
        if ret == 0 {
            return Err(EventFdError::Os(last_error));
        }
        Ok(EventFd { handle: new_handle, nonblock: self.nonblock })
    }

    /// The handle to wait for.
    pub fn get_write_fd(&self) -> (handle: Pollable)
        ensures
            handle == self.event(),
    {
        self.handle
    }

    /// The handle to wait for.
    pub fn as_raw_handle(&self) -> (handle: Pollable)
        ensures
            handle == self.event(),
    {
        self.handle
    }
}

/// What a counter holds after a series of writes.
pub open spec fn counted_all(value: int, writes: Seq<u64>) -> int
    decreases writes.len(),
{
    if writes.len() == 0 {
        value
    } else {
        counted(counted_all(value, writes.drop_last()), writes.last() as int)
    }
}

/// The sum of the values.
pub open spec fn total(writes: Seq<u64>) -> int
    decreases writes.len(),
{
    if writes.len() == 0 {
        0
    } else {
        total(writes.drop_last()) + writes.last()
    }
}

/// A read gives the sum of the writes since the read before, on whichever
/// clone they were made, as far as the sum fits a counter; beyond that it
/// wraps around.
pub proof fn read_gives_the_sum_of_writes(writes: Seq<u64>)
    ensures
        counted_all(0, writes) == total(writes) % (COUNTER_MODULUS as int),
        total(writes) < COUNTER_MODULUS ==> counted_all(0, writes) == total(writes),
    decreases writes.len(),
{
    lemma_total_is_natural(writes);
    if writes.len() > 0 {
        read_gives_the_sum_of_writes(writes.drop_last());
        let before = total(writes.drop_last());
        let last = writes.last() as int;
        vstd::arithmetic::div_mod::lemma_add_mod_noop(before, last, COUNTER_MODULUS as int);
        vstd::arithmetic::div_mod::lemma_add_mod_noop(
            before % (COUNTER_MODULUS as int),
            last,
            COUNTER_MODULUS as int,
        );
    }
}

proof fn lemma_total_is_natural(writes: Seq<u64>)
    ensures
        total(writes) >= 0,
    decreases writes.len(),
{
    if writes.len() > 0 {
        lemma_total_is_natural(writes.drop_last());
    }
}

/// A write adds to what the counter holds, and the next read that finds the
/// event signalled takes all of it and leaves zero; one that does not leaves
/// the counter alone.
pub proof fn reads_take_what_was_written(
    event: EventFd,
    reader: EventFd,
    counter: &mut EventCounter,
    later: &mut EventCounter,
    v: u64,
    signalled: Pollable,
    ret: u32,
    r: Result<u64, EventFdError>,
)
    requires
        call_ensures(EventFd::write, (&event, counter, v), signalled),
        call_ensures(EventFd::read, (&reader, later, ret), r),
        *old(later) == *final(counter),
    ensures
        signalled == event.event(),
        r is Ok <==> ret == 0,
        r is Ok ==> final(later).value() == 0,
        r is Err ==> final(later).value() == final(counter).value() && r == Err::<
            u64,
            EventFdError,
        >(EventFdError::WouldBlock),
        r matches Ok(n) ==> {
            ||| n == old(counter).value() + v
            ||| n + 0x1_0000_0000_0000_0000 == old(counter).value() + v
        },
        r matches Ok(n) ==> (old(counter).value() + v < 0x1_0000_0000_0000_0000 ==> n == old(
            counter).value() + v),
{
}

/// Only events that are asked to, by bit 0 of the flags, do not wait; all
/// others wait forever. A clone is like its event but for the handle.
pub proof fn events_wait_unless_told_not_to(
    flag: i32,
    handle: Pollable,
    last_error: i32,
    r: Result<EventFd, EventFdError>,
    event: EventFd,
    wait: SingleWait,
    ret: i32,
    duplicate: Pollable,
    clone: Result<EventFd, EventFdError>,
)
    requires
        call_ensures(EventFd::new, (flag, handle, last_error), r),
        call_ensures(EventFd::read_wait, (&event,), wait),
        call_ensures(EventFd::try_clone, (&event, ret, duplicate, last_error), clone),
    ensures
        r is Ok <==> handle != 0,
        r matches Ok(e) ==> e.event() == handle && (e.is_nonblock() <==> flag & 1 != 0),
        r matches Err(e) ==> e == EventFdError::Os(last_error),
        wait.handle == event.event(),
        wait.timeout_ms == if event.is_nonblock() {
            0
        } else {
            0xFFFF_FFFFu32
        },
        clone is Ok <==> ret != 0,
        clone matches Ok(e) ==> e.event() == duplicate && e.is_nonblock() == event.is_nonblock(),
        clone matches Err(e) ==> e == EventFdError::Os(last_error),
{
}

/// A write is done exactly if the host could signal the object.
pub proof fn writes_are_done_once_signalled(ret: i32, last_error: i32, r: Result<(), EventFdError>)
    requires
        call_ensures(EventFd::written, (ret, last_error), r),
    ensures
        r is Ok <==> ret != 0,
        r matches Err(e) ==> e == EventFdError::Os(last_error),
{
}

} // verus!
