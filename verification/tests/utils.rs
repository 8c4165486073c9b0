use krun_whpx::utils::epoll::{
    ControlOperation, Epoll, EpollEvent, EventSet, Pollable, WaitStart, Woken, INFINITE,
    WAIT_OBJECT_0, WAIT_TIMEOUT,
};
use krun_whpx::utils::eventfd::{EventCounter, EventFd, EventFdError, EFD_NONBLOCK, EFD_SEMAPHORE};
use krun_whpx::utils::time::{
    nanoseconds, seconds_to_nanoseconds, ClockNumbers, ClockReading, ClockType, LocalTime,
    TimestampUs, NANOS_PER_SECOND,
};
use std::collections::HashMap;

/// Auto-reset event objects.
struct Host {
    signalled: HashMap<Pollable, bool>,
    next: Pollable,
    probes: usize,
}

impl Host {
    fn new() -> Host {
        Host { signalled: HashMap::new(), next: 0x40, probes: 0 }
    }

    fn create(&mut self) -> Pollable {
        self.next += 4;
        self.signalled.insert(self.next, false);
        self.next
    }

    fn set(&mut self, handle: Pollable) -> i32 {
        match self.signalled.get_mut(&handle) {
            Some(s) => {
                *s = true;
                1
            }
            None => 0,
        }
    }

    fn wait(&mut self, handles: &[Pollable], timeout_ms: u32) -> u32 {
        self.probes += 1;
        for (i, h) in handles.iter().enumerate() {
            match self.signalled.get_mut(h) {
                None => return 0xFFFF_FFFF,
                Some(s) => {
                    if *s {
                        *s = false;
                        return WAIT_OBJECT_0 + i as u32;
                    }
                }
            }
        }
        assert_ne!(timeout_ms, INFINITE);
        WAIT_TIMEOUT
    }
}

fn epoll_wait(
    epoll: &Epoll,
    host: &mut Host,
    max_events: usize,
    timeout: i32,
    events: &mut [EpollEvent],
) -> Result<usize, ()> {
    match epoll.wait(timeout) {
        WaitStart::Sleep(ms) => {
            assert_eq!(ms.is_some(), timeout > 0);
            Ok(0)
        }
        WaitStart::Wait(wait) => {
            let ret = host.wait(&wait.handles(), wait.timeout_ms());
            match wait.woken(ret, max_events, events.len()) {
                Woken::TimedOut => Ok(0),
                Woken::Failed => Err(()),
                Woken::Signalled(mut scan) => {
                    while let Some(handle) = scan.probe() {
                        let ret = host.wait(&[handle], 0);
                        scan.probed(ret);
                    }
                    Ok(scan.finish(events))
                }
            }
        }
    }
}

fn write(host: &mut Host, evt: &EventFd, counter: &mut EventCounter, v: u64) -> Result<(), EventFdError> {
    let handle = evt.write(counter, v);
    EventFd::written(host.set(handle), 6)
}

fn read(host: &mut Host, evt: &EventFd, counter: &mut EventCounter) -> Result<u64, EventFdError> {
    let wait = evt.read_wait();
    let ret = host.wait(&[wait.handle], wait.timeout_ms);
    evt.read(counter, ret)
}

#[test]
fn test_event_ops() {
    let mut event = EpollEvent::default();
    assert_eq!(event.events(), 0);
    assert_eq!(event.data(), 0);

    event = EpollEvent::new(EventSet::IN(), 2);
    assert_eq!(event.events(), 1);
    assert_eq!(event.event_set(), EventSet::IN());
    assert_eq!(event.data(), 2);
}

#[test]
fn test_epoll_timeout() {
    let epoll = Epoll::new().unwrap();
    let mut host = Host::new();
    let mut ready_events = vec![EpollEvent::default(); 10];
    let ev_count = epoll_wait(&epoll, &mut host, 10, 10, &mut ready_events[..]).unwrap();
    assert_eq!(ev_count, 0);
}

#[test]
fn test_epoll_add_wait() {
    let mut epoll = Epoll::new().unwrap();
    let mut host = Host::new();

    let evt = EventFd::new(EFD_NONBLOCK, host.create(), 0).unwrap();
    let mut counter = EventCounter::new();
    write(&mut host, &evt, &mut counter, 1).unwrap();

    let p = evt.as_raw_handle() as Pollable;
    let event = EpollEvent::new(EventSet::IN(), p as u64);
    epoll.ctl(ControlOperation::Add, p, &event).unwrap();

    let mut ready_events = vec![EpollEvent::default(); 10];
    let ev_count = epoll_wait(&epoll, &mut host, 10, 1000, &mut ready_events[..]).unwrap();
    assert!(ev_count >= 1);
    assert_eq!(ready_events[0].data(), p as u64);
}

#[test]
fn test_epoll_delete() {
    let mut epoll = Epoll::new().unwrap();
    let mut host = Host::new();

    let evt = EventFd::new(EFD_NONBLOCK, host.create(), 0).unwrap();
    let mut counter = EventCounter::new();
    write(&mut host, &evt, &mut counter, 1).unwrap();

    let p = evt.as_raw_handle() as Pollable;
    let event = EpollEvent::new(EventSet::IN(), p as u64);
    epoll.ctl(ControlOperation::Add, p, &event).unwrap();
    epoll.ctl(ControlOperation::Delete, p, &EpollEvent::default()).unwrap();

    let mut ready_events = vec![EpollEvent::default(); 10];
    let ev_count = epoll_wait(&epoll, &mut host, 10, 10, &mut ready_events[..]).unwrap();
    assert_eq!(ev_count, 0);
}

#[test]
fn event_sets_have_one_bit_for_each_kind() {
    assert_eq!(EventSet::IN().bits(), 1);
    assert_eq!(EventSet::OUT().bits(), 2);
    assert_eq!(EventSet::HANG_UP().bits(), 4);
    assert_eq!(EventSet::READ_HANG_UP().bits(), 8);
    assert_eq!(EventSet::EDGE_TRIGGERED().bits(), 16);
    assert_eq!(EventSet::all().bits(), 31);
    assert_eq!(EventSet::from_bits(31), Some(EventSet::all()));
    assert_eq!(EventSet::from_bits(32), None);
    assert_eq!(EventSet::from_bits(0x8000_0001), None);
    assert_eq!(EventSet::empty().bits(), 0);
    assert_eq!(EventSet::IN().union(EventSet::HANG_UP()).bits(), 5);
    assert!(EventSet::all().contains(EventSet::IN().union(EventSet::OUT())));
    assert!(!EventSet::IN().contains(EventSet::IN().union(EventSet::OUT())));
    assert!(EventSet::empty().contains(EventSet::empty()));
    assert!(EventSet::all().intersects(EventSet::OUT()));
    assert!(!EventSet::IN().intersects(EventSet::OUT()));
    assert_eq!(EventSet::all().difference(EventSet::OUT()).difference(EventSet::IN()).bits(), 28);
}

#[test]
fn waiting_handles_the_timeout_of_the_caller() {
    let mut epoll = Epoll::new().unwrap();
    assert_eq!(epoll.as_raw_handle(), 0);
    assert!(matches!(epoll.wait(0), WaitStart::Sleep(None)));
    assert!(matches!(epoll.wait(-1), WaitStart::Sleep(None)));
    assert!(matches!(epoll.wait(7), WaitStart::Sleep(Some(7))));
    epoll.ctl(ControlOperation::Add, 5, &EpollEvent::new(EventSet::IN(), 5)).unwrap();
    match epoll.wait(-1) {
        WaitStart::Wait(w) => {
            assert_eq!(w.timeout_ms(), 0xFFFF_FFFF);
            assert_eq!(w.handles(), vec![5]);
        }
        _ => panic!("expected a wait"),
    }
    match epoll.wait(7) {
        WaitStart::Wait(w) => {
            assert_eq!(w.timeout_ms(), 7);
            assert!(matches!(w.woken(WAIT_TIMEOUT, 1, 1), Woken::TimedOut));
        }
        _ => panic!("expected a wait"),
    }
}

#[test]
fn failed_wait_is_told_apart() {
    let mut epoll = Epoll::new().unwrap();
    let mut host = Host::new();
    epoll.ctl(ControlOperation::Add, 0x999, &EpollEvent::new(EventSet::IN(), 5)).unwrap();
    let mut events = vec![EpollEvent::default(); 2];
    assert_eq!(epoll_wait(&epoll, &mut host, 2, 10, &mut events[..]), Err(()));
}

#[test]
fn all_signalled_handles_are_reported_and_none_is_lost() {
    let mut epoll = Epoll::new().unwrap();
    let mut host = Host::new();
    let handles: Vec<Pollable> = (0..4).map(|_| host.create()).collect();
    for h in &handles {
        epoll.ctl(ControlOperation::Add, *h, &EpollEvent::new(EventSet::IN(), *h as u64)).unwrap();
    }
    host.set(handles[1]);
    host.set(handles[3]);
    let mut events = vec![EpollEvent::default(); 8];
    let n = epoll_wait(&epoll, &mut host, 8, 10, &mut events[..]).unwrap();
    assert_eq!(n, 2);
    let mut seen: Vec<u64> = events[..n].iter().map(|e| e.data()).collect();
    seen.sort();
    assert_eq!(seen, vec![handles[1] as u64, handles[3] as u64]);
    assert_eq!(epoll_wait(&epoll, &mut host, 8, 10, &mut events[..]).unwrap(), 0);
}

#[test]
fn full_event_list_ends_the_probes() {
    let mut epoll = Epoll::new().unwrap();
    let mut host = Host::new();
    for _ in 0..3 {
        let h = host.create();
        epoll.ctl(ControlOperation::Add, h, &EpollEvent::new(EventSet::IN(), h as u64)).unwrap();
        host.set(h);
    }
    let mut events = vec![EpollEvent::default(); 8];
    assert_eq!(epoll_wait(&epoll, &mut host, 1, 10, &mut events[..]).unwrap(), 1);
    assert_eq!(events[1], EpollEvent::default());
    // Nothing is probed without room, and nothing is reported.
    let before = host.probes;
    assert_eq!(epoll_wait(&epoll, &mut host, 0, 10, &mut events[..]).unwrap(), 0);
    assert_eq!(host.probes, before + 1);
}

#[test]
fn modifying_changes_only_what_is_registered() {
    let mut epoll = Epoll::new().unwrap();
    let mut host = Host::new();
    let h = host.create();
    epoll.ctl(ControlOperation::Modify, h, &EpollEvent::new(EventSet::IN(), 1)).unwrap();
    assert!(matches!(epoll.wait(0), WaitStart::Sleep(None)));
    epoll.ctl(ControlOperation::Add, h, &EpollEvent::new(EventSet::IN(), 1)).unwrap();
    epoll.ctl(ControlOperation::Modify, h, &EpollEvent::new(EventSet::OUT(), 9)).unwrap();
    host.set(h);
    let mut events = vec![EpollEvent::default(); 1];
    assert_eq!(epoll_wait(&epoll, &mut host, 1, 0, &mut events[..]).unwrap(), 1);
    assert_eq!(events[0], EpollEvent::new(EventSet::OUT(), 9));
    assert_eq!(events[0].fd(), 9);
}

#[test]
fn test_new() {
    let mut host = Host::new();
    EventFd::new(EFD_NONBLOCK, host.create(), 0).unwrap();
    EventFd::new(0, host.create(), 0).unwrap();
}

#[test]
fn test_read_write() {
    let mut host = Host::new();
    let mut counter = EventCounter::new();
    let evt = EventFd::new(EFD_NONBLOCK, host.create(), 0).unwrap();
    write(&mut host, &evt, &mut counter, 55).unwrap();
    assert_eq!(read(&mut host, &evt, &mut counter).unwrap(), 55);
}

#[test]
fn test_read_nothing() {
    let mut host = Host::new();
    let mut counter = EventCounter::new();
    let evt = EventFd::new(EFD_NONBLOCK, host.create(), 0).unwrap();
    let r = read(&mut host, &evt, &mut counter);
    match r {
        Err(EventFdError::WouldBlock) => (),
        _ => panic!("Unexpected"),
    }
}

#[test]
fn test_clone() {
    let mut host = Host::new();
    let mut counter = EventCounter::new();
    let evt = EventFd::new(EFD_NONBLOCK, host.create(), 0).unwrap();
    let evt_clone = evt.try_clone(1, evt.get_write_fd(), 0).unwrap();
    write(&mut host, &evt, &mut counter, 923).unwrap();
    assert_eq!(read(&mut host, &evt_clone, &mut counter).unwrap(), 923);
}

#[test]
fn reads_sum_writes_and_wrap() {
    let mut host = Host::new();
    let mut counter = EventCounter::new();
    let evt = EventFd::new(EFD_NONBLOCK, host.create(), 0).unwrap();
    write(&mut host, &evt, &mut counter, 5).unwrap();
    write(&mut host, &evt, &mut counter, 7).unwrap();
    assert_eq!(read(&mut host, &evt, &mut counter), Ok(12));
    write(&mut host, &evt, &mut counter, u64::MAX).unwrap();
    write(&mut host, &evt, &mut counter, 3).unwrap();
    assert_eq!(read(&mut host, &evt, &mut counter), Ok(2));
    assert_eq!(read(&mut host, &evt, &mut counter), Err(EventFdError::WouldBlock));
}

#[test]
fn event_errors_carry_the_error_number() {
    assert_eq!(EventFd::new(0, 0, 8).unwrap_err(), EventFdError::Os(8));
    assert_eq!(EventFd::written(0, 6), Err(EventFdError::Os(6)));
    assert_eq!(EventFd::written(1, 6), Ok(()));
    let evt = EventFd::new(EFD_SEMAPHORE, 4, 0).unwrap();
    assert_eq!(evt.try_clone(0, 0, 5).unwrap_err(), EventFdError::Os(5));
    // Reading waits forever unless asked not to.
    assert_eq!(evt.read_wait().timeout_ms, 0xFFFF_FFFF);
    assert_eq!(EventFd::new(EFD_NONBLOCK | EFD_SEMAPHORE, 4, 0).unwrap().read_wait().timeout_ms, 0);
}

fn numbers() -> ClockNumbers {
    ClockNumbers {
        monotonic: libc::CLOCK_MONOTONIC,
        real: libc::CLOCK_REALTIME,
        process_cpu: libc::CLOCK_PROCESS_CPUTIME_ID,
        thread_cpu: libc::CLOCK_THREAD_CPUTIME_ID,
    }
}

fn read_clock(clock_type: ClockType) -> ClockReading {
    let id = nix::time::ClockId::from_raw(numbers().number(clock_type));
    let shown = nix::time::clock_gettime(id).unwrap();
    ClockReading::Timespec { sec: shown.tv_sec(), nsec: shown.tv_nsec() }
}

fn get_time(clock_type: ClockType) -> u64 {
    krun_whpx::utils::time::get_time(clock_type, read_clock(clock_type)).unwrap()
}

#[test]
fn test_get_time() {
    for _ in 0..1000 {
        assert!(get_time(ClockType::Monotonic) <= get_time(ClockType::Monotonic));
    }

    for _ in 0..1000 {
        assert!(get_time(ClockType::ProcessCpu) <= get_time(ClockType::ProcessCpu));
    }

    for _ in 0..1000 {
        assert!(get_time(ClockType::ThreadCpu) <= get_time(ClockType::ThreadCpu));
    }

    assert_ne!(get_time(ClockType::Real), 0);
}

#[test]
fn real_clock_agrees_with_the_system_time() {
    let before = std::time::SystemTime::now()
        .duration_since(std::time::UNIX_EPOCH)
        .unwrap()
        .as_nanos();
    let read = get_time(ClockType::Real) as u128;
    let after = std::time::SystemTime::now()
        .duration_since(std::time::UNIX_EPOCH)
        .unwrap()
        .as_nanos();
    assert!(before <= read && read <= after);
}

#[test]
fn clocks_have_the_host_numbers() {
    assert_eq!(numbers().number(ClockType::Monotonic), libc::CLOCK_MONOTONIC);
    assert_eq!(numbers().number(ClockType::Real), libc::CLOCK_REALTIME);
    assert_eq!(numbers().number(ClockType::ProcessCpu), libc::CLOCK_PROCESS_CPUTIME_ID);
    assert_eq!(numbers().number(ClockType::ThreadCpu), libc::CLOCK_THREAD_CPUTIME_ID);
}

#[test]
fn test_local_time_display() {
    let local_time = LocalTime {
        sec: 30,
        min: 15,
        hour: 10,
        mday: 4,
        mon: 6,
        year: 119,
        nsec: 123_456_789,
    };
    assert_eq!(
        String::from("2019-07-04T10:15:30.123456789"),
        local_time.to_string()
    );

    let local_time = LocalTime {
        sec: 5,
        min: 5,
        hour: 5,
        mday: 23,
        mon: 7,
        year: 44,
        nsec: 123,
    };
    assert_eq!(
        String::from("1944-08-23T05:05:05.000000123"),
        local_time.to_string()
    );
}

#[test]
fn negative_times_keep_their_sign() {
    let t = LocalTime { sec: -5, min: 0, hour: 100, mday: 1, mon: -1, year: -2000, nsec: -7 };
    assert_eq!(t.to_string(), format!("{}-{:02}-{:02}T{:02}:{:02}:{:02}.{:09}", -100, 0, 1, 100, 0, -5, -7));
}

#[test]
fn test_seconds_to_nanoseconds() {
    assert_eq!(
        seconds_to_nanoseconds(100).unwrap() as u64,
        100 * NANOS_PER_SECOND
    );

    assert!(seconds_to_nanoseconds(9_223_372_037).is_none());
}

#[test]
fn stamps_of_given_readings() {
    assert_eq!(nanoseconds(3, 17), Some(3_000_000_017));
    assert_eq!(nanoseconds(0, 0), Some(0));
    assert_eq!(nanoseconds(9_223_372_037, 0), None);
    assert_eq!(nanoseconds(-1, 5), Some(u64::MAX - 999_999_999 + 5));
    assert_eq!(nanoseconds(-1, 1_000_000_000), None);
    assert_eq!(seconds_to_nanoseconds(-9_223_372_036), Some(-9_223_372_036_000_000_000));
    assert_eq!(seconds_to_nanoseconds(-9_223_372_037), None);
    let shown = |sec: i64, nsec: i64| ClockReading::Timespec { sec, nsec };
    assert_eq!(
        TimestampUs::from_readings(shown(0, 1_234_567), shown(0, 2_999)),
        Some(TimestampUs { time_us: 1234, cputime_us: 2 })
    );
    assert_eq!(TimestampUs::from_readings(shown(0, 1), shown(i64::MAX, 0)), None);
    assert_eq!(TimestampUs::from_readings(shown(i64::MAX, 0), shown(0, 1)), None);
    let now = TimestampUs::from_readings(
        read_clock(ClockType::Monotonic),
        read_clock(ClockType::ProcessCpu),
    )
    .unwrap();
    assert!(now.time_us <= get_time(ClockType::Monotonic) / 1000);
}

#[test]
fn later_moments_have_later_stamps() {
    assert!(nanoseconds(1, 999_999_999).unwrap() < nanoseconds(2, 0).unwrap());
    assert!(nanoseconds(2, 0).unwrap() <= nanoseconds(2, 0).unwrap());
}

#[test]
fn hosts_without_cpu_clocks_show_zero_for_them() {
    let time = |clock: ClockType, since_start: u128, since_epoch: u128| {
        krun_whpx::utils::time::get_time(clock, ClockReading::Elapsed { since_start, since_epoch })
    };
    assert_eq!(time(ClockType::Monotonic, 5, 9), Some(5));
    assert_eq!(time(ClockType::Real, 5, 9), Some(9));
    assert_eq!(time(ClockType::ProcessCpu, 5, 9), Some(0));
    assert_eq!(time(ClockType::ThreadCpu, 5, 9), Some(0));
    assert_eq!(time(ClockType::Real, 0, u64::MAX as u128 + 4), Some(3));
}

#[test]
fn stamps_do_not_go_back() {
    let at = |sec: i64, nsec: i64| nanoseconds(sec, nsec).unwrap();
    assert_eq!(at(1, 999_999_999), 1_999_999_999);
    assert_eq!(at(2, 0), 2_000_000_000);
    assert!(at(1, 999_999_999) < at(2, 0));
    let shown = read_clock(ClockType::Monotonic);
    let again = read_clock(ClockType::Monotonic);
    let stamp = |r| krun_whpx::utils::time::get_time(ClockType::Monotonic, r).unwrap();
    assert!(stamp(shown) <= stamp(again));
}

#[test]
fn only_the_epoch_is_zero() {
    assert_eq!(nanoseconds(0, 0), Some(0));
    assert_eq!(nanoseconds(0, 1), Some(1));
    assert_eq!(nanoseconds(1, 0), Some(1_000_000_000));
}
