use krun_whpx::devices::rng::{Rng, RngStep};
use krun_whpx::polly::event_manager::{event_count, Error, EventManager};
use krun_whpx::utils::epoll::{EpollEvent, EventSet, Pollable, WaitStart, Woken, WAIT_OBJECT_0};
use krun_whpx::utils::eventfd::{EventCounter, EventFd};
use krun_whpx::utils::os_error::OsError;
use std::sync::{Arc, Mutex};

fn new_event(handle: Pollable) -> EventFd {
    EventFd::new(0, handle, 0).unwrap()
}

struct DummySubscriber {
    event_fd_1: EventFd,
    event_fd_2: EventFd,

    processed_ev1_out: bool,
    processed_ev2_out: bool,
    processed_ev1_in: bool,

    register_ev2: bool,
    unregister_ev1: bool,
    modify_ev1: bool,
}

type Manager = EventManager<Mutex<DummySubscriber>>;

fn eventfd_pollable(efd: &EventFd) -> Pollable {
    efd.as_raw_handle()
}

impl DummySubscriber {
    fn new() -> Self {
        DummySubscriber {
            event_fd_1: new_event(0x100),
            event_fd_2: new_event(0x104),
            processed_ev1_out: false,
            processed_ev2_out: false,
            processed_ev1_in: false,
            register_ev2: false,
            unregister_ev1: false,
            modify_ev1: false,
        }
    }

    fn register_ev2(&mut self) {
        self.register_ev2 = true;
    }

    fn unregister_ev1(&mut self) {
        self.unregister_ev1 = true;
    }

    fn modify_ev1(&mut self) {
        self.modify_ev1 = true;
    }

    fn processed_ev1_out(&self) -> bool {
        self.processed_ev1_out
    }

    fn processed_ev2_out(&self) -> bool {
        self.processed_ev2_out
    }

    fn processed_ev1_in(&self) -> bool {
        self.processed_ev1_in
    }

    fn reset_state(&mut self) {
        self.processed_ev1_out = false;
        self.processed_ev2_out = false;
        self.processed_ev1_in = false;
    }

    fn handle_updates(&mut self, event_manager: &mut Manager) {
        if self.register_ev2 {
            let p2 = eventfd_pollable(&self.event_fd_2);
            let subscriber = event_manager
                .subscriber(eventfd_pollable(&self.event_fd_1))
                .unwrap();
            event_manager
                .register(p2, EpollEvent::new(EventSet::OUT(), p2 as u64), subscriber)
                .unwrap();
            self.register_ev2 = false;
        }

        if self.unregister_ev1 {
            event_manager
                .unregister(eventfd_pollable(&self.event_fd_1))
                .unwrap();
            self.unregister_ev1 = false;
        }

        if self.modify_ev1 {
            let p1 = eventfd_pollable(&self.event_fd_1);
            event_manager
                .modify(p1, EpollEvent::new(EventSet::IN(), p1 as u64))
                .unwrap();
            self.modify_ev1 = false;
        }
    }

    fn handle_in(&mut self, source: Pollable) {
        if eventfd_pollable(&self.event_fd_1) == source {
            self.processed_ev1_in = true;
        }
    }

    fn handle_out(&mut self, source: Pollable) {
        if eventfd_pollable(&self.event_fd_1) == source {
            self.processed_ev1_out = true;
        } else if eventfd_pollable(&self.event_fd_2) == source {
            self.processed_ev2_out = true;
        }
    }

    fn process(&mut self, event: &EpollEvent, event_manager: &mut Manager) {
        let source = event.data() as Pollable;
        let event_set = EventSet::from_bits(event.events()).unwrap();

        let all_but_in_out = EventSet::all()
            .difference(EventSet::OUT())
            .difference(EventSet::IN());
        if event_set.intersects(all_but_in_out) {
            return;
        }

        self.handle_updates(event_manager);

        if event_set == EventSet::IN() {
            self.handle_in(source);
        } else if event_set == EventSet::OUT() {
            self.handle_out(source);
        }
    }

    fn interest_list(&self) -> Vec<EpollEvent> {
        let p1 = eventfd_pollable(&self.event_fd_1);
        vec![EpollEvent::new(EventSet::OUT(), p1 as u64)]
    }
}

/// Runs the manager on a host on which every event object is ready.
fn run(event_manager: &mut Manager, milliseconds: i32) -> Result<usize, Error> {
    let start = if milliseconds < 0 {
        event_manager.run()
    } else {
        event_manager.run_with_timeout(milliseconds)
    };
    let waited = match start {
        WaitStart::Sleep(_) => Ok(0),
        WaitStart::Wait(wait) => {
            assert!(!wait.handles().is_empty());
            match event_manager.woken(wait, WAIT_OBJECT_0) {
                Woken::Signalled(mut scan) => {
                    while scan.probe().is_some() {
                        scan.probed(WAIT_OBJECT_0);
                    }
                    Ok(event_manager.collect(scan))
                }
                Woken::TimedOut => Ok(0),
                Woken::Failed => Err(OsError { code: None, text: String::new() }),
            }
        }
    };
    let count = event_count(waited, None)?;
    for ev_index in 0..count {
        if let Some((event, subscriber)) = event_manager.dispatch(ev_index) {
            subscriber.lock().unwrap().process(&event, event_manager);
        }
    }
    Ok(count)
}

fn add_subscriber(
    event_manager: &mut Manager,
    subscriber: Arc<Mutex<DummySubscriber>>,
) -> Result<(), Error> {
    let list = subscriber.lock().unwrap().interest_list();
    event_manager.add_subscriber(subscriber, list)
}

#[test]
fn test_register() {
    let mut event_manager = Manager::new().unwrap();
    let dummy_subscriber = Arc::new(Mutex::new(DummySubscriber::new()));

    add_subscriber(&mut event_manager, dummy_subscriber.clone()).unwrap();

    dummy_subscriber.lock().unwrap().register_ev2();

    run(&mut event_manager, -1).unwrap();
    assert!(dummy_subscriber.lock().unwrap().processed_ev1_out());
    assert!(!dummy_subscriber.lock().unwrap().processed_ev2_out());

    dummy_subscriber.lock().unwrap().reset_state();
    run(&mut event_manager, -1).unwrap();
    assert!(dummy_subscriber.lock().unwrap().processed_ev1_out());
    assert!(dummy_subscriber.lock().unwrap().processed_ev2_out());
}

#[test]
fn test_unregister() {
    let mut event_manager = Manager::new().unwrap();
    let dummy_subscriber = Arc::new(Mutex::new(DummySubscriber::new()));

    add_subscriber(&mut event_manager, dummy_subscriber.clone()).unwrap();

    dummy_subscriber.lock().unwrap().unregister_ev1();

    run(&mut event_manager, -1).unwrap();
    assert!(dummy_subscriber.lock().unwrap().processed_ev1_out());

    dummy_subscriber.lock().unwrap().reset_state();

    run(&mut event_manager, 100).unwrap();
    assert!(!dummy_subscriber.lock().unwrap().processed_ev1_out());
}

#[test]
fn test_modify() {
    let mut event_manager = Manager::new().unwrap();
    let dummy_subscriber = Arc::new(Mutex::new(DummySubscriber::new()));

    add_subscriber(&mut event_manager, dummy_subscriber.clone()).unwrap();

    dummy_subscriber.lock().unwrap().modify_ev1();
    run(&mut event_manager, -1).unwrap();
    assert!(dummy_subscriber.lock().unwrap().processed_ev1_out());
    assert!(!dummy_subscriber.lock().unwrap().processed_ev2_out());

    dummy_subscriber.lock().unwrap().reset_state();

    let mut counter = EventCounter::new();
    let signal = dummy_subscriber
        .lock()
        .unwrap()
        .event_fd_1
        .write(&mut counter, 1);
    assert_eq!(signal, eventfd_pollable(&dummy_subscriber.lock().unwrap().event_fd_1));

    run(&mut event_manager, -1).unwrap();
    assert!(!dummy_subscriber.lock().unwrap().processed_ev1_out());
    assert!(!dummy_subscriber.lock().unwrap().processed_ev2_out());
    assert!(dummy_subscriber.lock().unwrap().processed_ev1_in());

    let event_fd = new_event(0x108);
    let p = eventfd_pollable(&event_fd);
    let event = EpollEvent::new(EventSet::IN(), p as u64);
    let result = event_manager.modify(p, event);
    match result {
        Err(Error::NotFound(_)) => {}
        _ => panic!("Modifying event did not fail with expected error."),
    };
}

#[test]
fn test_register_errors() {
    let mut event_manager = Manager::new().unwrap();
    let dummy_subscriber = Arc::new(Mutex::new(DummySubscriber::new()));

    add_subscriber(&mut event_manager, dummy_subscriber.clone()).unwrap();

    assert!(add_subscriber(&mut event_manager, dummy_subscriber).is_err())
}

#[test]
fn test_unregister_errors() {
    let mut event_manager = Manager::new().unwrap();
    let dummy_subscriber = Arc::new(Mutex::new(DummySubscriber::new()));

    add_subscriber(&mut event_manager, dummy_subscriber.clone()).unwrap();

    assert!(event_manager
        .unregister(eventfd_pollable(
            &dummy_subscriber.lock().unwrap().event_fd_2
        ))
        .is_err());

    assert!(event_manager
        .unregister(eventfd_pollable(
            &dummy_subscriber.lock().unwrap().event_fd_1
        ))
        .is_ok());
    assert!(event_manager
        .unregister(eventfd_pollable(
            &dummy_subscriber.lock().unwrap().event_fd_1
        ))
        .is_err());
}

#[test]
fn test_get_handler() {
    let mut event_manager = Manager::new().unwrap();
    let dummy_subscriber = Arc::new(Mutex::new(DummySubscriber::new()));

    add_subscriber(&mut event_manager, dummy_subscriber.clone()).unwrap();

    let dummy_p = eventfd_pollable(&dummy_subscriber.lock().unwrap().event_fd_1);
    assert!(event_manager.subscriber(dummy_p).is_ok());
    assert!(event_manager.subscriber(usize::MAX).is_err());
}

#[test]
fn joining_stops_at_the_first_taken_handle() {
    let mut m: EventManager<u8> = EventManager::new().unwrap();
    let event = |p: u64| EpollEvent::new(EventSet::IN(), p);
    m.add_subscriber(Arc::new(1), vec![event(10)]).unwrap();
    let r = m.add_subscriber(Arc::new(2), vec![event(20), event(10), event(30)]);
    assert!(matches!(r, Err(Error::AlreadyExists(10))));
    assert_eq!(*m.subscriber(20).unwrap(), 2);
    assert_eq!(*m.subscriber(10).unwrap(), 1);
    assert!(matches!(m.subscriber(30), Err(Error::NotFound(30))));
}

#[test]
fn events_without_subscriber_are_not_dispatched() {
    let mut m: EventManager<u8> = EventManager::new().unwrap();
    m.register(7, EpollEvent::new(EventSet::IN(), 8), Arc::new(1)).unwrap();
    let wait = match m.run() {
        WaitStart::Wait(w) => w,
        _ => panic!("expected a wait"),
    };
    match m.woken(wait, 0) {
        Woken::Signalled(scan) => assert_eq!(m.collect(scan), 1),
        _ => panic!("expected a signal"),
    }
    assert!(m.dispatch(0).is_none());
    m.register(8, EpollEvent::new(EventSet::IN(), 8), Arc::new(5)).unwrap();
    let (event, subscriber) = m.dispatch(0).unwrap();
    assert_eq!(event, EpollEvent::new(EventSet::IN(), 8));
    assert_eq!(*subscriber, 5);
}

#[test]
fn asking_whether_a_handle_is_pollable_drops_its_events() {
    let mut m: EventManager<u8> = EventManager::new().unwrap();
    assert!(m.is_pollable(3));
    m.register(3, EpollEvent::new(EventSet::IN(), 3), Arc::new(1)).unwrap();
    assert!(m.is_pollable(3));
    assert!(matches!(m.run(), WaitStart::Sleep(None)));
    assert!(m.subscriber(3).is_ok());
}

#[test]
fn interrupted_waits_find_nothing() {
    let e = |code: Option<i32>| OsError { code, text: String::from("broken") };
    assert!(matches!(event_count(Ok(3), Some(4)), Ok(3)));
    assert!(matches!(event_count(Err(e(Some(4))), Some(4)), Ok(0)));
    assert!(matches!(event_count(Err(e(Some(4))), None), Err(Error::Poll(_))));
    assert!(matches!(event_count(Err(e(None)), None), Err(Error::Poll(_))));
    assert!(matches!(event_count(Err(e(Some(5))), Some(4)), Err(Error::Poll(_))));
}

#[test]
fn manager_errors_have_texts() {
    let e = || OsError { code: Some(2), text: String::from("broken") };
    assert_eq!(Error::EpollCreate(e()).to_string(), "Unable to create epoll fd: broken");
    assert_eq!(Error::Poll(e()).to_string(), "Error during epoll call: broken");
    assert_eq!(
        Error::AlreadyExists(usize::MAX).to_string(),
        format!("A handler for the specified pollable {} already exists.", usize::MAX)
    );
    assert_eq!(
        Error::NotFound(0).to_string(),
        "A handler for the specified pollable 0 was not found."
    );
}

#[test]
fn activation_moves_the_subscriber_to_the_queue() {
    let rng = Rng { queue_evt: 20, activate_evt: 10, activated: true };
    let mut m: EventManager<u8> = EventManager::new().unwrap();
    m.add_subscriber(Arc::new(9), rng.interest_list()).unwrap();
    assert_eq!(rng.interest_list(), vec![EpollEvent::new(EventSet::IN(), 10)]);
    rng.handle_activate_event(&mut m);
    assert_eq!(*m.subscriber(20).unwrap(), 9);
    assert!(m.subscriber(10).is_err());
    match m.run() {
        WaitStart::Wait(w) => assert_eq!(w.handles(), vec![20]),
        _ => panic!("expected a wait"),
    }
}

#[test]
fn activation_leaves_a_taken_queue_event_alone() {
    let rng = Rng { queue_evt: 20, activate_evt: 10, activated: true };
    let mut m: EventManager<u8> = EventManager::new().unwrap();
    m.add_subscriber(Arc::new(9), rng.interest_list()).unwrap();
    m.register(20, EpollEvent::new(EventSet::OUT(), 20), Arc::new(3)).unwrap();
    rng.handle_activate_event(&mut m);
    assert_eq!(*m.subscriber(20).unwrap(), 3);
    assert!(m.subscriber(10).is_err());
}

#[test]
fn rng_events_are_sorted_out() {
    let mut rng = Rng { queue_evt: 20, activate_evt: 10, activated: false };
    let queue = EpollEvent::new(EventSet::IN(), 20);
    assert_eq!(rng.process(&queue), RngStep::Unexpected);
    rng.activated = true;
    assert_eq!(rng.process(&queue), RngStep::ReadQueueEvent);
    assert_eq!(rng.process(&EpollEvent::new(EventSet::OUT(), 20)), RngStep::Unexpected);
    assert_eq!(rng.process(&EpollEvent::new(EventSet::IN(), 10)), RngStep::ReadActivateEvent);
    assert_eq!(rng.process(&EpollEvent::new(EventSet::IN(), 30)), RngStep::Unexpected);
    assert_eq!(Rng::queue_event_read(true), RngStep::ProcessRequests);
    assert_eq!(Rng::queue_event_read(false), RngStep::Done);
    assert_eq!(Rng::requests_processed(true), RngStep::SignalUsedQueue);
    assert_eq!(Rng::requests_processed(false), RngStep::Done);
}
