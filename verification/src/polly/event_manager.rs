//! Subscribers and the events they are interested in.
//!
//! The manager decides what to wait for and which subscriber an event goes
//! to; the host waits, and calls the subscriber.
use crate::text;
use crate::utils::epoll;
use crate::utils::epoll::{
    ControlOperation, Epoll, EpollEvent, EpollScan, EpollWait, Pollable, WaitStart, Woken,
};
use crate::utils::os_error::OsError;
use std::collections::HashMap;
use std::sync::Arc;
use vstd::prelude::*;

verus! {

/// How many events are dispatched at most after one wait.
pub const EVENT_BUFFER_SIZE: usize = 128;

/// Errors associated with epoll events handling.
#[derive(Debug)]
pub enum Error {
    /// Cannot create epoll fd.
    EpollCreate(OsError),
    /// Polling I/O error.
    Poll(OsError),
    /// The specified pollable already registered.
    AlreadyExists(Pollable),
    /// The specified pollable is not registered.
    NotFound(Pollable),
}

/// The text that describes an error.
pub open spec fn error_text(e: Error) -> Seq<char> {
    match e {
        Error::EpollCreate(err) => "Unable to create epoll fd: "@ + err.text@,
        Error::Poll(err) => "Error during epoll call: "@ + err.text@,
        Error::AlreadyExists(p) => "A handler for the specified pollable "@ + text::digits(p as nat)
            + " already exists."@,
        Error::NotFound(p) => "A handler for the specified pollable "@ + text::digits(p as nat)
            + " was not found."@,
    }
}

impl Error {
    /// Describes the error.
    pub fn to_string(&self) -> (s: String)
        ensures
            s@ == error_text(*self),
    {
        let mut out: String = String::new();
        match self {
            Error::EpollCreate(err) => {
                out.append("Unable to create epoll fd: ");
                out.append(err.text.as_str());
            },
            Error::Poll(err) => {
                out.append("Error during epoll call: ");
                out.append(err.text.as_str());
            },
            Error::AlreadyExists(pollable) => {
                out.append("A handler for the specified pollable ");
                text::push_unsigned(&mut out, *pollable as u64);
                out.append(" already exists.");
            },
            Error::NotFound(pollable) => {
                out.append("A handler for the specified pollable ");
                text::push_unsigned(&mut out, *pollable as u64);
                out.append(" was not found.");
            },
        }
        out
    }
}

/// Manages I/O notifications using epoll mechanism.
pub struct EventManager<S> {
    epoll: Epoll,
    subscribers: HashMap<Pollable, Arc<S>>,
    ready_events: Vec<EpollEvent>,
}

/// Subscribers and registered events once a subscriber has joined with a list
/// of events, and the handle, if any, that stopped it because it was taken.
/// The events before that one stay registered.
pub open spec fn joined<S>(
    subscribed: Map<Pollable, Arc<S>>,
    registered: Map<Pollable, EpollEvent>,
    subscriber: Arc<S>,
    list: Seq<EpollEvent>,
) -> (Map<Pollable, Arc<S>>, Map<Pollable, EpollEvent>, Option<Pollable>)
    decreases list.len(),
{
    if list.len() == 0 {
        (subscribed, registered, None)
    } else {
        let p = list[0].data as Pollable;
        if subscribed.contains_key(p) {
            (subscribed, registered, Some(p))
        } else {
            joined(
                subscribed.insert(p, subscriber),
                registered.insert(p, list[0]),
                subscriber,
                list.drop_first(),
            )
        }
    }
}

impl<S> EventManager<S> {
    /// The subscriber of each handle.
    pub closed spec fn subscribed(&self) -> Map<Pollable, Arc<S>> {
        self.subscribers@
    }

    /// The events that are waited for.
    pub closed spec fn registered(&self) -> Map<Pollable, EpollEvent> {
        self.epoll.registered()
    }

    /// The events found by the last wait, at the front.
    pub closed spec fn ready(&self) -> Seq<EpollEvent> {
        self.ready_events@
    }

    /// There is room for as many events as are dispatched after one wait.
    pub open spec fn wf(&self) -> bool {
        self.ready().len() == EVENT_BUFFER_SIZE
    }

    /// Create a new EventManager.
    pub fn new() -> (r: Result<EventManager<S>, Error>)
        ensures
            r matches Ok(m) && m.wf() && m.subscribed() == Map::<Pollable, Arc<S>>::empty()
                && m.registered() == Map::<Pollable, EpollEvent>::empty() && forall|i: int|
                0 <= i < EVENT_BUFFER_SIZE ==> #[trigger] m.ready()[i] == (EpollEvent {
                    events: 0,
                    data: 0,
                }),
    {
        let epoll = match Epoll::new() {
            Ok(epoll) => epoll,
            Err(e) => {
                return Err(Error::EpollCreate(e));
            },
        };
        let mut ready_events: Vec<EpollEvent> = Vec::new();
        let mut i: usize = 0;
        while i < EVENT_BUFFER_SIZE
            invariant
                i <= EVENT_BUFFER_SIZE,
                ready_events@.len() == i,
                forall|k: int|
                    0 <= k < i ==> #[trigger] ready_events@[k] == (EpollEvent {
                        events: 0,
                        data: 0,
                    }),
            decreases EVENT_BUFFER_SIZE - i,
        {
            ready_events.push(EpollEvent::default());
            i = i + 1;
        }
        broadcast use vstd::std_specs::hash::group_hash_axioms;

        Ok(EventManager { epoll, subscribers: HashMap::new(), ready_events })
    }

    /// Returns a clone of the subscriber associated with the `fd`.
    pub fn subscriber(&self, fd: Pollable) -> (r: Result<Arc<S>, Error>)
        ensures
            match r {
                Ok(s) => self.subscribed().contains_key(fd) && s == self.subscribed()[fd],
                Err(e) => !self.subscribed().contains_key(fd) && e == Error::NotFound(fd),
            },
    {
        broadcast use vstd::std_specs::hash::group_hash_axioms;

        match self.subscribers.get(&fd) {
            Some(subscriber) => Ok(subscriber.clone()),
            None => Err(Error::NotFound(fd)),
        }
    }

    /// Register a new subscriber with the events it is interested in.
    pub fn add_subscriber(&mut self, subscriber: Arc<S>, interest_list: Vec<EpollEvent>) -> (r:
        Result<(), Error>)
        requires
            old(self).wf(),
        ensures
            final(self).wf(),
            final(self).ready() == old(self).ready(),
            ({
                let (subscribed, registered, taken) = joined(
                    old(self).subscribed(),
                    old(self).registered(),
                    subscriber,
                    interest_list@,
                );
                &&& final(self).subscribed() == subscribed
                &&& final(self).registered() == registered
                &&& r == match taken {
                    Some(p) => Err(Error::AlreadyExists(p)),
                    None => Ok::<(), Error>(()),
                }
            }),
    {
        let mut i: usize = 0;
        assert(interest_list@.skip(0) =~= interest_list@);
        while i < interest_list.len()
            invariant
                i <= interest_list@.len(),
                self.wf(),
                self.ready() == old(self).ready(),
                joined(
                    old(self).subscribed(),
                    old(self).registered(),
                    subscriber,
                    interest_list@,
                ) == joined(
                    self.subscribed(),
                    self.registered(),
                    subscriber,
                    interest_list@.skip(i as int),
                ),
            decreases interest_list@.len() - i,
        {
            let event: EpollEvent = interest_list[i];
            assert(interest_list@.skip(i as int)[0] == event);
            assert(interest_list@.skip(i as int).drop_first() =~= interest_list@.skip(i + 1));
            match self.register(event.data() as Pollable, event, subscriber.clone()) {
                Ok(_) => {},
                Err(e) => {
                    return Err(e);
                },
            }
            i = i + 1;
        }
        Ok(())
    }

    /// Register a new `pollable` with the corresponding `epoll_event` for `subscriber`.
    pub fn register(
        &mut self,
        pollable: Pollable,
        epoll_event: EpollEvent,
        subscriber: Arc<S>,
    ) -> (r: Result<(), Error>)
        ensures
            final(self).ready() == old(self).ready(),
            if old(self).subscribed().contains_key(pollable) {
                &&& r == Err::<(), Error>(Error::AlreadyExists(pollable))
                &&& final(self).subscribed() == old(self).subscribed()
                &&& final(self).registered() == old(self).registered()
            } else {
                &&& r is Ok
                &&& final(self).subscribed() == old(self).subscribed().insert(pollable, subscriber)
                &&& final(self).registered() == old(self).registered().insert(
                    pollable,
                    epoll_event,
                )
            },
    {
        broadcast use vstd::std_specs::hash::group_hash_axioms;

        if self.subscribers.contains_key(&pollable) {
            return Err(Error::AlreadyExists(pollable));
        }
        match self.epoll.ctl(ControlOperation::Add, pollable, &epoll_event) {
            Ok(_) => {},
            Err(e) => {
                return Err(Error::Poll(e));
            },
        }
        self.subscribers.insert(pollable, subscriber);
        Ok(())
    }

    /// Unregister the `pollable`.
    pub fn unregister(&mut self, pollable: Pollable) -> (r: Result<(), Error>)
        ensures
            final(self).ready() == old(self).ready(),
            if old(self).subscribed().contains_key(pollable) {
                &&& r is Ok
                &&& final(self).subscribed() == old(self).subscribed().remove(pollable)
                &&& final(self).registered() == old(self).registered().remove(pollable)
            } else {
                &&& r == Err::<(), Error>(Error::NotFound(pollable))
                &&& final(self).subscribed() == old(self).subscribed()
                &&& final(self).registered() == old(self).registered()
            },
    {
        broadcast use vstd::std_specs::hash::group_hash_axioms;

        match self.subscribers.remove(&pollable) {
            Some(_) => {
                match self.epoll.ctl(ControlOperation::Delete, pollable, &EpollEvent::default()) {
                    Ok(_) => {},
                    Err(e) => {
                        return Err(Error::Poll(e));
                    },
                }
            },
            None => {
                assert(self.subscribed() =~= old(self).subscribed());
                return Err(Error::NotFound(pollable));
            },
        }
        Ok(())
    }

    /// Update the events monitored by `pollable`.
    pub fn modify(&mut self, pollable: Pollable, epoll_event: EpollEvent) -> (r: Result<(), Error>)
        ensures
            final(self).ready() == old(self).ready(),
            final(self).subscribed() == old(self).subscribed(),
            if old(self).subscribed().contains_key(pollable) {
                &&& r is Ok
                &&& final(self).registered() == epoll::controlled(
                    old(self).registered(),
                    ControlOperation::Modify,
                    pollable,
                    epoll_event,
                )
            } else {
                &&& r == Err::<(), Error>(Error::NotFound(pollable))
                &&& final(self).registered() == old(self).registered()
            },
    {
        broadcast use vstd::std_specs::hash::group_hash_axioms;

        if self.subscribers.contains_key(&pollable) {
            match self.epoll.ctl(ControlOperation::Modify, pollable, &epoll_event) {
                Ok(_) => {},
                Err(e) => {
                    return Err(Error::Poll(e));
                },
            }
        } else {
            return Err(Error::NotFound(pollable));
        }
        Ok(())
    }

    /// Check if a handle is pollable: it is added to what is waited for and
    /// taken out again. Every handle is; one that was waited for before no
    /// longer is.
    pub fn is_pollable(&mut self, pollable: Pollable) -> (r: bool)
        ensures
            r,
            final(self).ready() == old(self).ready(),
            final(self).subscribed() == old(self).subscribed(),
            final(self).registered() == old(self).registered().remove(pollable),
    {
        match self.epoll.ctl(ControlOperation::Add, pollable, &EpollEvent::default()) {
            Ok(_) => {
                let removed = self.epoll.ctl(
                    ControlOperation::Delete,
                    pollable,
                    &EpollEvent::default(),
                );
                assert(self.registered() =~= old(self).registered().remove(pollable));
                removed.is_ok()
            },
            Err(_) => false,
        }
    }

    /// Begins to wait for events, then to be dispatched to the registered
    /// event handlers.
    pub fn run(&self) -> (start: WaitStart)
        ensures
            starts_waiting(start, self.registered(), (-1) as i32),
    {
        self.run_with_timeout(-1)
    }

    /// Begins to wait for events for a maximum timeout of `milliseconds`.
    pub fn run_with_timeout(&self, milliseconds: i32) -> (start: WaitStart)
        ensures
            starts_waiting(start, self.registered(), milliseconds),
    {
        self.epoll.wait(milliseconds)
    }

    /// Takes note of what the wait call returned.
    pub fn woken(&self, wait: EpollWait, ret: u32) -> (woken: Woken)
        requires
            self.wf(),
        ensures
            match woken {
                Woken::TimedOut => ret == epoll::WAIT_TIMEOUT,
                Woken::Signalled(scan) => {
                    &&& ret != epoll::WAIT_TIMEOUT
                    &&& ret < wait.entries().len()
                    &&& scan.wf()
                    &&& scan.entries() == wait.entries()
                    &&& scan.first() == ret
                    &&& scan.limit() == EVENT_BUFFER_SIZE
                    &&& scan.outcomes().len() == 0
                },
                Woken::Failed => ret != epoll::WAIT_TIMEOUT && ret >= wait.entries().len(),
            },
    {
        wait.woken(ret, EVENT_BUFFER_SIZE, self.ready_events.len())
    }

    /// Stores the events that the probes found and returns their number.
    pub fn collect(&mut self, scan: EpollScan) -> (count: usize)
        requires
            old(self).wf(),
            scan.wf(),
            scan.limit() <= EVENT_BUFFER_SIZE,
        ensures
            final(self).wf(),
            final(self).subscribed() == old(self).subscribed(),
            final(self).registered() == old(self).registered(),
            ({
                let list = epoll::delivered(
                    epoll::collected(scan.entries(), scan.outcomes()),
                    scan.entries()[scan.first()].event,
                    scan.limit(),
                );
                &&& count == list.len()
                &&& count <= scan.limit()
                &&& final(self).ready() == list + old(self).ready().skip(count as int)
            }),
    {
        scan.finish(self.ready_events.as_mut_slice())
    }

    /// The ready event at `ev_index` and the subscriber that is to process
    /// it, if its source has one at this moment.
    pub fn dispatch(&self, ev_index: usize) -> (target: Option<(EpollEvent, Arc<S>)>)
        requires
            ev_index < self.ready().len(),
        ensures
            ({
                let event = self.ready()[ev_index as int];
                let pollable = event.data as Pollable;
                target == if self.subscribed().contains_key(pollable) {
                    Some((event, self.subscribed()[pollable]))
                } else {
                    None
                }
            }),
    {
        broadcast use vstd::std_specs::hash::group_hash_axioms;

        let event: EpollEvent = self.ready_events[ev_index];
        let pollable: Pollable = event.data() as Pollable;
        match self.subscribers.get(&pollable) {
            Some(subscriber) => Some((event, subscriber.clone())),
            None => None,
        }
    }
}

/// The number of events to dispatch after a wait. An interrupted wait, of
/// which the host's error number is given where it has one, found none.
pub fn event_count(waited: Result<usize, OsError>, interrupted: Option<i32>) -> (r: Result<
    usize,
    Error,
>)
    ensures
        match waited {
            Ok(count) => r == Ok::<usize, Error>(count),
            Err(e) => r == if e.code is Some && e.code == interrupted {
                Ok(0usize)
            } else {
                Err(Error::Poll(e))
            },
        },
{
    match waited {
        Ok(event_count) => Ok(event_count),
        Err(e) => {
            match (e.code, interrupted) {
                (Some(code), Some(number)) if code == number => Ok(0),
                _ => Err(Error::Poll(e)),
            }
        },
    }
}

/// A wait for the registered events begins: for the given milliseconds, or
/// forever if they are negative.
pub open spec fn starts_waiting(
    start: WaitStart,
    registered: Map<Pollable, EpollEvent>,
    milliseconds: i32,
) -> bool {
    match start {
        WaitStart::Sleep(ms) => {
            &&& registered.is_empty()
            &&& ms == if milliseconds > 0 {
                Some(milliseconds as u64)
            } else {
                None
            }
        },
        WaitStart::Wait(wait) => {
            &&& !registered.is_empty()
            &&& epoll::lists(wait.entries(), registered)
            &&& wait.timeout() == if milliseconds < 0 {
                epoll::INFINITE
            } else {
                milliseconds as u32
            }
        },
    }
}

/// Joining keeps every subscriber and every event that was there, and keeps
/// the subscribed handles and the handles waited for the same.
pub proof fn joining_keeps_what_was_there<S>(
    subscribed: Map<Pollable, Arc<S>>,
    registered: Map<Pollable, EpollEvent>,
    subscriber: Arc<S>,
    list: Seq<EpollEvent>,
)
    requires
        subscribed.dom() == registered.dom(),
    ensures
        ({
            let (s, r, taken) = joined(subscribed, registered, subscriber, list);
            &&& s.dom() == r.dom()
            &&& subscribed.submap_of(s)
            &&& registered.submap_of(r)
            &&& taken is Some ==> s.contains_key(taken->0)
            &&& taken is None ==> forall|i: int|
                0 <= i < list.len() ==> s.contains_key((#[trigger] list[i]).data as Pollable)
                    && s[list[i].data as Pollable] == subscriber && r[list[i].data as Pollable]
                    == list[i]
        }),
    decreases list.len(),
{
    if list.len() > 0 {
        let p = list[0].data as Pollable;
        if !subscribed.contains_key(p) {
            let s1 = subscribed.insert(p, subscriber);
            let r1 = registered.insert(p, list[0]);
            assert(s1.dom() =~= r1.dom());
            joining_keeps_what_was_there(s1, r1, subscriber, list.drop_first());
            let (s, r, taken) = joined(subscribed, registered, subscriber, list);
            assert((s, r, taken) == joined(s1, r1, subscriber, list.drop_first()));
            assert(s1.submap_of(s) && r1.submap_of(r));
            assert(s1.contains_key(p) && r1.contains_key(p));
            assert(subscribed.submap_of(s)) by {
                assert forall|q: Pollable| #[trigger]
                    subscribed.dom().contains(q) implies s.dom().contains(q) && subscribed[q]
                    == s[q] by {
                    assert(s1.dom().contains(q));
                    assert(s.dom().contains(q));
                }
            }
            assert(registered.submap_of(r)) by {
                assert forall|q: Pollable| #[trigger]
                    registered.dom().contains(q) implies r.dom().contains(q) && registered[q]
                    == r[q] by {
                    assert(subscribed.dom().contains(q));
                    assert(r1.dom().contains(q));
                    assert(r.dom().contains(q));
                }
            }
            if taken is None {
                assert forall|i: int| 0 <= i < list.len() implies s.contains_key(
                    (#[trigger] list[i]).data as Pollable,
                ) && s[list[i].data as Pollable] == subscriber && r[list[i].data as Pollable]
                    == list[i] by {
                    let q = list[i].data as Pollable;
                    if i > 0 {
                        assert(list.drop_first()[i - 1] == list[i]);
                    } else {
                        assert(s1.dom().contains(q) && r1.dom().contains(q));
                    }
                    assert(s.dom().contains(q) && r.dom().contains(q));
                    assert(s[q] == subscriber);
                    assert(r[q] == list[i]);
                }
            }
        }
    }
}

/// A subscriber that has joined cannot join again with the same events.
pub proof fn joining_twice_fails<S>(
    subscribed: Map<Pollable, Arc<S>>,
    registered: Map<Pollable, EpollEvent>,
    subscriber: Arc<S>,
    list: Seq<EpollEvent>,
)
    requires
        subscribed.dom() == registered.dom(),
        list.len() > 0,
        joined(subscribed, registered, subscriber, list).2 is None,
    ensures
        ({
            let (s, r, _) = joined(subscribed, registered, subscriber, list);
            joined(s, r, subscriber, list) == (s, r, Some(list[0].data as Pollable))
        }),
{
    joining_keeps_what_was_there(subscribed, registered, subscriber, list);
    let (s, r, _) = joined(subscribed, registered, subscriber, list);
    assert(s.contains_key(list[0].data as Pollable));
}

/// Registering a free handle and unregistering it again leaves everything as
/// it was.
pub proof fn unregistering_undoes_registering<S>(
    before: EventManager<S>,
    registered: EventManager<S>,
    after: EventManager<S>,
    pollable: Pollable,
    event: EpollEvent,
    subscriber: Arc<S>,
)
    requires
        !before.subscribed().contains_key(pollable),
        !before.registered().contains_key(pollable),
        registered.subscribed() == before.subscribed().insert(pollable, subscriber),
        registered.registered() == before.registered().insert(pollable, event),
        after.subscribed() == registered.subscribed().remove(pollable),
        after.registered() == registered.registered().remove(pollable),
    ensures
        after.subscribed() == before.subscribed(),
        after.registered() == before.registered(),
{
    assert(after.subscribed() =~= before.subscribed());
    assert(after.registered() =~= before.registered());
}

/// A handle belongs to one subscriber: a registered one gets it and its event
/// is waited for; a second one is refused and changes nothing. No other handle
/// is touched.
pub proof fn handles_belong_to_one_subscriber<S>(
    m: &mut EventManager<S>,
    pollable: Pollable,
    event: EpollEvent,
    subscriber: Arc<S>,
    r: Result<(), Error>,
    p: Pollable,
)
    requires
        call_ensures(EventManager::<S>::register, (m, pollable, event, subscriber), r),
    ensures
        r is Ok <==> !old(m).subscribed().contains_key(pollable),
        r is Ok ==> final(m).subscribed().contains_key(pollable) && final(m).subscribed()[pollable]
            == subscriber && final(m).registered().contains_key(pollable)
            && final(m).registered()[pollable] == event,
        r matches Err(e) ==> e == Error::AlreadyExists(pollable) && final(m).subscribed()
            == old(m).subscribed() && final(m).registered() == old(m).registered(),
        p != pollable ==> final(m).subscribed().contains_key(p) == old(m).subscribed().contains_key(
            p,
        ) && final(m).registered().contains_key(p) == old(m).registered().contains_key(p),
        p != pollable && old(m).subscribed().contains_key(p) ==> final(m).subscribed()[p]
            == old(m).subscribed()[p],
        p != pollable && old(m).registered().contains_key(p) ==> final(m).registered()[p]
            == old(m).registered()[p],
{
}

/// A handle that is taken out has no subscriber any more and is not waited
/// for; one without subscriber cannot be taken out. No other handle is
/// touched.
pub proof fn unregistered_handles_are_gone<S>(
    m: &mut EventManager<S>,
    pollable: Pollable,
    r: Result<(), Error>,
    found: Result<Arc<S>, Error>,
    p: Pollable,
)
    requires
        call_ensures(EventManager::<S>::unregister, (m, pollable), r),
        call_ensures(EventManager::<S>::subscriber, (&*final(m), pollable), found),
    ensures
        found == Err::<Arc<S>, Error>(Error::NotFound(pollable)),
        r is Ok <==> old(m).subscribed().contains_key(pollable),
        r is Ok ==> !final(m).registered().contains_key(pollable),
        r matches Err(e) ==> e == Error::NotFound(pollable) && final(m).registered()
            == old(m).registered(),
        p != pollable ==> final(m).subscribed().contains_key(p) == old(m).subscribed().contains_key(
            p,
        ) && final(m).registered().contains_key(p) == old(m).registered().contains_key(p),
        p != pollable && old(m).subscribed().contains_key(p) ==> final(m).subscribed()[p]
            == old(m).subscribed()[p],
        p != pollable && old(m).registered().contains_key(p) ==> final(m).registered()[p]
            == old(m).registered()[p],
{
}

/// Modifying a handle that is subscribed and waited for replaces its event; a
/// handle without subscriber is refused. Subscribers stay, and so do all other
/// events.
pub proof fn modified_events_are_replaced<S>(
    m: &mut EventManager<S>,
    pollable: Pollable,
    event: EpollEvent,
    r: Result<(), Error>,
    p: Pollable,
)
    requires
        call_ensures(EventManager::<S>::modify, (m, pollable, event), r),
    ensures
        r is Ok <==> old(m).subscribed().contains_key(pollable),
        r matches Err(e) ==> e == Error::NotFound(pollable),
        final(m).subscribed() == old(m).subscribed(),
        final(m).registered().contains_key(p) == old(m).registered().contains_key(p),
        old(m).registered().contains_key(p) ==> final(m).registered()[p] == if r is Ok && p
            == pollable {
            event
        } else {
            old(m).registered()[p]
        },
{
}

/// A ready event goes to the subscriber of its source, and to nobody if there
/// is none.
pub proof fn events_go_to_their_subscriber<S>(
    m: EventManager<S>,
    i: usize,
    target: Option<(EpollEvent, Arc<S>)>,
    found: Result<Arc<S>, Error>,
)
    requires
        call_ensures(EventManager::<S>::dispatch, (&m, i), target),
        call_ensures(
            EventManager::<S>::subscriber,
            (&m, m.ready()[i as int].data as Pollable),
            found,
        ),
        i < m.ready().len(),
    ensures
        target is Some <==> found is Ok,
        target matches Some((event, subscriber)) ==> event == m.ready()[i as int] && found == Ok::<
            Arc<S>,
            Error,
        >(subscriber),
{
}

/// An interrupted wait found nothing; any other failure is handed on, and a
/// wait that succeeded found what it says.
pub proof fn interrupted_waits_find_nothing(
    waited: Result<usize, OsError>,
    interrupted: Option<i32>,
    r: Result<usize, Error>,
)
    requires
        call_ensures(event_count, (waited, interrupted), r),
    ensures
        waited matches Ok(n) ==> r == Ok::<usize, Error>(n),
        waited matches Err(e) ==> (r is Ok <==> e.code is Some && e.code == interrupted),
        waited is Err && r is Ok ==> r == Ok::<usize, Error>(0),
        waited is Err && r is Err ==> r == Err::<usize, Error>(Error::Poll(waited->Err_0)),
{
}

/// A run without timeout waits without end for every handle that is waited
/// for; with one it waits for as many milliseconds. At most 128 events are
/// dispatched after it.
pub proof fn runs_wait_for_what_is_registered<S>(
    m: EventManager<S>,
    endless: WaitStart,
    ms: i32,
    timed: WaitStart,
    wait: EpollWait,
    ret: u32,
    woken: Woken,
)
    requires
        call_ensures(EventManager::<S>::run, (&m,), endless),
        call_ensures(EventManager::<S>::run_with_timeout, (&m, ms), timed),
        call_ensures(EventManager::<S>::woken, (&m, wait, ret), woken),
        m.wf(),
    ensures
        endless is Sleep <==> m.registered().is_empty(),
        endless matches WaitStart::Sleep(none) ==> none is None,
        endless matches WaitStart::Wait(w) ==> w.timeout() == 0xFFFF_FFFF && epoll::lists(
            w.entries(),
            m.registered(),
        ),
        timed is Sleep <==> m.registered().is_empty(),
        timed matches WaitStart::Wait(w) ==> (ms >= 0 ==> w.timeout() == ms) && (ms < 0
            ==> w.timeout() == 0xFFFF_FFFF) && epoll::lists(w.entries(), m.registered()),
        woken matches Woken::Signalled(scan) ==> scan.limit() == 128 && scan.first() == ret,
        woken is TimedOut <==> ret == 258,
{
}

/// The handles of the list are free, and no two of them are the same.
pub open spec fn free_and_different<S>(
    subscribed: Map<Pollable, Arc<S>>,
    list: Seq<EpollEvent>,
) -> bool {
    &&& forall|i: int|
        0 <= i < list.len() ==> !subscribed.contains_key((#[trigger] list[i]).data as Pollable)
    &&& forall|i: int, j: int|
        0 <= i < j < list.len() ==> (#[trigger] list[i]).data as Pollable != (
        #[trigger] list[j]).data as Pollable
}

/// Joining succeeds exactly if the handles are free and different, and touches
/// no handle that is not in the list.
pub proof fn joining_succeeds_with_free_handles<S>(
    subscribed: Map<Pollable, Arc<S>>,
    registered: Map<Pollable, EpollEvent>,
    subscriber: Arc<S>,
    list: Seq<EpollEvent>,
    p: Pollable,
)
    ensures
        ({
            let (s, r, taken) = joined(subscribed, registered, subscriber, list);
            &&& taken is None <==> free_and_different(subscribed, list)
            &&& taken matches Some(q) ==> exists|i: int|
                0 <= i < list.len() && (#[trigger] list[i]).data as Pollable == q
            &&& (forall|i: int|
                0 <= i < list.len() ==> (#[trigger] list[i]).data as Pollable != p) ==> {
                &&& s.contains_key(p) == subscribed.contains_key(p)
                &&& subscribed.contains_key(p) ==> s[p] == subscribed[p]
                &&& r.contains_key(p) == registered.contains_key(p)
                &&& registered.contains_key(p) ==> r[p] == registered[p]
            }
        }),
    decreases list.len(),
{
    if list.len() > 0 {
        let q = list[0].data as Pollable;
        if !subscribed.contains_key(q) {
            let s1 = subscribed.insert(q, subscriber);
            let rest = list.drop_first();
            joining_succeeds_with_free_handles(
                s1,
                registered.insert(q, list[0]),
                subscriber,
                rest,
                p,
            );
            let (s, r, taken) = joined(subscribed, registered, subscriber, list);
            if free_and_different(subscribed, list) {
                assert forall|i: int| 0 <= i < rest.len() implies !s1.contains_key(
                    (#[trigger] rest[i]).data as Pollable,
                ) by {
                    assert(rest[i] == list[i + 1]);
                    assert(list[0].data as Pollable != list[i + 1].data as Pollable);
                }
                assert forall|i: int, j: int| 0 <= i < j < rest.len() implies (
                #[trigger] rest[i]).data as Pollable != (#[trigger] rest[j]).data as Pollable by {
                    assert(rest[i] == list[i + 1] && rest[j] == list[j + 1]);
                }
                assert(free_and_different(s1, rest));
            }
            if free_and_different(s1, rest) {
                assert forall|i: int| 0 <= i < list.len() implies !subscribed.contains_key(
                    (#[trigger] list[i]).data as Pollable,
                ) by {
                    if i > 0 {
                        assert(rest[i - 1] == list[i]);
                        assert(!s1.contains_key(rest[i - 1].data as Pollable));
                    }
                }
                assert forall|i: int, j: int| 0 <= i < j < list.len() implies (
                #[trigger] list[i]).data as Pollable != (#[trigger] list[j]).data as Pollable by {
                    assert(rest[j - 1] == list[j]);
                    if i > 0 {
                        assert(rest[i - 1] == list[i]);
                    } else {
                        assert(!s1.contains_key(rest[j - 1].data as Pollable));
                    }
                }
            }
            if let Some(t) = taken {
                let i = choose|i: int|
                    0 <= i < rest.len() && (#[trigger] rest[i]).data as Pollable == t;
                assert(list[i + 1] == rest[i]);
            }
            if forall|i: int|
                0 <= i < list.len() ==> (#[trigger] list[i]).data as Pollable != p {
                assert forall|i: int| 0 <= i < rest.len() implies (#[trigger] rest[i]).data
                    as Pollable != p by {
                    assert(rest[i] == list[i + 1]);
                }
                assert(list[0].data as Pollable != p);
            }
        }
    }
}

/// A subscriber gets all of its events exactly if their handles are free and
/// different; else it is told a handle of the list that is taken. Handles that
/// are not in the list stay as they are.
pub proof fn subscribers_get_their_events<S>(
    m: &mut EventManager<S>,
    subscriber: Arc<S>,
    list: Vec<EpollEvent>,
    r: Result<(), Error>,
    i: int,
    p: Pollable,
)
    requires
        call_ensures(EventManager::<S>::add_subscriber, (m, subscriber, list), r),
        old(m).wf(),
        old(m).subscribed().dom() == old(m).registered().dom(),
        0 <= i < list@.len(),
        forall|k: int| 0 <= k < list@.len() ==> (#[trigger] list@[k]).data as Pollable != p,
    ensures
        r is Ok <==> free_and_different(old(m).subscribed(), list@),
        r is Ok ==> final(m).subscribed()[list@[i].data as Pollable] == subscriber
            && final(m).registered()[list@[i].data as Pollable] == list@[i],
        r matches Err(e) ==> (e matches Error::AlreadyExists(q) && exists|k: int|
            0 <= k < list@.len() && (#[trigger] list@[k]).data as Pollable == q),
        final(m).subscribed().contains_key(p) == old(m).subscribed().contains_key(p),
        old(m).subscribed().contains_key(p) ==> final(m).subscribed()[p] == old(m).subscribed()[p],
        old(m).registered().contains_key(p) ==> final(m).registered()[p] == old(m).registered()[p],
{
    joining_succeeds_with_free_handles(
        old(m).subscribed(),
        old(m).registered(),
        subscriber,
        list@,
        p,
    );
    joining_keeps_what_was_there(old(m).subscribed(), old(m).registered(), subscriber, list@);
}

/// The test whether a handle is pollable says yes, takes the handle out of
/// what is waited for, and touches nothing else.
pub proof fn pollability_is_tested_on_one_handle<S>(
    m: &mut EventManager<S>,
    pollable: Pollable,
    r: bool,
    p: Pollable,
)
    requires
        call_ensures(EventManager::<S>::is_pollable, (m, pollable), r),
    ensures
        r,
        final(m).subscribed() == old(m).subscribed(),
        final(m).registered().contains_key(p) <==> old(m).registered().contains_key(p) && p
            != pollable,
        p != pollable && old(m).registered().contains_key(p) ==> final(m).registered()[p]
            == old(m).registered()[p],
{
}

/// No more than 128 events are dispatched, and those that the probes found
/// come first.
pub proof fn dispatched_events_fit_the_buffer<S>(
    m: &mut EventManager<S>,
    scan: EpollScan,
    count: usize,
)
    requires
        call_ensures(EventManager::<S>::collect, (m, scan), count),
        old(m).wf(),
        scan.wf(),
        scan.limit() <= EVENT_BUFFER_SIZE,
    ensures
        count <= 128,
        ({
            let found = epoll::collected(scan.entries(), scan.outcomes());
            &&& found.len() <= count <= found.len() + 1
            &&& forall|i: int| 0 <= i < found.len() ==> final(m).ready()[i] == #[trigger] found[i]
            &&& count == found.len() + 1 ==> final(m).ready()[count - 1]
                == scan.entries()[scan.first()].event
        }),
{
}

/// The description names the handle in decimal, behind the same words for
/// every handle, or ends with the host's text.
pub proof fn descriptions_name_the_handle(e: Error, s: String)
    requires
        call_ensures(Error::to_string, (&e,), s),
    ensures
        e matches Error::AlreadyExists(p) ==> s@.len() > 53 && text::is_number(
            s@.subrange(37, s@.len() - 16),
            10,
        ) && text::number(s@.subrange(37, s@.len() - 16), 10) == p,
        e matches Error::NotFound(p) ==> s@.len() > 52 && text::is_number(
            s@.subrange(37, s@.len() - 15),
            10,
        ) && text::number(s@.subrange(37, s@.len() - 15), 10) == p,
        e matches Error::EpollCreate(os) ==> s@.skip(s@.len() - os.text@.len()) == os.text@,
        e matches Error::Poll(os) ==> s@.skip(s@.len() - os.text@.len()) == os.text@,
{
    reveal_strlit("A handler for the specified pollable ");
    reveal_strlit(" already exists.");
    reveal_strlit(" was not found.");
    match e {
        Error::AlreadyExists(p) => {
            text::digits_stand_for_their_number(p as nat);
            assert(s@.subrange(37, s@.len() - 16) =~= text::digits(p as nat));
        },
        Error::NotFound(p) => {
            text::digits_stand_for_their_number(p as nat);
            assert(s@.subrange(37, s@.len() - 15) =~= text::digits(p as nat));
        },
        Error::EpollCreate(os) => {
            assert(s@.skip(s@.len() - os.text@.len()) =~= os.text@);
        },
        Error::Poll(os) => {
            assert(s@.skip(s@.len() - os.text@.len()) =~= os.text@);
        },
    }
}

} // verus!
