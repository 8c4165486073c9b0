//! Event handling of the entropy device.
//!
//! The device decides what to do about an event; the host reads the event
//! objects, serves the queue and signals the guest.
use crate::polly::event_manager::EventManager;
use crate::utils::epoll::{EpollEvent, EventSet, Pollable};
use vstd::prelude::*;

verus! {

/// The events of the device.
#[derive(Clone, Copy, PartialEq, Eq, Structural, Debug)]
pub struct Rng {
    /// The event of the request queue.
    pub queue_evt: Pollable,
    /// The event that tells that the guest has activated the device.
    pub activate_evt: Pollable,
    /// The guest has activated the device.
    pub activated: bool,
}

/// What the device does next.
#[derive(Clone, Copy, PartialEq, Eq, Structural, Debug)]
pub enum RngStep {
    /// Nothing more.
    Done,
    /// The event is none that the device expects.
    Unexpected,
    /// Read the request queue's event.
    ReadQueueEvent,
    /// Serve the requests in the queue.
    ProcessRequests,
    /// Tell the guest that buffers were used.
    SignalUsedQueue,
    /// Read the activation event, then take note of the activation.
    ReadActivateEvent,
}

impl Rng {
    /// What to do about an event of the request queue.
    pub fn handle_req_event(&self, event: &EpollEvent) -> (step: RngStep)
        requires
            event.events < 32,
        ensures
            step == if event.events == 1 {
                RngStep::ReadQueueEvent
            } else {
                RngStep::Unexpected
            },
    {
        let event_set = event.event_set();
        if event_set.bits() != EventSet::IN().bits() {
            return RngStep::Unexpected;
        }
        RngStep::ReadQueueEvent
    }

    /// What to do once the queue's event was read, with or without success.
    pub fn queue_event_read(ok: bool) -> (step: RngStep)
        ensures
            step == if ok {
                RngStep::ProcessRequests
            } else {
                RngStep::Done
            },
    {
        if ok {
            RngStep::ProcessRequests
        } else {
            RngStep::Done
        }
    }

    /// What to do once the requests were served, with or without using buffers.
    pub fn requests_processed(used: bool) -> (step: RngStep)
        ensures
            step == if used {
                RngStep::SignalUsedQueue
            } else {
                RngStep::Done
            },
    {
        if used {
            RngStep::SignalUsedQueue
        } else {
            RngStep::Done
        }
    }

    /// Subscribes the device's own subscriber, which waits for the activation
    /// event, to the queue's event in place of it. A queue event that is
    /// taken keeps the subscriber it has.
    pub fn handle_activate_event<S>(&self, event_manager: &mut EventManager<S>)
        requires
            old(event_manager).subscribed().contains_key(self.activate_evt),
        ensures
            final(event_manager).ready() == old(event_manager).ready(),
            ({
                let own = old(event_manager).subscribed()[self.activate_evt];
                let event = EpollEvent { events: 1, data: self.queue_evt as u64 };
                let taken = old(event_manager).subscribed().contains_key(self.queue_evt);
                &&& final(event_manager).subscribed() == (if taken {
                    old(event_manager).subscribed()
                } else {
                    old(event_manager).subscribed().insert(self.queue_evt, own)
                }).remove(self.activate_evt)
                &&& final(event_manager).registered() == (if taken {
                    old(event_manager).registered()
                } else {
                    old(event_manager).registered().insert(self.queue_evt, event)
                }).remove(self.activate_evt)
            }),
    {
        match event_manager.subscriber(self.activate_evt) {
            Ok(self_subscriber) => {
                let _ = event_manager.register(
                    self.queue_evt,
                    EpollEvent::new(EventSet::IN(), self.queue_evt as u64),
                    self_subscriber,
                );
                let _ = event_manager.unregister(self.activate_evt);
            },
            Err(_) => {},
        }
    }

    /// What to do about an event.
    pub fn process(&self, event: &EpollEvent) -> (step: RngStep)
        requires
            self.activated && event.data as Pollable == self.queue_evt ==> event.events < 32,
        ensures
            step == if !self.activated {
                RngStep::Unexpected
            } else if event.data as Pollable == self.queue_evt {
                if event.events == 1 {
                    RngStep::ReadQueueEvent
                } else {
                    RngStep::Unexpected
                }
            } else if event.data as Pollable == self.activate_evt {
                RngStep::ReadActivateEvent
            } else {
                RngStep::Unexpected
            },
    {
        let source: Pollable = event.fd();
        if self.activated {
            if source == self.queue_evt {
                self.handle_req_event(event)
            } else if source == self.activate_evt {
                RngStep::ReadActivateEvent
            } else {
                RngStep::Unexpected
            }
        } else {
            RngStep::Unexpected
        }
    }

    /// The events that the device waits for at first.
    pub fn interest_list(&self) -> (list: Vec<EpollEvent>)
        ensures
            list@ == seq![EpollEvent { events: 1, data: self.activate_evt as u64 }],
    {
        let list = vec![EpollEvent::new(EventSet::IN(), self.activate_evt as u64)];
        assert(list@ =~= seq![EpollEvent { events: 1, data: self.activate_evt as u64 }]);
        list
    }
}

/// Before its activation the device expects no event. Then an event of the
/// queue, of kind readable alone, asks to read it, and any event of the
/// activation to read that; everything else is unexpected.
pub proof fn expected_events_are_served(rng: Rng, event: EpollEvent, step: RngStep)
    requires
        call_ensures(Rng::process, (&rng, &event), step),
        rng.activated && event.data as Pollable == rng.queue_evt ==> event.events < 32,
    ensures
        ({
            let source = event.data as Pollable;
            &&& !rng.activated ==> step is Unexpected
            &&& step is ReadQueueEvent <==> rng.activated && source == rng.queue_evt && event.events
                == 1
            &&& step is ReadActivateEvent <==> rng.activated && source == rng.activate_evt && source
                != rng.queue_evt
            &&& step is ReadQueueEvent || step is ReadActivateEvent || step is Unexpected
        }),
{
}

/// Requests are served exactly if the queue's event could be read, and the
/// guest is told exactly if buffers were used.
pub proof fn guest_is_told_of_used_buffers(flag: bool, read: RngStep, served: RngStep)
    requires
        call_ensures(Rng::queue_event_read, (flag,), read),
        call_ensures(Rng::requests_processed, (flag,), served),
    ensures
        read is ProcessRequests <==> flag,
        read is Done <==> !flag,
        served is SignalUsedQueue <==> flag,
        served is Done <==> !flag,
{
}

/// At first the device waits for its activation alone, to become readable.
pub proof fn activation_is_waited_for(rng: Rng, list: Vec<EpollEvent>)
    requires
        call_ensures(Rng::interest_list, (&rng,), list),
    ensures
        list@.len() == 1,
        list@[0].events == 1,
        list@[0].data == rng.activate_evt,
{
}

/// Activation hands the subscriber over from the activation event to the
/// queue's event, unless that is taken, and leaves everybody else alone.
pub proof fn activation_hands_the_subscriber_over<S>(
    rng: Rng,
    m: &mut EventManager<S>,
    p: Pollable,
)
    requires
        call_ensures(Rng::handle_activate_event::<S>, (&rng, m), ()),
        old(m).subscribed().contains_key(rng.activate_evt),
        rng.queue_evt != rng.activate_evt,
    ensures
        !final(m).subscribed().contains_key(rng.activate_evt),
        !final(m).registered().contains_key(rng.activate_evt),
        final(m).subscribed().contains_key(rng.queue_evt),
        !old(m).subscribed().contains_key(rng.queue_evt) ==> final(m).subscribed()[rng.queue_evt]
            == old(m).subscribed()[rng.activate_evt] && final(
            m).registered()[rng.queue_evt].events == 1 && final(m).registered()[rng.queue_evt].data
            == rng.queue_evt,
        p != rng.queue_evt && p != rng.activate_evt ==> final(m).subscribed().contains_key(p)
            == old(m).subscribed().contains_key(p),
        p != rng.queue_evt && p != rng.activate_evt && old(m).subscribed().contains_key(p)
            ==> final(m).subscribed()[p] == old(m).subscribed()[p],
        p != rng.queue_evt && p != rng.activate_evt ==> final(m).registered().contains_key(p)
            == old(m).registered().contains_key(p),
        p != rng.queue_evt && p != rng.activate_evt && old(m).registered().contains_key(p)
            ==> final(m).registered()[p] == old(m).registered()[p],
{
}

} // verus!
