//! The loop that feeds frames to the user-mode network stack and serves its
//! timers and sockets.
//!
//! The loop says what to do next; the host calls the network stack, polls the
//! sockets and reports back. While it does so, the network stack's callbacks
//! use the timers, the poll list and the packet sender here.
use crate::devices::net::channel;
use crate::utils::epoll::Pollable;
use crossbeam_channel::{Receiver, Sender};
use vstd::prelude::*;

verus! {

/// The network stack asks for, or is told of, data to read.
pub const SLIRP_POLL_IN: i32 = 1;

/// The network stack asks for, or is told of, room to write.
pub const SLIRP_POLL_OUT: i32 = 2;

/// The network stack asks for, or is told of, urgent data.
pub const SLIRP_POLL_PRI: i32 = 4;

/// The network stack is told of an error.
pub const SLIRP_POLL_ERR: i32 = 8;

/// The network stack is told that the other side has hung up.
pub const SLIRP_POLL_HUP: i32 = 16;

/// The host reports an error.
pub const POLLERR: i16 = 1;

/// The host reports that the other side has hung up.
pub const POLLHUP: i16 = 2;

/// The host polls for room to write.
pub const POLLWRNORM: i16 = 16;

/// The host polls for data to read.
pub const POLLRDNORM: i16 = 256;

/// The host polls for urgent data.
pub const POLLRDBAND: i16 = 512;

/// How long the host polls unless the network stack says otherwise.
pub const DEFAULT_TIMEOUT_MS: u32 = 50;

/// The expiry time of a timer that is not armed.
pub const NOT_ARMED: i64 = 0x7FFF_FFFF_FFFF_FFFF;

/// The settings of the virtual network.
#[derive(Clone, Copy, PartialEq, Eq, Structural, Debug)]
pub struct SlirpSettings {
    pub version: u32,
    pub restricted: i32,
    pub in_enabled: bool,
    pub vnetwork: u32,
    pub vnetmask: u32,
    pub vhost: u32,
    pub in6_enabled: bool,
    pub vprefix_len: u8,
    pub vdhcp_start: u32,
    pub vnameserver: u32,
    pub if_mtu: usize,
    pub if_mru: usize,
    pub disable_host_loopback: bool,
    pub enable_emu: bool,
    pub disable_dns: bool,
    pub disable_dhcp: bool,
}

/// An address whose bytes are `a` to `d` in the order in which they are sent.
pub open spec fn address(a: int, b: int, c: int, d: int) -> int {
    a * 0x100_0000 + b * 0x1_0000 + c * 0x100 + d
}

/// The virtual network 10.0.2.0/24, for IPv4 alone. Addresses are numbers
/// whose highest byte is sent first.
pub fn slirp_settings() -> (s: SlirpSettings)
    ensures
        s.version == 4,
        s.restricted == 0,
        s.in_enabled,
        s.vnetwork == address(10, 0, 2, 0),
        s.vnetmask == address(255, 255, 255, 0),
        s.vhost == address(10, 0, 2, 2),
        !s.in6_enabled,
        s.vprefix_len == 0,
        s.vdhcp_start == address(10, 0, 2, 15),
        s.vnameserver == address(10, 0, 2, 3),
        s.if_mtu == 0,
        s.if_mru == 0,
        !s.disable_host_loopback,
        !s.enable_emu,
        !s.disable_dns,
        !s.disable_dhcp,
{
    SlirpSettings {
        version: 4,
        restricted: 0,
        in_enabled: true,
        vnetwork: 0x0A00_0200,
        vnetmask: 0xFFFF_FF00,
        vhost: 0x0A00_0202,
        in6_enabled: false,
        vprefix_len: 0,
        vdhcp_start: 0x0A00_020F,
        vnameserver: 0x0A00_0203,
        if_mtu: 0,
        if_mru: 0,
        disable_host_loopback: false,
        enable_emu: false,
        disable_dns: false,
        disable_dhcp: false,
    }
}

/// A timer of the network stack: what to call, and when.
#[derive(Clone, Copy, PartialEq, Eq, Debug)]
pub struct SlirpTimer<T> {
    pub id: usize,
    pub expire_time_ms: i64,
    pub callback: T,
}

/// The timer is armed and its time has come.
pub open spec fn is_due<T>(t: SlirpTimer<T>, now_ms: i64) -> bool {
    t.expire_time_ms != NOT_ARMED && t.expire_time_ms <= now_ms
}

/// A socket to poll.
#[derive(Clone, Copy, PartialEq, Eq, Structural, Debug)]
pub struct PollFd {
    pub fd: usize,
    pub events: i16,
    pub revents: i16,
}

/// What the host polls for when the network stack asks for `events`.
pub open spec fn poll_events(events: i32) -> int {
    (if events & SLIRP_POLL_IN != 0 {
        POLLRDNORM as int
    } else {
        0
    }) + (if events & SLIRP_POLL_OUT != 0 {
        POLLWRNORM as int
    } else {
        0
    }) + (if events & SLIRP_POLL_PRI != 0 {
        POLLRDBAND as int
    } else {
        0
    })
}

/// What the network stack is told when the host reports `revents`.
pub open spec fn slirp_events(revents: i16) -> int {
    (if revents & POLLRDNORM != 0 {
        SLIRP_POLL_IN as int
    } else {
        0
    }) + (if revents & POLLWRNORM != 0 {
        SLIRP_POLL_OUT as int
    } else {
        0
    }) + (if revents & POLLRDBAND != 0 {
        SLIRP_POLL_PRI as int
    } else {
        0
    }) + (if revents & POLLERR != 0 {
        SLIRP_POLL_ERR as int
    } else {
        0
    }) + (if revents & POLLHUP != 0 {
        SLIRP_POLL_HUP as int
    } else {
        0
    })
}

/// What a packet callback returns to the network stack, and the event to
/// signal before, if any.
#[derive(Clone, Copy, PartialEq, Eq, Structural, Debug)]
pub struct PacketSent {
    pub signal: Option<Pollable>,
    pub ret: isize,
}

/// Where the loop is.
#[derive(Clone, Copy, PartialEq, Eq, Structural, Debug)]
pub enum Phase {
    /// Frames of the guest are fed to the network stack.
    Drain,
    /// The clock is read.
    Clock,
    /// The timers that were due at the time are called.
    Fire { now_ms: i64 },
    /// The network stack lists the sockets to poll.
    Fill,
    /// The sockets are polled.
    Wait,
    /// The network stack is told what the poll found.
    Report,
}

/// What the host reports.
#[derive(Clone, Copy, PartialEq, Eq, Structural, Debug)]
pub enum LoopEvent {
    /// The last action is done.
    Done,
    /// The clock shows this time in nanoseconds.
    Clock { ns: i64 },
    /// The sockets are listed; the poll takes at most so many milliseconds.
    Filled { timeout_ms: u32 },
}

/// What the host is to do.
#[derive(Debug)]
pub enum LoopAction<T> {
    /// Feed a frame to the network stack.
    Input(Vec<u8>),
    /// Read the clock.
    ReadClock,
    /// Call the timers.
    Call(Vec<T>),
    /// Let the network stack list the sockets to poll, with this timeout
    /// unless it sets another.
    FillPoll { default_ms: u32 },
    /// Poll the listed sockets.
    Poll { timeout_ms: i32 },
    /// Sleep; there are no sockets.
    Sleep { ms: u64 },
    /// Tell the network stack what the poll found.
    ReportPoll,
}

/// Milliseconds of a time in nanoseconds, rounded towards zero.
pub open spec fn milliseconds(ns: i64) -> int {
    if ns >= 0 {
        ns as int / 1_000_000
    } else {
        -((-ns) / 1_000_000)
    }
}

/// The event is the one that the phase waits for.
pub open spec fn expects(phase: Phase, event: LoopEvent) -> bool {
    match phase {
        Phase::Clock => event is Clock,
        Phase::Fill => event is Filled,
        _ => event is Done,
    }
}

/// The callbacks of the timers that are due, in the order of the timers.
pub open spec fn due_callbacks<T>(timers: Seq<SlirpTimer<T>>, now_ms: i64) -> Seq<T>
    decreases timers.len(),
{
    if timers.len() == 0 {
        Seq::empty()
    } else {
        let before = due_callbacks(timers.drop_last(), now_ms);
        if is_due(timers.last(), now_ms) {
            before.push(timers.last().callback)
        } else {
            before
        }
    }
}

/// The timers with those that are due no longer armed.
pub open spec fn disarmed<T>(timers: Seq<SlirpTimer<T>>, now_ms: i64) -> Seq<SlirpTimer<T>> {
    Seq::new(
        timers.len(),
        |i: int|
            if is_due(timers[i], now_ms) {
                SlirpTimer { expire_time_ms: NOT_ARMED, ..timers[i] }
            } else {
                timers[i]
            },
    )
}

/// The timers without the one with the given number.
pub open spec fn without<T>(timers: Seq<SlirpTimer<T>>, id: usize) -> Seq<SlirpTimer<T>>
    decreases timers.len(),
{
    if timers.len() == 0 {
        Seq::empty()
    } else {
        let before = without(timers.drop_last(), id);
        if timers.last().id == id {
            before
        } else {
            before.push(timers.last())
        }
    }
}

/// The timers with the given one, if it exists, set to expire at a time.
pub open spec fn rearmed<T>(timers: Seq<SlirpTimer<T>>, id: usize, expire_time_ms: i64) -> Seq<
    SlirpTimer<T>,
> {
    Seq::new(
        timers.len(),
        |i: int|
            if timers[i].id == id {
                SlirpTimer { expire_time_ms, ..timers[i] }
            } else {
                timers[i]
            },
    )
}

/// Timers have different numbers, which were all given out.
pub open spec fn numbered<T>(timers: Seq<SlirpTimer<T>>, next: usize) -> bool {
    &&& forall|i: int| 0 <= i < timers.len() ==> 0 < (#[trigger] timers[i]).id < next
    &&& forall|i: int, j: int|
        0 <= i < j < timers.len() ==> (#[trigger] timers[i]).id != (#[trigger] timers[j]).id
}

/// The state of the network loop. `T` is what a timer calls.
pub struct SlirpLoop<T> {
    rx_sender: Sender<Vec<u8>>,
    tx_receiver: Receiver<Vec<u8>>,
    rx_event: Pollable,
    timers: Vec<SlirpTimer<T>>,
    next_timer_id: usize,
    pollfds: Vec<PollFd>,
    phase: Phase,
}

/// All but the timers stays as it is.
pub open spec fn only_timers_change<T>(before: SlirpLoop<T>, after: SlirpLoop<T>) -> bool {
    &&& after.sent() == before.sent()
    &&& after.offers() == before.offers()
    &&& same_ends(before, after)
    &&& after.receipts() == before.receipts()
    &&& after.polled() == before.polled()
    &&& after.phase() == before.phase()
}

/// The loop stays on the same channels and the same event.
pub open spec fn same_ends<T>(before: SlirpLoop<T>, after: SlirpLoop<T>) -> bool {
    &&& after.tx_channel() == before.tx_channel()
    &&& after.rx_channel() == before.rx_channel()
    &&& after.sending_limit() == before.sending_limit()
    &&& after.event() == before.event()
}

impl<T> SlirpLoop<T> {
    /// The frames sent to the guest, oldest first.
    pub closed spec fn sent(&self) -> Seq<Seq<u8>> {
        channel::frames_sent(self.rx_sender)
    }

    /// The frames offered to the guest, oldest first, each with the answer.
    pub closed spec fn offers(&self) -> Seq<(Seq<u8>, Option<bool>)> {
        channel::offers(self.rx_sender)
    }

    /// How many frames wait for the guest at most.
    pub closed spec fn sending_limit(&self) -> nat {
        channel::sending_limit(self.rx_sender)
    }

    /// What each look for a frame from the guest gave, oldest first.
    pub closed spec fn receipts(&self) -> Seq<Option<Seq<u8>>> {
        channel::receipts(self.tx_receiver)
    }

    /// The channel from the guest.
    pub closed spec fn tx_channel(&self) -> int {
        channel::receiving_channel(self.tx_receiver)
    }

    /// The channel to the guest.
    pub closed spec fn rx_channel(&self) -> int {
        channel::sending_channel(self.rx_sender)
    }

    /// The event that tells the guest's side of new frames.
    pub closed spec fn event(&self) -> Pollable {
        self.rx_event
    }

    /// The timers, in the order in which they were made.
    pub closed spec fn timers(&self) -> Seq<SlirpTimer<T>> {
        self.timers@
    }

    /// The number of the next timer.
    pub closed spec fn next_id(&self) -> usize {
        self.next_timer_id
    }

    /// The sockets to poll.
    pub closed spec fn polled(&self) -> Seq<PollFd> {
        self.pollfds@
    }

    /// Where the loop is.
    pub closed spec fn phase(&self) -> Phase {
        self.phase
    }

    /// Timers have different numbers.
    pub open spec fn wf(&self) -> bool {
        numbered(self.timers(), self.next_id()) && self.next_id() > 0
    }

    /// Nothing has happened yet.
    pub open spec fn is_fresh(&self, rx_event: Pollable) -> bool {
        &&& self.sent().len() == 0
        &&& self.offers().len() == 0
        &&& self.receipts().len() == 0
        &&& self.event() == rx_event
        &&& self.timers().len() == 0
        &&& self.next_id() == 1
        &&& self.polled().len() == 0
        &&& self.phase() == Phase::Drain
    }
}

impl<T: Copy> SlirpLoop<T> {
    /// A loop at its beginning.
    pub(crate) fn new(
        tx_receiver: Receiver<Vec<u8>>,
        rx_sender: Sender<Vec<u8>>,
        rx_event: Pollable,
    ) -> (net: SlirpLoop<T>)
        requires
            channel::frames_sent(rx_sender).len() == 0,
            channel::offers(rx_sender).len() == 0,
            channel::receipts(tx_receiver).len() == 0,
        ensures
            net.wf(),
            net.is_fresh(rx_event),
            net.sending_limit() == channel::sending_limit(rx_sender),
            net.tx_channel() == channel::receiving_channel(tx_receiver),
            net.rx_channel() == channel::sending_channel(rx_sender),
    {
        SlirpLoop {
            rx_sender,
            tx_receiver,
            rx_event,
            timers: Vec::new(),
            next_timer_id: 1,
            pollfds: Vec::new(),
            phase: Phase::Drain,
        }
    }

    /// What a packet callback returns, once the packet was offered to the
    /// guest's side.
    pub fn packet_sent(&self, sent: bool, len: usize) -> (outcome: PacketSent)
        ensures
            outcome == if sent {
                PacketSent { signal: Some(self.event()), ret: len as isize }
            } else {
                PacketSent { signal: None, ret: (-1) as isize }
            },
    {
        if sent {
            PacketSent { signal: Some(self.rx_event), ret: len as isize }
        } else {
            PacketSent { signal: None, ret: -1 }
        }
    }

    /// The network stack sends a packet to the guest. It is dropped if too
    /// many wait already, or nobody reads them any more.
    pub fn send_packet(&mut self, frame: Vec<u8>) -> (outcome: PacketSent)
        ensures
            final(self).timers() == old(self).timers(),
            final(self).next_id() == old(self).next_id(),
            same_ends(*old(self), *final(self)),
            final(self).receipts() == old(self).receipts(),
            final(self).polled() == old(self).polled(),
            final(self).phase() == old(self).phase(),
            ({
                let answer = final(self).offers().last().1;
                &&& final(self).offers() == old(self).offers().push((frame@, answer))
                &&& if answer is None {
                    &&& outcome == PacketSent {
                        signal: Some(old(self).event()),
                        ret: frame@.len() as isize,
                    }
                    &&& final(self).sent() == old(self).sent().push(frame@)
                } else {
                    &&& outcome == PacketSent { signal: None, ret: (-1) as isize }
                    &&& final(self).sent() == old(self).sent()
                }
                &&& answer == Some(true) ==> old(self).sent().len() >= old(self).sending_limit()
            }),
    {
        let len: usize = frame.len();
        let sent: bool = channel::offer_frame(&mut self.rx_sender, frame).is_ok();
        self.packet_sent(sent, len)
    }

    /// The number that the next timer gets.
    pub fn next_timer_id(&self) -> (id: usize)
        ensures
            id == self.next_id(),
    {
        self.next_timer_id
    }

    /// The network stack makes a timer, which is not armed yet. Returns its
    /// number.
    pub fn timer_new(&mut self, callback: T) -> (id: usize)
        requires
            old(self).wf(),
            old(self).next_id() < usize::MAX,
        ensures
            final(self).wf(),
            only_timers_change(*old(self), *final(self)),
            id == old(self).next_id(),
            final(self).next_id() == old(self).next_id() + 1,
            final(self).timers() == old(self).timers().push(
                SlirpTimer { id, expire_time_ms: NOT_ARMED, callback },
            ),
    {
        let id: usize = self.next_timer_id;
        self.next_timer_id = self.next_timer_id + 1;
        self.timers.push(SlirpTimer { id, expire_time_ms: NOT_ARMED, callback });
        id
    }

    /// The network stack frees a timer.
    pub fn timer_free(&mut self, id: usize)
        requires
            old(self).wf(),
        ensures
            final(self).wf(),
            only_timers_change(*old(self), *final(self)),
            final(self).next_id() == old(self).next_id(),
            final(self).timers() == without(old(self).timers(), id),
    {
        let mut kept: Vec<SlirpTimer<T>> = Vec::new();
        let mut i: usize = 0;
        while i < self.timers.len()
            invariant
                i <= self.timers@.len(),
                *self == *old(self),
                kept@ == without(self.timers@.take(i as int), id),
            decreases self.timers@.len() - i,
        {
            let timer = self.timers[i];
            if timer.id != id {
                kept.push(timer);
            }
            i = i + 1;
            assert(self.timers@.take(i as int).drop_last() =~= self.timers@.take(i - 1));
        }
        assert(self.timers@.take(i as int) =~= self.timers@);
        proof {
            lemma_without(self.timers@, id, self.next_timer_id);
        }
        self.timers = kept;
    }

    /// The network stack sets when a timer expires.
    pub fn timer_mod(&mut self, id: usize, expire_time_ms: i64)
        requires
            old(self).wf(),
        ensures
            final(self).wf(),
            only_timers_change(*old(self), *final(self)),
            final(self).next_id() == old(self).next_id(),
            final(self).timers() == rearmed(old(self).timers(), id, expire_time_ms),
    {
        let mut i: usize = 0;
        while i < self.timers.len()
            invariant
                i <= self.timers@.len(),
                *self == *old(self),
                self.wf(),
                forall|k: int| 0 <= k < i ==> (#[trigger] self.timers@[k]).id != id,
            decreases self.timers@.len() - i,
        {
            if self.timers[i].id == id {
                let mut timer = self.timers[i];
                timer.expire_time_ms = expire_time_ms;
                self.timers.set(i, timer);
                assert(self.timers@ =~= rearmed(old(self).timers@, id, expire_time_ms));
                return;
            }
            i = i + 1;
        }
        assert(self.timers@ =~= rearmed(old(self).timers@, id, expire_time_ms));
    }

    /// The callbacks of the timers that are due.
    fn due(&self, now_ms: i64) -> (callbacks: Vec<T>)
        ensures
            callbacks@ == due_callbacks(self.timers(), now_ms),
    {
        let mut fired: Vec<T> = Vec::new();
        let mut i: usize = 0;
        while i < self.timers.len()
            invariant
                i <= self.timers@.len(),
                fired@ == due_callbacks(self.timers@.take(i as int), now_ms),
            decreases self.timers@.len() - i,
        {
            let timer = self.timers[i];
            if timer.expire_time_ms != NOT_ARMED && timer.expire_time_ms <= now_ms {
                fired.push(timer.callback);
            }
            i = i + 1;
            assert(self.timers@.take(i as int).drop_last() =~= self.timers@.take(i - 1));
        }
        assert(self.timers@.take(i as int) =~= self.timers@);
        fired
    }

    /// Disarms the timers that are due.
    fn disarm_due(&mut self, now_ms: i64)
        requires
            old(self).wf(),
        ensures
            final(self).wf(),
            only_timers_change(*old(self), *final(self)),
            final(self).next_id() == old(self).next_id(),
            final(self).timers() == disarmed(old(self).timers(), now_ms),
    {
        let mut i: usize = 0;
        while i < self.timers.len()
            invariant
                i <= self.timers@.len(),
                self.timers@.len() == old(self).timers@.len(),
                only_timers_change(*old(self), *self),
                self.next_timer_id == old(self).next_timer_id,
                forall|k: int|
                    0 <= k < i ==> #[trigger] self.timers@[k] == disarmed(
                        old(self).timers@,
                        now_ms,
                    )[k],
                forall|k: int|
                    i <= k < self.timers@.len() ==> #[trigger] self.timers@[k] == old(
                        self,
                    ).timers@[k],
            decreases self.timers@.len() - i,
        {
            let mut timer = self.timers[i];
            if timer.expire_time_ms != NOT_ARMED && timer.expire_time_ms <= now_ms {
                timer.expire_time_ms = NOT_ARMED;
                self.timers.set(i, timer);
            }
            i = i + 1;
        }
        assert(self.timers@ =~= disarmed(old(self).timers@, now_ms));
    }

    /// The network stack asks to poll a socket. Returns its place in the list.
    pub fn add_poll(&mut self, fd: i32, events: i32) -> (idx: i32)
        ensures
            idx == old(self).polled().len() as i32,
            final(self).polled().len() == old(self).polled().len() + 1,
            final(self).polled().drop_last() == old(self).polled(),
            final(self).polled().last().fd == fd as usize,
            final(self).polled().last().events == poll_events(events),
            final(self).polled().last().revents == 0,
            final(self).timers() == old(self).timers(),
            final(self).next_id() == old(self).next_id(),
            final(self).sent() == old(self).sent(),
            final(self).offers() == old(self).offers(),
            same_ends(*old(self), *final(self)),
            final(self).receipts() == old(self).receipts(),
            final(self).phase() == old(self).phase(),
    {
        let mut wsa_events: i16 = 0;
        if events & SLIRP_POLL_IN != 0 {
            wsa_events = wsa_events + POLLRDNORM;
        }
        if events & SLIRP_POLL_OUT != 0 {
            wsa_events = wsa_events + POLLWRNORM;
        }
        if events & SLIRP_POLL_PRI != 0 {
            wsa_events = wsa_events + POLLRDBAND;
        }
        let idx: usize = self.pollfds.len();
        self.pollfds.push(PollFd { fd: fd as usize, events: wsa_events, revents: 0 });
        assert(self.polled().drop_last() =~= old(self).polled());
        idx as i32
    }

    /// How many sockets there are to poll.
    pub fn poll_count(&self) -> (n: usize)
        ensures
            n == self.polled().len(),
    {
        self.pollfds.len()
    }

    /// A socket to poll.
    pub fn poll_fd(&self, idx: usize) -> (pollfd: PollFd)
        requires
            idx < self.polled().len(),
        ensures
            pollfd == self.polled()[idx as int],
    {
        self.pollfds[idx]
    }

    /// Takes note of what the poll found of a socket.
    pub fn set_revents(&mut self, idx: usize, revents: i16)
        requires
            idx < old(self).polled().len(),
        ensures
            final(self).polled() == old(self).polled().update(
                idx as int,
                PollFd { revents, ..old(self).polled()[idx as int] },
            ),
            final(self).timers() == old(self).timers(),
            final(self).next_id() == old(self).next_id(),
            final(self).sent() == old(self).sent(),
            final(self).offers() == old(self).offers(),
            same_ends(*old(self), *final(self)),
            final(self).receipts() == old(self).receipts(),
            final(self).phase() == old(self).phase(),
    {
        let mut pollfd: PollFd = self.pollfds[idx];
        pollfd.revents = revents;
        self.pollfds.set(idx, pollfd);
    }

    /// The network stack asks what the poll found of a socket. Nothing is
    /// found of one that is not in the list.
    pub fn get_revents(&self, idx: i32) -> (revents: i32)
        ensures
            revents == if 0 <= idx < self.polled().len() {
                slirp_events(self.polled()[idx as int].revents)
            } else {
                0
            },
    {
        if idx < 0 || idx as usize >= self.pollfds.len() {
            return 0;
        }
        let found: i16 = self.pollfds[idx as usize].revents;
        let mut revents: i32 = 0;
        if found & POLLRDNORM != 0 {
            revents = revents + SLIRP_POLL_IN;
        }
        if found & POLLWRNORM != 0 {
            revents = revents + SLIRP_POLL_OUT;
        }
        if found & POLLRDBAND != 0 {
            revents = revents + SLIRP_POLL_PRI;
        }
        if found & POLLERR != 0 {
            revents = revents + SLIRP_POLL_ERR;
        }
        if found & POLLHUP != 0 {
            revents = revents + SLIRP_POLL_HUP;
        }
        revents
    }

    /// The action that follows once a frame of the guest was looked for: it
    /// is fed to the network stack, and another one looked for; without one
    /// the clock is read.
    pub fn drained(&mut self, frame: Option<Vec<u8>>) -> (action: LoopAction<T>)
        requires
            old(self).phase() == Phase::Drain || old(self).phase() == Phase::Report,
        ensures
            final(self).timers() == old(self).timers(),
            final(self).next_id() == old(self).next_id(),
            final(self).sent() == old(self).sent(),
            final(self).offers() == old(self).offers(),
            same_ends(*old(self), *final(self)),
            final(self).receipts() == old(self).receipts(),
            final(self).polled() == old(self).polled(),
            match frame {
                Some(f) => action == LoopAction::<T>::Input(f) && final(self).phase()
                    == Phase::Drain,
                None => action == LoopAction::<T>::ReadClock && final(self).phase()
                    == Phase::Clock,
            },
    {
        match frame {
            Some(f) => {
                self.phase = Phase::Drain;
                LoopAction::Input(f)
            },
            None => {
                self.phase = Phase::Clock;
                LoopAction::ReadClock
            },
        }
    }

    /// What the host is to do after an event.
    pub fn step(&mut self, event: LoopEvent) -> (action: LoopAction<T>)
        requires
            old(self).wf(),
            expects(old(self).phase(), event),
        ensures
            final(self).wf(),
            final(self).next_id() == old(self).next_id(),
            final(self).sent() == old(self).sent(),
            final(self).offers() == old(self).offers(),
            same_ends(*old(self), *final(self)),
            stepped(*old(self), event, *final(self), action),
    {
        match (self.phase, event) {
            (Phase::Clock, LoopEvent::Clock { ns }) => {
                let now_ms: i64 = now_in_milliseconds(ns);
                self.phase = Phase::Fire { now_ms };
                LoopAction::Call(self.due(now_ms))
            },
            (Phase::Fire { now_ms }, _) => {
                self.disarm_due(now_ms);
                self.pollfds = Vec::new();
                self.phase = Phase::Fill;
                LoopAction::FillPoll { default_ms: DEFAULT_TIMEOUT_MS }
            },
            (Phase::Fill, LoopEvent::Filled { timeout_ms }) => {
                self.phase = Phase::Wait;
                if self.pollfds.len() > 0 {
                    LoopAction::Poll { timeout_ms: timeout_ms as i32 }
                } else {
                    LoopAction::Sleep { ms: timeout_ms as u64 }
                }
            },
            (Phase::Wait, _) => {
                self.phase = Phase::Report;
                LoopAction::ReportPoll
            },
            _ => {
                let frame = match channel::take_frame(&mut self.tx_receiver) {
                    Ok(f) => Some(f),
                    Err(_) => None,
                };
                self.drained(frame)
            },
        }
    }
}

/// One step of the loop: what the host is to do after an event, and what
/// changes.
pub open spec fn stepped<T>(
    before: SlirpLoop<T>,
    event: LoopEvent,
    after: SlirpLoop<T>,
    action: LoopAction<T>,
) -> bool {
    match before.phase() {
        Phase::Drain | Phase::Report => {
            &&& after.timers() == before.timers()
            &&& after.polled() == before.polled()
            &&& match action {
                LoopAction::Input(frame) => after.phase() == Phase::Drain && after.receipts()
                    == before.receipts().push(Some(frame@)),
                LoopAction::ReadClock => after.phase() == Phase::Clock && after.receipts()
                    == before.receipts().push(None),
                _ => false,
            }
        },
        Phase::Clock => {
            let now_ms = milliseconds(event->ns) as i64;
            &&& after.timers() == before.timers()
            &&& after.polled() == before.polled()
            &&& after.receipts() == before.receipts()
            &&& after.phase() == Phase::Fire { now_ms }
            &&& action matches LoopAction::Call(callbacks) && callbacks@ == due_callbacks(
                before.timers(),
                now_ms,
            )
        },
        Phase::Fire { now_ms } => {
            &&& after.timers() == disarmed(before.timers(), now_ms)
            &&& after.polled().len() == 0
            &&& after.receipts() == before.receipts()
            &&& after.phase() == Phase::Fill
            &&& action == LoopAction::<T>::FillPoll { default_ms: DEFAULT_TIMEOUT_MS }
        },
        Phase::Fill => {
            &&& after.timers() == before.timers()
            &&& after.polled() == before.polled()
            &&& after.receipts() == before.receipts()
            &&& after.phase() == Phase::Wait
            &&& action == if before.polled().len() > 0 {
                LoopAction::<T>::Poll { timeout_ms: event->timeout_ms as i32 }
            } else {
                LoopAction::<T>::Sleep { ms: event->timeout_ms as u64 }
            }
        },
        Phase::Wait => {
            &&& after.timers() == before.timers()
            &&& after.polled() == before.polled()
            &&& after.receipts() == before.receipts()
            &&& after.phase() == Phase::Report
            &&& action == LoopAction::<T>::ReportPoll
        },
    }
}

/// A run of steps that look for frames of the guest, from one state to the
/// next.
pub open spec fn is_drain<T>(states: Seq<SlirpLoop<T>>, actions: Seq<LoopAction<T>>) -> bool {
    &&& states.len() == actions.len() + 1
    &&& forall|i: int|
        0 <= i < actions.len() ==> ((#[trigger] states[i]).phase() == Phase::Drain
            || states[i].phase() == Phase::Report) && stepped(
            states[i],
            LoopEvent::Done,
            states[i + 1],
            actions[i],
        )
}

proof fn lemma_drain<T>(states: Seq<SlirpLoop<T>>, actions: Seq<LoopAction<T>>, i: int)
    requires
        is_drain(states, actions),
        0 <= i <= actions.len(),
    ensures
        states[i].receipts().len() == states[0].receipts().len() + i,
        forall|k: int|
            0 <= k < states[0].receipts().len() + i ==> #[trigger] states[i].receipts()[k]
                == states.last().receipts()[k],
        states.last().receipts().len() == states[0].receipts().len() + actions.len(),
    decreases actions.len() - i,
{
    lemma_drain_length(states, actions, i);
    lemma_drain_length(states, actions, actions.len() as int);
    if i < actions.len() {
        lemma_drain(states, actions, i + 1);
        assert(stepped(states[i], LoopEvent::Done, states[i + 1], actions[i]));
        assert forall|k: int| 0 <= k < states[0].receipts().len() + i implies (
        #[trigger] states[i].receipts()[k]) == states.last().receipts()[k] by {
            assert(states[i + 1].receipts()[k] == states.last().receipts()[k]);
        }
    }
}

proof fn lemma_drain_length<T>(states: Seq<SlirpLoop<T>>, actions: Seq<LoopAction<T>>, i: int)
    requires
        is_drain(states, actions),
        0 <= i <= actions.len(),
    ensures
        states[i].receipts().len() == states[0].receipts().len() + i,
    decreases i,
{
    if i > 0 {
        lemma_drain_length(states, actions, i - 1);
        assert(stepped(states[i - 1], LoopEvent::Done, states[i - 1 + 1], actions[i - 1]));
    }
}

/// Where the channel hands over the frames that wait in it, and then none,
/// each of them is fed to the network stack once, whole and in order, and
/// then the clock is read.
pub proof fn waiting_frames_are_fed_in_order<T>(
    states: Seq<SlirpLoop<T>>,
    actions: Seq<LoopAction<T>>,
    waiting: Seq<Seq<u8>>,
    i: int,
)
    requires
        is_drain(states, actions),
        actions.len() == waiting.len() + 1,
        states.last().receipts() == states[0].receipts() + Seq::new(
            waiting.len(),
            |k: int| Some(waiting[k]),
        ).push(None),
        0 <= i <= waiting.len(),
    ensures
        i < waiting.len() ==> (actions[i] matches LoopAction::Input(frame) && frame@
            == waiting[i]),
        i == waiting.len() ==> actions[i] is ReadClock,
        states[i].timers() == states[0].timers(),
    decreases i,
{
    let n = states[0].receipts().len() as int;
    lemma_drain(states, actions, i + 1);
    lemma_drain_length(states, actions, i);
    assert(stepped(states[i], LoopEvent::Done, states[i + 1], actions[i]));
    assert(states[i + 1].receipts()[n + i] == states.last().receipts()[n + i]);
    assert(states[i + 1].receipts()[n + i] == states[i + 1].receipts().last());
    if i > 0 {
        waiting_frames_are_fed_in_order(states, actions, waiting, i - 1);
        assert(stepped(states[i - 1], LoopEvent::Done, states[i - 1 + 1], actions[i - 1]));
    }
}

/// The loop goes round in order: frames until there are none, the clock, the
/// timers, the list of sockets, the poll, the report, and frames again. The
/// list of sockets is emptied before it is filled, and timers are called at
/// the time that the clock showed.
pub proof fn phases_follow_in_order<T>(
    before: SlirpLoop<T>,
    event: LoopEvent,
    after: SlirpLoop<T>,
    action: LoopAction<T>,
)
    requires
        expects(before.phase(), event),
        stepped(before, event, after, action),
    ensures
        match before.phase() {
            Phase::Drain | Phase::Report => after.phase() == Phase::Drain || after.phase()
                == Phase::Clock,
            Phase::Clock => after.phase() == Phase::Fire { now_ms: milliseconds(event->ns) as i64 },
            Phase::Fire { now_ms } => after.phase() == Phase::Fill && after.polled().len() == 0
                && forall|i: int|
                0 <= i < after.timers().len() ==> !is_due(#[trigger] after.timers()[i], now_ms),
            Phase::Fill => after.phase() == Phase::Wait,
            Phase::Wait => after.phase() == Phase::Report,
        },
{
}

/// The time in nanoseconds that the network stack is told: what has elapsed,
/// cut to 64 bits.
pub fn clock_ns(elapsed_nanos: u128) -> (ns: i64)
    ensures
        ns == elapsed_nanos as i64,
{
    elapsed_nanos as i64
}

/// Milliseconds of a time in nanoseconds, rounded towards zero.
pub fn now_in_milliseconds(ns: i64) -> (ms: i64)
    ensures
        ms == milliseconds(ns),
{
    if ns >= 0 {
        (ns as u64 / 1_000_000) as i64
    } else {
        let magnitude: u64 = (-(ns as i128)) as u64;
        -((magnitude / 1_000_000) as i64)
    }
}

proof fn lemma_without<T>(timers: Seq<SlirpTimer<T>>, id: usize, next: usize)
    requires
        numbered(timers, next),
    ensures
        numbered(without(timers, id), next),
        forall|i: int|
            0 <= i < without(timers, id).len() ==> (#[trigger] without(timers, id)[i]).id != id
                && timers.contains(without(timers, id)[i]),
    decreases timers.len(),
{
    if timers.len() > 0 {
        let shorter = timers.drop_last();
        assert(numbered(shorter, next));
        lemma_without(shorter, id, next);
        let kept = without(timers, id);
        let before = without(shorter, id);
        assert forall|i: int| 0 <= i < kept.len() implies (#[trigger] kept[i]).id != id
            && timers.contains(kept[i]) by {
            if i < before.len() {
                assert(kept[i] == before[i]);
                let k = choose|k: int| 0 <= k < shorter.len() && shorter[k] == before[i];
                assert(timers[k] == kept[i]);
            } else {
                assert(timers[timers.len() - 1] == kept[i]);
            }
        }
        assert forall|i: int, j: int| 0 <= i < j < kept.len() implies (#[trigger] kept[i]).id != (
        #[trigger] kept[j]).id by {
            assert(kept[i] == before[i]);
            if j == before.len() {
                let k = choose|k: int| 0 <= k < shorter.len() && shorter[k] == before[i];
                assert(timers[k].id != timers[timers.len() - 1].id);
            }
        }
    }
}

/// A freed timer is gone, and no other one is.
pub proof fn freed_timer_is_gone<T>(
    timers: Seq<SlirpTimer<T>>,
    id: usize,
    next: usize,
    t: SlirpTimer<T>,
)
    requires
        numbered(timers, next),
    ensures
        without(timers, id).contains(t) <==> timers.contains(t) && t.id != id,
    decreases timers.len(),
{
    lemma_without(timers, id, next);
    if timers.contains(t) && t.id != id {
        lemma_kept(timers, id, t);
    }
}

proof fn lemma_kept<T>(timers: Seq<SlirpTimer<T>>, id: usize, t: SlirpTimer<T>)
    requires
        timers.contains(t),
        t.id != id,
    ensures
        without(timers, id).contains(t),
    decreases timers.len(),
{
    let k = choose|k: int| 0 <= k < timers.len() && timers[k] == t;
    let before = without(timers.drop_last(), id);
    let kept = without(timers, id);
    if k == timers.len() - 1 {
        assert(kept[before.len() as int] == t);
    } else {
        assert(timers.drop_last()[k] == t);
        lemma_kept(timers.drop_last(), id, t);
        let p = choose|p: int| 0 <= p < before.len() && before[p] == t;
        assert(kept[p] == t);
    }
}

/// A timer fires once: after the timers that are due were called and
/// disarmed, none of them is due at that time or any later one.
pub proof fn timers_fire_once<T>(timers: Seq<SlirpTimer<T>>, now_ms: i64, later_ms: i64, i: int)
    requires
        0 <= i < timers.len(),
        is_due(timers[i], now_ms),
    ensures
        !is_due(disarmed(timers, now_ms)[i], later_ms),
        due_callbacks(timers, now_ms).contains(timers[i].callback),
    decreases timers.len(),
{
    let shorter = timers.drop_last();
    let all = due_callbacks(timers, now_ms);
    let before = due_callbacks(shorter, now_ms);
    if i == timers.len() - 1 {
        assert(all[before.len() as int] == timers[i].callback);
    } else {
        assert(shorter[i] == timers[i]);
        timers_fire_once(shorter, now_ms, later_ms, i);
        let p = choose|p: int| 0 <= p < before.len() && before[p] == timers[i].callback;
        assert(all[p] == timers[i].callback);
    }
}

/// Only timers that are due are called.
pub proof fn only_due_timers_fire<T>(timers: Seq<SlirpTimer<T>>, now_ms: i64, n: int)
    requires
        0 <= n < due_callbacks(timers, now_ms).len(),
    ensures
        exists|i: int|
            0 <= i < timers.len() && is_due(#[trigger] timers[i], now_ms) && timers[i].callback
                == due_callbacks(timers, now_ms)[n],
    decreases timers.len(),
{
    let shorter = timers.drop_last();
    let before = due_callbacks(shorter, now_ms);
    if timers.len() > 0 {
        if n < before.len() {
            only_due_timers_fire(shorter, now_ms, n);
            let i = choose|i: int|
                0 <= i < shorter.len() && is_due(#[trigger] shorter[i], now_ms)
                    && shorter[i].callback == before[n];
            assert(timers[i] == shorter[i]);
            assert(is_due(timers[i], now_ms));
        } else {
            assert(is_due(timers[timers.len() - 1], now_ms));
        }
    }
}

/// The kinds of readiness that the network stack asks for are those that it
/// is told of when the host finds them all.
pub proof fn poll_flags_round_trip(events: i32, revents: i16)
    requires
        revents == poll_events(events),
    ensures
        slirp_events(revents) == events & (SLIRP_POLL_IN | SLIRP_POLL_OUT | SLIRP_POLL_PRI),
{
    assert(256i16 & 256 != 0 && 256i16 & 16 == 0 && 256i16 & 512 == 0 && 256i16 & 1 == 0 && 256i16
        & 2 == 0 && 16i16 & 256 == 0 && 16i16 & 16 != 0 && 16i16 & 512 == 0 && 16i16 & 1 == 0
        && 16i16 & 2 == 0 && 512i16 & 256 == 0 && 512i16 & 16 == 0 && 512i16 & 512 != 0 && 512i16
        & 1 == 0 && 512i16 & 2 == 0 && 272i16 & 256 != 0 && 272i16 & 16 != 0 && 272i16 & 512 == 0
        && 272i16 & 1 == 0 && 272i16 & 2 == 0 && 768i16 & 256 != 0 && 768i16 & 16 == 0 && 768i16
        & 512 != 0 && 768i16 & 1 == 0 && 768i16 & 2 == 0 && 528i16 & 256 == 0 && 528i16 & 16 != 0
        && 528i16 & 512 != 0 && 528i16 & 1 == 0 && 528i16 & 2 == 0 && 784i16 & 256 != 0 && 784i16
        & 16 != 0 && 784i16 & 512 != 0 && 784i16 & 1 == 0 && 784i16 & 2 == 0 && 0i16 & 256 == 0
        && 0i16 & 16 == 0 && 0i16 & 512 == 0 && 0i16 & 1 == 0 && 0i16 & 2 == 0) by (bit_vector);
    assert(events & (1i32 | 2 | 4) == (if events & 1 != 0 {
        1int
    } else {
        0
    }) + (if events & 2 != 0 {
        2int
    } else {
        0
    }) + (if events & 4 != 0 {
        4int
    } else {
        0
    })) by (bit_vector);
}

/// The milliseconds at which timers are judged are those that have passed in
/// full, and never go back while the clock does not. Before zero they are
/// rounded towards it.
pub proof fn milliseconds_are_those_that_have_passed(ns: i64, ms: i64, later_ns: i64, later_ms: i64)
    requires
        call_ensures(now_in_milliseconds, (ns,), ms),
        call_ensures(now_in_milliseconds, (later_ns,), later_ms),
    ensures
        ns >= 0 ==> ms * 1_000_000 <= ns < (ms + 1) * 1_000_000,
        ns <= 0 ==> (ms - 1) * 1_000_000 < ns <= ms * 1_000_000,
        ns <= later_ns ==> ms <= later_ms,
{
}

/// The time that has elapsed is told as it is for as long as it fits, which is
/// more than two centuries.
pub proof fn elapsed_time_is_told(elapsed_nanos: u128, ns: i64)
    requires
        call_ensures(clock_ns, (elapsed_nanos,), ns),
        elapsed_nanos <= i64::MAX,
    ensures
        ns == elapsed_nanos,
{
}

/// The timer has come due at a reading of the clock in nanoseconds.
pub open spec fn has_come<T>(t: SlirpTimer<T>, ns: i64) -> bool {
    t.expire_time_ms != i64::MAX && t.expire_time_ms * 1_000_000 <= ns
}

proof fn lemma_due_are_filtered<T>(timers: Seq<SlirpTimer<T>>, ns: i64, now_ms: i64)
    requires
        ns >= 0,
        now_ms == ns as int / 1_000_000,
    ensures
        due_callbacks(timers, now_ms) == timers.filter(
            |t: SlirpTimer<T>| has_come(t, ns),
        ).map_values(|t: SlirpTimer<T>| t.callback),
    decreases timers.len(),
{
    reveal(Seq::filter);
    let come = |t: SlirpTimer<T>| has_come(t, ns);
    let callback = |t: SlirpTimer<T>| t.callback;
    if timers.len() > 0 {
        lemma_due_are_filtered(timers.drop_last(), ns, now_ms);
        let t = timers.last();
        assert(is_due(t, now_ms) == has_come(t, ns));
        let before = timers.drop_last().filter(come);
        if has_come(t, ns) {
            assert(before.push(t).map_values(callback) =~= before.map_values(callback).push(
                t.callback,
            ));
        }
        assert(due_callbacks(timers, now_ms) =~= timers.filter(come).map_values(callback));
    } else {
        assert(due_callbacks(timers, now_ms) =~= timers.filter(come).map_values(callback));
    }
}

/// When the clock was read, exactly the armed timers are called whose time in
/// milliseconds has come at that reading, in the order in which they were
/// made; a timer for `e` milliseconds is called at every reading of `e`
/// million nanoseconds or more.
pub proof fn timers_are_called_in_time<T: Copy>(
    net: &mut SlirpLoop<T>,
    ns: i64,
    action: LoopAction<T>,
)
    requires
        call_ensures(SlirpLoop::<T>::step, (net, LoopEvent::Clock { ns }), action),
        old(net).wf(),
        old(net).phase() is Clock,
        ns >= 0,
    ensures
        action matches LoopAction::Call(callbacks) && callbacks@ == old(net).timers().filter(
            |t: SlirpTimer<T>| has_come(t, ns),
        ).map_values(|t: SlirpTimer<T>| t.callback),
        final(net).phase() matches Phase::Fire { now_ms } && now_ms * 1_000_000 <= ns < (now_ms + 1)
            * 1_000_000,
        final(net).timers() == old(net).timers(),
{
    lemma_due_are_filtered(old(net).timers(), ns, (ns as int / 1_000_000) as i64);
}

/// Once they were called, the timers that were due at the time are not armed
/// any more and all others stay; the list of sockets is empty and is to be
/// filled with a timeout of 50 milliseconds unless the network stack asks for
/// another.
pub proof fn called_timers_are_disarmed<T: Copy>(
    net: &mut SlirpLoop<T>,
    now_ms: i64,
    action: LoopAction<T>,
)
    requires
        call_ensures(SlirpLoop::<T>::step, (net, LoopEvent::Done), action),
        old(net).wf(),
        old(net).phase() == (Phase::Fire { now_ms }),
    ensures
        final(net).timers().len() == old(net).timers().len(),
        forall|i: int|
            0 <= i < old(net).timers().len() ==> {
                let before = old(net).timers()[i];
                let after = #[trigger] final(net).timers()[i];
                &&& after.id == before.id && after.callback == before.callback
                &&& after.expire_time_ms == if before.expire_time_ms <= now_ms {
                    i64::MAX
                } else {
                    before.expire_time_ms
                }
            },
        final(net).polled().len() == 0,
        action matches LoopAction::FillPoll { default_ms } && default_ms == 50,
        final(net).phase() is Fill,
{
}

/// With sockets in the list the host polls them for as long as it was asked
/// to, which beyond the signed numbers is a negative timeout; without any it
/// sleeps as long. Then the network stack is told.
pub proof fn sockets_are_polled_for_the_timeout<T: Copy>(
    net: &mut SlirpLoop<T>,
    timeout_ms: u32,
    action: LoopAction<T>,
    polled: &mut SlirpLoop<T>,
    report: LoopAction<T>,
)
    requires
        call_ensures(SlirpLoop::<T>::step, (net, LoopEvent::Filled { timeout_ms }), action),
        call_ensures(SlirpLoop::<T>::step, (polled, LoopEvent::Done), report),
        old(net).wf(),
        old(net).phase() is Fill,
        *old(polled) == *final(net),
    ensures
        old(net).polled().len() == 0 ==> (action matches LoopAction::Sleep { ms } && ms
            == timeout_ms),
        old(net).polled().len() > 0 ==> (action matches LoopAction::Poll { timeout_ms: ms } && ms
            == (if timeout_ms <= i32::MAX {
            timeout_ms as int
        } else {
            timeout_ms - 0x1_0000_0000
        })),
        report is ReportPoll,
        final(polled).phase() is Report,
        final(polled).polled() == old(net).polled(),
{
    assert(timeout_ms <= 0x7fff_ffff ==> timeout_ms as i32 == timeout_ms) by (bit_vector);
    assert(timeout_ms > 0x7fff_ffff ==> timeout_ms as i32 == timeout_ms - 0x1_0000_0000)
        by (bit_vector);
}

/// The host polls a socket for exactly the kinds that the network stack asks
/// for: data (1) as 0x100, room (2) as 0x10, urgent data (4) as 0x200. The
/// socket is the last of the list, and its place is returned.
pub proof fn sockets_are_polled_for_what_is_asked<T: Copy>(
    net: &mut SlirpLoop<T>,
    fd: i32,
    events: i32,
    idx: i32,
)
    requires
        call_ensures(SlirpLoop::<T>::add_poll, (net, fd, events), idx),
        old(net).polled().len() <= i32::MAX,
    ensures
        idx == old(net).polled().len(),
        final(net).polled().len() == idx + 1,
        ({
            let socket = final(net).polled()[idx as int];
            &&& socket.fd == fd as usize
            &&& fd >= 0 ==> socket.fd == fd
            &&& socket.revents == 0
            &&& socket.events & 0x100 != 0 <==> events & 1 != 0
            &&& socket.events & 0x10 != 0 <==> events & 2 != 0
            &&& socket.events & 0x200 != 0 <==> events & 4 != 0
            &&& socket.events & !0x310 == 0
        }),
{
    let e = final(net).polled().last().events;
    let (a, b, c) = (events & 1 != 0, events & 2 != 0, events & 4 != 0);
    assert((e & 0x100 != 0 <==> a) && (e & 0x10 != 0 <==> b) && (e & 0x200 != 0 <==> c) && e
        & !0x310 == 0) by (bit_vector)
        requires
            e == (if a {
                256int
            } else {
                0
            }) + (if b {
                16int
            } else {
                0
            }) + (if c {
                512int
            } else {
                0
            }),
    ;
}

/// The network stack is told of exactly what the host found of a socket: data
/// (0x100) as 1, room (0x10) as 2, urgent data (0x200) as 4, an error (1) as 8
/// and a hang-up (2) as 16; of a socket that is not listed, nothing.
pub proof fn findings_are_told_as_they_are<T: Copy>(net: SlirpLoop<T>, idx: i32, told: i32)
    requires
        call_ensures(SlirpLoop::<T>::get_revents, (&net, idx), told),
    ensures
        !(0 <= idx < net.polled().len()) ==> told == 0,
        0 <= idx < net.polled().len() ==> {
            let found = net.polled()[idx as int].revents;
            &&& told & 1 != 0 <==> found & 0x100 != 0
            &&& told & 2 != 0 <==> found & 0x10 != 0
            &&& told & 4 != 0 <==> found & 0x200 != 0
            &&& told & 8 != 0 <==> found & 1 != 0
            &&& told & 16 != 0 <==> found & 2 != 0
            &&& told & !31 == 0
        },
{
    if 0 <= idx < net.polled().len() {
        let found = net.polled()[idx as int].revents;
        let (a, b, c) = (found & 0x100 != 0, found & 0x10 != 0, found & 0x200 != 0);
        let (d, f) = (found & 1 != 0, found & 2 != 0);
        assert((told & 1 != 0 <==> a) && (told & 2 != 0 <==> b) && (told & 4 != 0 <==> c) && (told
            & 8 != 0 <==> d) && (told & 16 != 0 <==> f) && told & !31 == 0) by (bit_vector)
            requires
                told == (if a {
                    1int
                } else {
                    0
                }) + (if b {
                    2int
                } else {
                    0
                }) + (if c {
                    4int
                } else {
                    0
                }) + (if d {
                    8int
                } else {
                    0
                }) + (if f {
                    16int
                } else {
                    0
                }),
        ;
    }
}

/// Setting a timer changes when it expires and nothing else, and no other
/// timer.
pub proof fn timers_are_set_one_by_one<T: Copy>(
    net: &mut SlirpLoop<T>,
    id: usize,
    expire_time_ms: i64,
    i: int,
)
    requires
        call_ensures(SlirpLoop::<T>::timer_mod, (net, id, expire_time_ms), ()),
        old(net).wf(),
        0 <= i < old(net).timers().len(),
    ensures
        final(net).timers().len() == old(net).timers().len(),
        ({
            let before = old(net).timers()[i];
            let after = final(net).timers()[i];
            &&& after.id == before.id && after.callback == before.callback
            &&& before.id == id ==> after.expire_time_ms == expire_time_ms
            &&& before.id != id ==> after.expire_time_ms == before.expire_time_ms
        }),
{
}

/// A new timer comes last, is not armed and has a number that no other one
/// has; all others stay.
pub proof fn new_timers_are_not_armed<T: Copy>(
    net: &mut SlirpLoop<T>,
    callback: T,
    id: usize,
    ns: i64,
)
    requires
        call_ensures(SlirpLoop::<T>::timer_new, (net, callback), id),
        old(net).wf(),
        old(net).next_id() < usize::MAX,
    ensures
        final(net).timers().len() == old(net).timers().len() + 1,
        forall|i: int|
            0 <= i < old(net).timers().len() ==> final(net).timers()[i].id != id && (
            #[trigger] final(net).timers()[i]) == old(net).timers()[i],
        final(net).timers().last().id == id,
        final(net).timers().last().callback == callback,
        !has_come(final(net).timers().last(), ns),
{
}

/// Freeing removes the timer with the number, and only that one.
pub proof fn freeing_removes_one_timer<T: Copy>(
    net: &mut SlirpLoop<T>,
    id: usize,
    t: SlirpTimer<T>,
)
    requires
        call_ensures(SlirpLoop::<T>::timer_free, (net, id), ()),
        old(net).wf(),
    ensures
        final(net).timers().contains(t) <==> old(net).timers().contains(t) && t.id != id,
{
    freed_timer_is_gone(old(net).timers(), id, old(net).next_id(), t);
}

/// A packet that the channel took is acknowledged with its length and the
/// guest's side is signalled; one that it refused is answered with -1.
pub proof fn packets_are_acknowledged<T: Copy>(
    net: &mut SlirpLoop<T>,
    frame: Vec<u8>,
    outcome: PacketSent,
)
    requires
        call_ensures(SlirpLoop::<T>::send_packet, (net, frame), outcome),
        frame@.len() <= isize::MAX,
    ensures
        final(net).offers().drop_last() == old(net).offers(),
        final(net).offers().last().0 == frame@,
        ({
            let taken = final(net).offers().last().1 is None;
            &&& taken ==> outcome.ret == frame@.len() && outcome.signal == Some(old(net).event())
                && final(net).sent().len() == old(net).sent().len() + 1 && final(net).sent().last()
                == frame@
            &&& !taken ==> outcome.ret == -1 && outcome.signal is None
            &&& !taken ==> final(net).sent() == old(net).sent()
        }),
{
    assert(final(net).offers().drop_last() =~= old(net).offers());
}

/// The guest's network is 10.0.2.0/24: the host is 10.0.2.2, names are served
/// by 10.0.2.3 and the first address given out is 10.0.2.15.
pub proof fn network_is_the_private_one(s: SlirpSettings)
    requires
        call_ensures(slirp_settings, (), s),
    ensures
        s.vnetmask == 0xFFFF_FF00,
        s.vnetwork == 0x0A00_0200,
        s.vhost == s.vnetwork + 2,
        s.vnameserver == s.vnetwork + 3,
        s.vdhcp_start == s.vnetwork + 15,
        s.in_enabled && !s.in6_enabled,
        !s.disable_dns && !s.disable_dhcp && !s.disable_host_loopback,
        s.version == 4,
{
}

/// While frames of the guest are looked for, one that was found is fed to the
/// network stack whole and another one is looked for; without one the clock is
/// read. Timers and sockets stay.
pub proof fn found_frames_are_fed<T: Copy>(net: &mut SlirpLoop<T>, action: LoopAction<T>)
    requires
        call_ensures(SlirpLoop::<T>::step, (net, LoopEvent::Done), action),
        old(net).wf(),
        old(net).phase() is Drain || old(net).phase() is Report,
    ensures
        final(net).receipts().len() == old(net).receipts().len() + 1,
        final(net).receipts().last() matches Some(f) ==> (action matches LoopAction::Input(frame)
            && frame@ == f) && final(net).phase() is Drain,
        final(net).receipts().last() is None ==> action is ReadClock && final(net).phase() is Clock,
        final(net).timers() == old(net).timers(),
        final(net).polled() == old(net).polled(),
        final(net).sent() == old(net).sent(),
{
}

/// What the poll found of a socket is noted for that socket alone, and is what
/// the network stack then asks for.
pub proof fn findings_are_noted_for_their_socket<T: Copy>(
    net: &mut SlirpLoop<T>,
    idx: usize,
    revents: i16,
    i: int,
)
    requires
        call_ensures(SlirpLoop::<T>::set_revents, (net, idx, revents), ()),
        idx < old(net).polled().len(),
        0 <= i < old(net).polled().len(),
    ensures
        final(net).polled().len() == old(net).polled().len(),
        i != idx ==> final(net).polled()[i] == old(net).polled()[i],
        i == idx ==> final(net).polled()[i].revents == revents && final(net).polled()[i].fd
            == old(net).polled()[i].fd && final(net).polled()[i].events
            == old(net).polled()[i].events,
{
}

/// A packet callback answers with the length of a packet that was sent, and
/// signals; else it answers -1 and signals nothing.
pub proof fn callbacks_answer_the_length<T: Copy>(
    net: SlirpLoop<T>,
    sent: bool,
    len: usize,
    outcome: PacketSent,
)
    requires
        call_ensures(SlirpLoop::<T>::packet_sent, (&net, sent, len), outcome),
        len <= isize::MAX,
    ensures
        sent ==> outcome.ret == len && outcome.signal == Some(net.event()),
        !sent ==> outcome.ret == -1 && outcome.signal is None,
{
}

} // verus!
