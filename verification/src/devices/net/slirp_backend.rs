//! In-process network backend: frames go to and come from the network loop
//! through two channels.
use crate::devices::net::backend::{ConnectError, NetBackend, ReadError, WriteError};
use crate::devices::net::channel;
use crate::devices::net::channel::{NoFrame, Refused};
use crate::devices::net::header;
use crate::devices::net::header::VNET_HDR_LEN;
use crate::devices::net::slirp_loop::SlirpLoop;
use crate::utils::epoll::Pollable;
use crossbeam_channel::{Receiver, Sender};
use vstd::prelude::*;

verus! {

/// How many frames wait in each direction at most.
pub const CHANNEL_FRAMES: usize = 256;

/// Slirp network backend using in-process libslirp.
pub struct SlirpBackend {
    tx_sender: Sender<Vec<u8>>,
    rx_receiver: Receiver<Vec<u8>>,
    pending_rx: Option<Vec<u8>>,
    rx_event: Pollable,
}

/// What is behind the header.
pub open spec fn payload_of(hdr_len: usize, buf: Seq<u8>) -> Seq<u8> {
    buf.skip(hdr_len as int)
}

/// A frame with a header fits in the buffer.
pub open spec fn fits(frame: Seq<u8>, room: nat) -> bool {
    VNET_HDR_LEN + frame.len() <= room
}

/// The buffer after a frame was delivered to it: header and frame, if they
/// fit, else the header alone.
pub open spec fn with_frame(frame: Seq<u8>, buf: Seq<u8>) -> Seq<u8> {
    if fits(frame, buf.len()) {
        header::blank_header() + frame + buf.skip(VNET_HDR_LEN + frame.len())
    } else {
        header::blank_header() + buf.skip(VNET_HDR_LEN as int)
    }
}

/// The outcome of reading, once it is known which frame there is, if any.
pub open spec fn is_read(
    frame: Option<Seq<u8>>,
    before: Seq<u8>,
    after: Seq<u8>,
    r: Result<usize, ReadError>,
) -> bool {
    match frame {
        None => r == Err::<usize, ReadError>(ReadError::NothingRead) && after == before,
        Some(f) => {
            &&& after == with_frame(f, before)
            &&& if fits(f, before.len()) {
                r is Ok && r->Ok_0 == VNET_HDR_LEN + f.len()
            } else {
                r == Err::<usize, ReadError>(ReadError::NothingRead)
            }
        },
    }
}

/// Delivers a frame, if there is one, to a buffer: a header and then the
/// frame. One that is too large is dropped.
pub fn deliver_frame(frame: Option<Vec<u8>>, buf: &mut [u8]) -> (r: Result<usize, ReadError>)
    requires
        old(buf)@.len() >= VNET_HDR_LEN,
    ensures
        is_read(
            match frame {
                Some(f) => Some(f@),
                None => None,
            },
            old(buf)@,
            final(buf)@,
            r,
        ),
{
    match frame {
        None => Err(ReadError::NothingRead),
        Some(frame) => {
            let hdr_len: usize = header::write_virtio_net_hdr(buf);
            let frame_len: usize = frame.len();
            let room: usize = buf.len();
            if frame_len > room - hdr_len {
                return Err(ReadError::NothingRead);
            }
            let mut i: usize = 0;
            while i < frame_len
                invariant
                    i <= frame_len == frame@.len(),
                    hdr_len == VNET_HDR_LEN,
                    hdr_len + frame_len <= room == buf@.len() == old(buf)@.len(),
                    forall|k: int| 0 <= k < hdr_len ==> buf@[k] == 0,
                    forall|k: int| hdr_len <= k < hdr_len + i ==> buf@[k] == frame@[k - hdr_len],
                    forall|k: int| hdr_len + i <= k < buf@.len() ==> buf@[k] == old(buf)@[k],
                decreases frame_len - i,
            {
                buf[hdr_len + i] = frame[i];
                i = i + 1;
            }
            assert(buf@ =~= with_frame(frame@, old(buf)@));
            Ok(hdr_len + frame_len)
        },
    }
}

/// The frame behind the header, if there is one.
pub fn frame_to_send(hdr_len: usize, buf: &[u8]) -> (frame: Option<Vec<u8>>)
    ensures
        match frame {
            Some(f) => buf@.len() > hdr_len && f@ == payload_of(hdr_len, buf@),
            None => buf@.len() <= hdr_len,
        },
{
    if buf.len() <= hdr_len {
        return None;
    }
    let mut frame: Vec<u8> = Vec::new();
    let mut i: usize = hdr_len;
    while i < buf.len()
        invariant
            hdr_len <= i <= buf@.len(),
            frame@ == buf@.subrange(hdr_len as int, i as int),
        decreases buf@.len() - i,
    {
        frame.push(buf[i]);
        i = i + 1;
        assert(frame@ =~= buf@.subrange(hdr_len as int, i as int));
    }
    assert(frame@ =~= payload_of(hdr_len, buf@));
    Some(frame)
}

/// The outcome of writing a frame, by the answer to its offer.
pub open spec fn outcome_of(answer: Option<bool>) -> Result<(), WriteError> {
    match answer {
        None => Ok(()),
        Some(true) => Err(WriteError::NothingWritten),
        Some(false) => Err(WriteError::ProcessNotRunning),
    }
}

/// The outcome of writing a frame that was offered to the channel.
pub fn write_outcome(offered: Result<(), Refused>) -> (r: Result<(), WriteError>)
    ensures
        r == outcome_of(channel::answer_of(offered)),
{
    match offered {
        Ok(_) => Ok(()),
        Err(Refused::Full(_)) => Err(WriteError::NothingWritten),
        Err(Refused::Disconnected(_)) => Err(WriteError::ProcessNotRunning),
    }
}

/// The backend stays on the same channels and the same event.
pub open spec fn same_ends(before: SlirpBackend, after: SlirpBackend) -> bool {
    &&& after.tx_channel() == before.tx_channel()
    &&& after.rx_channel() == before.rx_channel()
    &&& after.sending_limit() == before.sending_limit()
    &&& after.event() == before.event()
}

impl SlirpBackend {
    /// The frames sent to the network, oldest first.
    pub closed spec fn sent(&self) -> Seq<Seq<u8>> {
        channel::frames_sent(self.tx_sender)
    }

    /// The frames offered to the network, oldest first, each with the answer.
    pub closed spec fn offers(&self) -> Seq<(Seq<u8>, Option<bool>)> {
        channel::offers(self.tx_sender)
    }

    /// How many frames wait for the network at most.
    pub closed spec fn sending_limit(&self) -> nat {
        channel::sending_limit(self.tx_sender)
    }

    /// What each look for a frame from the network gave, oldest first.
    pub closed spec fn receipts(&self) -> Seq<Option<Seq<u8>>> {
        channel::receipts(self.rx_receiver)
    }

    /// The channel to the network.
    pub closed spec fn tx_channel(&self) -> int {
        channel::sending_channel(self.tx_sender)
    }

    /// The channel from the network.
    pub closed spec fn rx_channel(&self) -> int {
        channel::receiving_channel(self.rx_receiver)
    }

    /// A received frame that is read before any other.
    pub closed spec fn pending(&self) -> Option<Vec<u8>> {
        self.pending_rx
    }

    /// The event that is signalled when there is a frame to read.
    pub closed spec fn event(&self) -> Pollable {
        self.rx_event
    }

    /// Creates a backend, and the loop that is to run on the other ends of
    /// its channels. The host has created an event that tells that there are
    /// frames to read, or reports a failure as handle zero, with its last
    /// error number where it has one.
    pub fn new<T: Copy>(rx_event: Pollable, last_error: Option<i32>) -> (r: Result<
        (SlirpBackend, SlirpLoop<T>),
        ConnectError,
    >)
        ensures
            match r {
                Ok((backend, net)) => {
                    &&& rx_event != 0
                    &&& backend.event() == rx_event
                    &&& backend.pending() is None
                    &&& backend.sent().len() == 0
                    &&& backend.offers().len() == 0
                    &&& backend.sending_limit() == CHANNEL_FRAMES
                    &&& backend.receipts().len() == 0
                    &&& backend.tx_channel() == net.tx_channel()
                    &&& backend.rx_channel() == net.rx_channel()
                    &&& net.wf()
                    &&& net.is_fresh(rx_event)
                    &&& net.sending_limit() == CHANNEL_FRAMES
                },
                Err(e) => rx_event == 0 && e == ConnectError::CreateSocket(
                    match last_error {
                        Some(code) => code,
                        None => (-1) as i32,
                    },
                ),
            },
    {
        let (tx_sender, tx_receiver) = channel::frame_channel(CHANNEL_FRAMES);
        let (rx_sender, rx_receiver) = channel::frame_channel(CHANNEL_FRAMES);
        if rx_event == 0 {
            return Err(
                ConnectError::CreateSocket(
                    match last_error {
                        Some(code) => code,
                        None => -1,
                    },
                ),
            );
        }
        Ok(
            (
                SlirpBackend { tx_sender, rx_receiver, pending_rx: None, rx_event },
                SlirpLoop::new(tx_receiver, rx_sender, rx_event),
            ),
        )
    }

    /// The received frame to deliver next, if there is one: the pending one
    /// before any in the channel.
    fn next_frame(&mut self) -> (frame: Option<Vec<u8>>)
        ensures
            final(self).sent() == old(self).sent(),
            final(self).offers() == old(self).offers(),
            same_ends(*old(self), *final(self)),
            final(self).pending() is None,
            match old(self).pending() {
                Some(f) => frame == Some(f) && final(self).receipts() == old(self).receipts(),
                None => final(self).receipts() == old(self).receipts().push(
                    match frame {
                        Some(f) => Some(f@),
                        None => None,
                    },
                ),
            },
    {
        match self.pending_rx.take() {
            Some(f) => Some(f),
            None => match channel::take_frame(&mut self.rx_receiver) {
                Ok(f) => Some(f),
                Err(NoFrame::Empty) => None,
                Err(NoFrame::Disconnected) => None,
            },
        }
    }
}

impl NetBackend for SlirpBackend {
    open spec fn least_buffer(&self) -> nat {
        VNET_HDR_LEN as nat
    }

    /// Reads the next received frame, if there is one.
    fn read_frame(&mut self, buf: &mut [u8]) -> (r: Result<usize, ReadError>)
        ensures
            final(self).sent() == old(self).sent(),
            final(self).offers() == old(self).offers(),
            same_ends(*old(self), *final(self)),
            final(self).pending() is None,
            match old(self).pending() {
                Some(f) => final(self).receipts() == old(self).receipts() && is_read(
                    Some(f@),
                    old(buf)@,
                    final(buf)@,
                    r,
                ),
                None => {
                    &&& final(self).receipts().len() == old(self).receipts().len() + 1
                    &&& final(self).receipts().drop_last() == old(self).receipts()
                    &&& is_read(final(self).receipts().last(), old(buf)@, final(buf)@, r)
                },
            },
    {
        let frame = self.next_frame();
        proof {
            if old(self).pending() is None {
                assert(self.receipts().drop_last() =~= old(self).receipts());
            }
        }
        deliver_frame(frame, buf)
    }

    /// Sends the frame behind the header, if there is one.
    fn write_frame(&mut self, hdr_len: usize, buf: &mut [u8]) -> (r: Result<(), WriteError>)
        ensures
            final(buf)@ == old(buf)@,
            final(self).receipts() == old(self).receipts(),
            same_ends(*old(self), *final(self)),
            final(self).pending() == old(self).pending(),
            if old(buf)@.len() <= hdr_len {
                &&& r is Ok
                &&& final(self).sent() == old(self).sent()
                &&& final(self).offers() == old(self).offers()
            } else {
                let payload = payload_of(hdr_len, old(buf)@);
                let answer = final(self).offers().last().1;
                &&& final(self).offers() == old(self).offers().push((payload, answer))
                &&& r == outcome_of(answer)
                &&& final(self).sent() == if answer is None {
                    old(self).sent().push(payload)
                } else {
                    old(self).sent()
                }
                &&& answer == Some(true) ==> old(self).sent().len() >= old(self).sending_limit()
            },
    {
        match frame_to_send(hdr_len, buf) {
            None => Ok(()),
            Some(frame) => write_outcome(channel::offer_frame(&mut self.tx_sender, frame)),
        }
    }

    fn has_unfinished_write(&self) -> (unfinished: bool)
        ensures
            !unfinished,
    {
        false
    }

    fn try_finish_write(&mut self, _hdr_len: usize, _buf: &[u8]) -> (r: Result<(), WriteError>)
        ensures
            r is Ok,
            *final(self) == *old(self),
    {
        Ok(())
    }

    fn raw_socket_fd(&self) -> (handle: Pollable)
        ensures
            handle == self.event(),
    {
        self.rx_event
    }
}

/// A frame that was read into a buffer and is written from what was read is
/// sent unchanged.
pub proof fn frames_pass_unchanged(frame: Seq<u8>, buf: Seq<u8>)
    requires
        fits(frame, buf.len()),
    ensures
        payload_of(
            VNET_HDR_LEN,
            with_frame(frame, buf).take((VNET_HDR_LEN + frame.len()) as int),
        ) == frame,
{
    assert(payload_of(
        VNET_HDR_LEN,
        with_frame(frame, buf).take((VNET_HDR_LEN + frame.len()) as int),
    ) =~= frame);
}

/// A frame is delivered whole behind twelve zero bytes, and the count is that
/// of all these bytes; what stands behind stays. A frame that does not fit is
/// not delivered, and without a frame the buffer stays as it is.
pub proof fn frames_are_delivered_whole(
    frame: Option<Vec<u8>>,
    buf: &mut [u8],
    r: Result<usize, ReadError>,
)
    requires
        call_ensures(deliver_frame, (frame, buf), r),
        old(buf)@.len() >= 12,
    ensures
        final(buf)@.len() == old(buf)@.len(),
        r is Ok <==> (frame matches Some(f) && 12 + f@.len() <= old(buf)@.len()),
        r matches Ok(n) ==> {
            let f = frame->0@;
            &&& n == 12 + f.len()
            &&& forall|i: int| 0 <= i < 12 ==> final(buf)@[i] == 0
            &&& forall|i: int| 0 <= i < f.len() ==> final(buf)@[12 + i] == #[trigger] f[i]
            &&& forall|i: int| n <= i < old(buf)@.len() ==> final(buf)@[i] == old(buf)@[i]
        },
        r matches Err(e) ==> e == ReadError::NothingRead,
        frame is None ==> final(buf)@ == old(buf)@,
{
}

/// What is sent is everything behind the header, byte for byte, and there is
/// something to send exactly if the buffer is longer than the header.
pub proof fn frames_are_sent_without_their_header(
    hdr_len: usize,
    buf: &[u8],
    frame: Option<Vec<u8>>,
)
    requires
        call_ensures(frame_to_send, (hdr_len, buf), frame),
    ensures
        frame is Some <==> buf@.len() > hdr_len,
        frame matches Some(f) ==> f@.len() + hdr_len == buf@.len() && forall|i: int|
            0 <= i < f@.len() ==> #[trigger] f@[i] == buf@[hdr_len + i],
{
}

/// A full channel asks to try again, a closed one tells that nobody is there.
pub proof fn refusals_are_told_apart(offered: Result<(), Refused>, r: Result<(), WriteError>)
    requires
        call_ensures(write_outcome, (offered,), r),
    ensures
        r is Ok <==> offered is Ok,
        r == Err::<(), WriteError>(WriteError::NothingWritten) <==> (offered matches Err(e) && e
            is Full),
        r == Err::<(), WriteError>(WriteError::ProcessNotRunning) <==> (offered matches Err(e) && e
            is Disconnected),
{
}

/// Writing a frame offers the bytes behind the header once, and nothing if
/// there are none; the result tells the answer.
pub proof fn written_frames_are_offered_once(
    backend: &mut SlirpBackend,
    hdr_len: usize,
    buf: &mut [u8],
    r: Result<(), WriteError>,
)
    requires
        call_ensures(<SlirpBackend as NetBackend>::write_frame, (backend, hdr_len, buf), r),
    ensures
        final(buf)@ == old(buf)@,
        old(buf)@.len() <= hdr_len ==> r is Ok && final(backend).offers() == old(backend).offers()
            && final(backend).sent() == old(backend).sent(),
        old(buf)@.len() > hdr_len ==> {
            let (frame, answer) = final(backend).offers().last();
            &&& final(backend).offers().drop_last() == old(backend).offers()
            &&& frame.len() + hdr_len == old(buf)@.len()
            &&& forall|i: int|
                0 <= i < frame.len() ==> #[trigger] frame[i] == old(buf)@[hdr_len + i]
            &&& r is Ok <==> answer is None
            &&& answer == Some(true) <==> r == Err::<(), WriteError>(WriteError::NothingWritten)
            &&& answer == Some(false) <==> r == Err::<(), WriteError>(WriteError::ProcessNotRunning)
            &&& r is Ok <==> final(backend).sent().len() == old(backend).sent().len() + 1
            &&& r is Ok ==> final(backend).sent().last() == frame
        },
{
    if old(buf)@.len() > hdr_len {
        assert(final(backend).offers().drop_last() =~= old(backend).offers());
    }
}

/// A new backend has room for 256 frames in either direction and is joined to
/// its loop; it fails exactly if the host has no event for it.
pub proof fn new_backend_is_joined_to_its_loop<T: Copy>(
    rx_event: Pollable,
    last_error: Option<i32>,
    r: Result<(SlirpBackend, SlirpLoop<T>), ConnectError>,
)
    requires
        call_ensures(SlirpBackend::new::<T>, (rx_event, last_error), r),
    ensures
        r is Ok <==> rx_event != 0,
        r matches Ok((backend, net)) ==> backend.sending_limit() == 256 && net.sending_limit()
            == 256 && backend.tx_channel() == net.tx_channel() && backend.rx_channel() == net.rx_channel()
            && backend.event() == rx_event && net.event() == rx_event,
        r matches Err(e) ==> (e matches ConnectError::CreateSocket(code) && (last_error is Some
            ==> code == last_error->0) && (last_error is None ==> code == -1)),
{
}

/// A read looks for a frame once, unless one is pending, and delivers what it
/// found, whole behind twelve zero bytes. Nothing is sent by it.
pub proof fn received_frames_are_delivered(
    backend: &mut SlirpBackend,
    buf: &mut [u8],
    r: Result<usize, ReadError>,
)
    requires
        call_ensures(<SlirpBackend as NetBackend>::read_frame, (backend, buf), r),
        old(buf)@.len() >= 12,
    ensures
        final(backend).sent() == old(backend).sent(),
        final(backend).offers() == old(backend).offers(),
        final(backend).pending() is None,
        final(backend).receipts().len() == old(backend).receipts().len() + if old(
            backend).pending() is Some {
            0int
        } else {
            1
        },
        ({
            let frame = match old(backend).pending() {
                Some(f) => Some(f@),
                None => final(backend).receipts().last(),
            };
            &&& r is Ok <==> (frame matches Some(f) && 12 + f.len() <= old(buf)@.len())
            &&& r matches Ok(n) ==> {
                &&& n == 12 + frame->0.len()
                &&& forall|i: int| 0 <= i < 12 ==> final(buf)@[i] == 0
                &&& forall|i: int|
                    0 <= i < frame->0.len() ==> final(buf)@[12 + i] == #[trigger] frame->0[i]
                &&& forall|i: int| n <= i < old(buf)@.len() ==> final(buf)@[i] == old(buf)@[i]
            }
            &&& r matches Err(e) ==> e == ReadError::NothingRead
            &&& frame is None ==> final(buf)@ == old(buf)@
        }),
{
}

/// Frames are written whole at once, so there is never one to finish, and the
/// handle to wait for is the event that was given.
pub proof fn writes_are_never_left_unfinished(
    backend: SlirpBackend,
    unfinished: bool,
    handle: Pollable,
)
    requires
        call_ensures(<SlirpBackend as NetBackend>::has_unfinished_write, (&backend,), unfinished),
        call_ensures(<SlirpBackend as NetBackend>::raw_socket_fd, (&backend,), handle),
    ensures
        !unfinished,
        handle == backend.event(),
{
}

} // verus!
