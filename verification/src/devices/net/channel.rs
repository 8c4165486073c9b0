//! Bounded channels for frames between two threads.
use crossbeam_channel::{Receiver, Sender, TryRecvError, TrySendError};
use vstd::prelude::*;

verus! {

/// The sending end of a channel of `crossbeam_channel`.
#[verifier::external_type_specification]
#[verifier::external_body]
#[verifier::reject_recursive_types(T)]
pub struct ExSender<T>(crossbeam_channel::Sender<T>);

/// The receiving end of a channel of `crossbeam_channel`.
#[verifier::external_type_specification]
#[verifier::external_body]
#[verifier::reject_recursive_types(T)]
pub struct ExReceiver<T>(crossbeam_channel::Receiver<T>);

/// The frames that were sent through an end of a channel, oldest first.
pub uninterp spec fn frames_sent(sender: Sender<Vec<u8>>) -> Seq<Seq<u8>>;

/// The frames that were offered through an end of a channel, oldest first,
/// each with the answer: nothing where the frame was taken, else whether the
/// channel was full, and not the other end gone.
pub uninterp spec fn offers(sender: Sender<Vec<u8>>) -> Seq<(Seq<u8>, Option<bool>)>;

/// How many frames the channel of a sending end holds at most.
pub uninterp spec fn sending_limit(sender: Sender<Vec<u8>>) -> nat;

/// The channel that a sending end belongs to.
pub uninterp spec fn sending_channel(sender: Sender<Vec<u8>>) -> int;

/// What each attempt to receive through an end of a channel gave, oldest
/// first: a frame, or nothing.
pub uninterp spec fn receipts(receiver: Receiver<Vec<u8>>) -> Seq<Option<Seq<u8>>>;

/// The channel that a receiving end belongs to.
pub uninterp spec fn receiving_channel(receiver: Receiver<Vec<u8>>) -> int;

/// Why a channel did not take a frame, which is handed back.
#[derive(Debug)]
pub enum Refused {
    /// The channel is full.
    Full(Vec<u8>),
    /// The other end is gone.
    Disconnected(Vec<u8>),
}

/// The answer to an offer as `offers` has it.
pub open spec fn answer_of(r: Result<(), Refused>) -> Option<bool> {
    match r {
        Ok(_) => None,
        Err(Refused::Full(_)) => Some(true),
        Err(Refused::Disconnected(_)) => Some(false),
    }
}

/// Why a channel gave no frame.
#[derive(Clone, Copy, PartialEq, Eq, Structural, Debug)]
pub enum NoFrame {
    /// The channel is empty.
    Empty,
    /// The channel is empty and the other end is gone.
    Disconnected,
}

/// Makes a channel with `crossbeam_channel::bounded`: both ends belong to it,
/// nothing was offered, sent or asked for yet, and it holds at most `cap`
/// frames. The bound keeps away from capacities for which the call panics.
#[verifier::external_body]
pub(crate) fn frame_channel(cap: usize) -> (ends: (Sender<Vec<u8>>, Receiver<Vec<u8>>))
    requires
        0 < cap <= 0xFFFF,
    ensures
        frames_sent(ends.0) == Seq::<Seq<u8>>::empty(),
        offers(ends.0) == Seq::<(Seq<u8>, Option<bool>)>::empty(),
        sending_limit(ends.0) == cap,
        receipts(ends.1) == Seq::<Option<Seq<u8>>>::empty(),
        sending_channel(ends.0) == receiving_channel(ends.1),
{
    crossbeam_channel::bounded::<Vec<u8>>(cap)
}

/// Offers a frame to a channel with `Sender::try_send`: it is sent, or it is
/// handed back because the channel is full or the other end is gone. Which of
/// these it is depends on the other end, and is the last of `offers`. The
/// sender is the channel's only one, so the channel is full only once as many
/// frames as it holds were sent through it.
#[verifier::external_body]
pub(crate) fn offer_frame(sender: &mut Sender<Vec<u8>>, frame: Vec<u8>) -> (r: Result<(), Refused>)
    ensures
        sending_limit(*final(sender)) == sending_limit(*old(sender)),
        sending_channel(*final(sender)) == sending_channel(*old(sender)),
        offers(*final(sender)) == offers(*old(sender)).push((frame@, answer_of(r))),
        match r {
            Ok(_) => frames_sent(*final(sender)) == frames_sent(*old(sender)).push(frame@),
            Err(Refused::Full(f)) => f == frame && frames_sent(*final(sender)) == frames_sent(
                *old(sender),
            ) && frames_sent(*final(sender)).len() >= sending_limit(*final(sender)),
            Err(Refused::Disconnected(f)) => f == frame && frames_sent(*final(sender))
                == frames_sent(*old(sender)),
        },
{
    sender.try_send(frame).map_err(
        |e| match e {
            TrySendError::Full(f) => Refused::Full(f),
            TrySendError::Disconnected(f) => Refused::Disconnected(f),
        },
    )
}

/// Takes a frame from a channel with `Receiver::try_recv`, if there is one.
/// Which frame it is depends on the other end.
#[verifier::external_body]
pub(crate) fn take_frame(receiver: &mut Receiver<Vec<u8>>) -> (r: Result<Vec<u8>, NoFrame>)
    ensures
        receiving_channel(*final(receiver)) == receiving_channel(*old(receiver)),
        receipts(*final(receiver)) == receipts(*old(receiver)).push(
            match r {
                Ok(frame) => Some(frame@),
                Err(_) => None,
            },
        ),
{
    receiver.try_recv().map_err(
        |e| match e {
            TryRecvError::Empty => NoFrame::Empty,
            TryRecvError::Disconnected => NoFrame::Disconnected,
        },
    )
}

} // verus!
