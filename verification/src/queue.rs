//! The bounded frame queue: a `crossbeam` bounded channel whose two
//! endpoints are held together in one owned value.
//!
//! `FrameQueue` keeps both the `Sender` and the `Receiver` of one
//! `crossbeam_channel::bounded` channel in private fields, and neither
//! endpoint is ever cloned or handed out.  With no other handle in
//! existence, the channel behaves as a private FIFO buffer: a send appends
//! one message, a receive removes the oldest, and disconnection cannot
//! happen underneath us.  The contracts below state exactly that, over the
//! two names `queue_contents` and `queue_capacity`; Verus takes them on
//! trust and everything else in the crate is proved from them.

use vstd::prelude::*;

use crate::config::FrameData;

verus! {

/// A bounded FIFO of frames, backed by a `crossbeam` channel whose two
/// endpoints this struct owns exclusively.
#[verifier::external_body]
pub struct FrameQueue {
    sender: crossbeam::channel::Sender<FrameData>,
    receiver: crossbeam::channel::Receiver<FrameData>,
}

/// The frames currently buffered, oldest first.
pub uninterp spec fn queue_contents(q: FrameQueue) -> Seq<FrameData>;

/// The capacity the queue was created with.
pub uninterp spec fn queue_capacity(q: FrameQueue) -> nat;

impl FrameQueue {
    /// Relies on `crossbeam_channel::bounded`: a fresh channel of the given
    /// capacity holds no messages.
    #[verifier::external_body]
    pub(crate) fn with_capacity(cap: usize) -> (q: FrameQueue)
        requires
            cap >= 1,
        ensures
            queue_contents(q) =~= Seq::<FrameData>::empty(),
            queue_capacity(q) == cap,
    {
        let (sender, receiver) = crossbeam::channel::bounded(cap);
        FrameQueue { sender, receiver }
    }

    /// Relies on `crossbeam_channel::Receiver::len`: the number of messages
    /// currently in the channel.
    #[verifier::external_body]
    pub(crate) fn len(&self) -> (n: usize)
        ensures
            n == queue_contents(*self).len(),
    {
        self.receiver.len()
    }

    /// Relies on `crossbeam_channel::Sender::try_send` on the array-backed
    /// bounded flavor: on a channel that is not full it appends the message
    /// behind all earlier ones.  The channel cannot be disconnected because
    /// `self` owns its only receiver.
    #[verifier::external_body]
    pub(crate) fn push(&mut self, frame: FrameData)
        requires
            queue_contents(*old(self)).len() < queue_capacity(*old(self)),
        ensures
            queue_contents(*final(self)) =~= queue_contents(*old(self)).push(frame),
            queue_capacity(*final(self)) == queue_capacity(*old(self)),
    {
        let _ = self.sender.try_send(frame);
    }

    /// Relies on `crossbeam_channel::Receiver::try_recv` on the array-backed
    /// bounded flavor: it removes and returns the oldest message, or reports
    /// the channel empty.  The channel cannot be disconnected because `self`
    /// owns its only sender.
    #[verifier::external_body]
    pub(crate) fn pop(&mut self) -> (r: Option<FrameData>)
        ensures
            queue_capacity(*final(self)) == queue_capacity(*old(self)),
            queue_contents(*old(self)).len() == 0 ==> (r is None
                && queue_contents(*final(self)) =~= queue_contents(*old(self))),
            queue_contents(*old(self)).len() > 0 ==> (r == Some(
                queue_contents(*old(self)).first(),
            ) && queue_contents(*final(self)) =~= queue_contents(*old(self)).drop_first()),
    {
        match self.receiver.try_recv() {
            Ok(frame) => Some(frame),
            Err(_) => None,
        }
    }
}

} // verus!
