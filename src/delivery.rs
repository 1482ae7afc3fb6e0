//! The producer side of the delivery channel: compressed frames go from the
//! encoder's write callback into an unbounded queue that the HTTP response
//! body reads from.
use vstd::prelude::*;
use futures::sync::mpsc::UnboundedSender;
use crate::flac::FrameSink;

verus! {

#[verifier::external_type_specification]
#[verifier::external_body]
#[verifier::reject_recursive_types(T)]
pub struct ExUnboundedSender<T>(UnboundedSender<T>);

/// Relies on futures' `UnboundedSender::unbounded_send`: it never blocks, and
/// reports whether the chunk was queued; it fails once the receiver is gone.
#[verifier::external_body]
fn send(buff: Vec<u8>, tx: &UnboundedSender<Vec<u8>>) -> (successful: bool) {
    tx.unbounded_send(buff).is_ok()
}

/// The write callback of a capture session: forwards each frame to the
/// channel while the consumer is there, and goes inactive for good on the
/// first failed send.
pub struct ChannelSink {
    tx: UnboundedSender<Vec<u8>>,
    active: bool,
}

impl ChannelSink {
    /// Whether frames are still forwarded.
    pub closed spec fn spec_active(&self) -> bool {
        self.active
    }

    /// A sink that forwards to `tx`.
    pub fn new(tx: UnboundedSender<Vec<u8>>) -> (r: Self)
        ensures
            r.spec_active(),
    {
        ChannelSink { tx, active: true }
    }

    /// Whether frames are still forwarded.
    pub fn is_active(&self) -> (r: bool)
        ensures
            r == self.spec_active(),
    {
        self.active
    }

    /// Queues a copy of `bytes` as one chunk while active; returns whether it
    /// was queued. An inactive sink sends nothing; a failed send makes the
    /// sink inactive.
    pub fn forward(&mut self, bytes: &[u8]) -> (sent: bool)
        ensures
            !old(self).spec_active() ==> !sent && *final(self) == *old(self),
            old(self).spec_active() ==> final(self).spec_active() == sent,
    {
        if !self.active {
            return false;
        }
        let sent = send(vstd::slice::slice_to_vec(bytes), &self.tx);
        if !sent {
            self.active = false;
        }
        sent
    }
}

impl FrameSink for ChannelSink {
    fn write(&mut self, bytes: &[u8], samples: usize, current_frame: usize) -> (taken: bool) {
        self.forward(bytes)
    }
}

} // verus!
