//! The decisions of the reconnecting clients: a buffering sink that forwards
//! messages once it holds a sender to the remote server, and the loop that
//! opens the connection again each time it ends.

use vstd::prelude::*;

verus! {

/// How long a client waits after a refused connection before it connects
/// again, in milliseconds.
pub const RECONNECT_PAUSE_MS: u64 = 100;

/// How a connection to the remote server came to an end.
pub enum ConnectionEnd {
    /// The server closed it after serving it.
    Closed,
    /// It could not be opened, or it broke.
    Refused,
}

/// How long to wait before connecting again after a connection ended: a
/// refused connection is retried after a pause, a closed one at once. The
/// client always connects again.
pub fn pause_before_reconnect(end: &ConnectionEnd) -> (pause_ms: u64)
    ensures
        pause_ms == (if *end is Refused {
            RECONNECT_PAUSE_MS
        } else {
            0
        }),
{
    match end {
        ConnectionEnd::Closed => 0,
        ConnectionEnd::Refused => RECONNECT_PAUSE_MS,
    }
}

/// What the buffering sink does with an offered message.
pub enum SendPlan {
    /// It has no sender yet: start connecting, and hand the message back.
    ConnectAndHandBack,
    /// Hand the message to the sender, and take it.
    ForwardAndAccept,
}

/// What the buffering sink does when asked to complete its sends.
pub enum FlushPlan {
    /// It has no sender yet: not ready.
    NotReady,
    /// Flush the sender, and report ready.
    FlushAndReady,
}

/// A sink of messages that forwards them through a sender to the remote
/// server, once it has received one.
pub struct Buffer<S> {
    tx: Option<S>,
}

impl<S> View for Buffer<S> {
    type V = Option<S>;

    closed spec fn view(&self) -> Option<S> {
        self.tx
    }
}

impl<S> Buffer<S> {
    /// A buffer without a sender.
    pub fn new() -> (buffer: Self)
        ensures
            buffer@ is None,
    {
        Buffer { tx: None }
    }

    /// Gives the buffer the sender of an open connection.
    pub fn set_tx(&mut self, tx: S)
        ensures
            final(self)@ == Some(tx),
    {
        self.tx = Some(tx);
    }

    /// Whether the buffer has a sender.
    pub fn has_tx(&self) -> (b: bool)
        ensures
            b <==> self@ is Some,
    {
        self.tx.is_some()
    }

    /// Decides what to do with an offered message.
    pub fn start_send(&self) -> (plan: SendPlan)
        ensures
            plan == (if self@ is Some {
                SendPlan::ForwardAndAccept
            } else {
                SendPlan::ConnectAndHandBack
            }),
    {
        match &self.tx {
            None => SendPlan::ConnectAndHandBack,
            Some(_) => SendPlan::ForwardAndAccept,
        }
    }

    /// Decides what to do when asked to complete the sends.
    pub fn poll_complete(&self) -> (plan: FlushPlan)
        ensures
            plan == (if self@ is Some {
                FlushPlan::FlushAndReady
            } else {
                FlushPlan::NotReady
            }),
    {
        match &self.tx {
            None => FlushPlan::NotReady,
            Some(_) => FlushPlan::FlushAndReady,
        }
    }

    /// The sender, to forward a message through or to flush.
    pub fn sender_mut(&mut self) -> (tx: Option<&mut S>)
        ensures
            tx is Some <==> old(self)@ is Some,
            tx matches Some(t) ==> Some(*t) == old(self)@ && final(self)@ == Some(*final(t)),
            tx is None ==> final(self)@ == old(self)@,
    {
        self.tx.as_mut()
    }
}

} // verus!
