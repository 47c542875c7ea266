//! The pull side of the request multiplexer: batches of decoded backend
//! messages arrive for one request, and are handed out one message at a
//! time, in exactly the order the connection observed them.
//!
//! Awaiting the next batch is the transport's business; this buffer holds
//! the batch already received and pins down the order of what it hands out.

use vstd::prelude::*;

use crate::message::BackendMessage;

verus! {

/// The already-received, not yet consumed messages of one request.
#[derive(Debug)]
pub struct ResponseBuffer {
    /// The buffered messages, oldest first.
    pub msgs: Vec<BackendMessage>,
}

impl ResponseBuffer {
    /// Creates an empty buffer; a fresh request has received nothing.
    pub fn new() -> (r: ResponseBuffer)
        ensures
            r.msgs@.len() == 0,
    {
        ResponseBuffer { msgs: Vec::new() }
    }

    /// Whether every buffered message has been handed out.
    pub fn is_exhausted(&self) -> (r: bool)
        ensures
            r == (self.msgs@.len() == 0),
    {
        self.msgs.len() == 0
    }

    /// Stores the next batch. Only an exhausted buffer takes a new batch:
    /// the puller drains the current one before awaiting the channel.
    pub fn refill(&mut self, batch: Vec<BackendMessage>)
        requires
            old(self).msgs@.len() == 0,
        ensures
            final(self).msgs@ == batch@,
    {
        self.msgs = batch;
    }

    /// Hands out the oldest buffered message, or nothing when the buffer is
    /// exhausted and the transport must await the next batch.
    pub fn take_next(&mut self) -> (r: Option<BackendMessage>)
        ensures
            old(self).msgs@.len() == 0 ==> r is None && final(self).msgs@ == old(self).msgs@,
            old(self).msgs@.len() > 0 ==> (r matches Option::Some(m) && m == old(self).msgs@[0]
                && final(self).msgs@ == old(self).msgs@.drop_first()),
    {
        if self.msgs.len() == 0 {
            return None;
        }
        Some(self.msgs.remove(0))
    }
}

} // verus!
