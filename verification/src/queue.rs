//! The two channels of the dispatcher, modelled as first-in-first-out
//! queues with explicit full/closed results instead of unchecked blocking.
//!
//! The request queue is bounded: it carries `UserRequest` values from the
//! client handles to the single network writer, and preserves the order in
//! which one handle submitted them.  The reply queue carries `Reply` values
//! from the single network reader back toward the dispatcher; a push onto a
//! closed queue hands the value back, which is how the rest of the pipeline
//! having shut down is observed.

use vstd::prelude::*;
use crate::request::Reply;
use crate::request::UserRequest;

verus! {

/// Why a request could not be placed on the bounded queue; either way the
/// undelivered request is handed back.
#[derive(Debug)]
pub enum RequestPushError {
    /// The queue is at capacity.
    Full(UserRequest),
    /// The queue has no live consumer.
    Closed(UserRequest),
}

/// The bounded multi-producer single-consumer queue carrying validated
/// requests toward the network writer.
#[derive(Debug)]
pub struct RequestQueue {
    pub items: Vec<UserRequest>,
    pub capacity: usize,
    pub closed: bool,
}

impl RequestQueue {
    /// The requests currently queued, oldest first.
    pub open spec fn pending(self) -> Seq<UserRequest> {
        self.items@
    }

    /// The bound the queue was created with.
    pub open spec fn cap(self) -> nat {
        self.capacity as nat
    }

    /// Whether the queue has been closed.
    pub open spec fn is_closed(self) -> bool {
        self.closed
    }

    /// The queue never holds more than its bound.
    pub open spec fn wf(self) -> bool {
        self.cap() >= 1 && self.pending().len() <= self.cap()
    }

    /// Creates an open, empty queue with the given bound.
    pub fn new(capacity: usize) -> (q: RequestQueue)
        requires
            capacity >= 1,
        ensures
            q.wf(),
            q.pending() =~= Seq::<UserRequest>::empty(),
            q.cap() == capacity,
            !q.is_closed(),
    {
        RequestQueue { items: Vec::new(), capacity, closed: false }
    }

    /// Offers a request to the queue.  A closed queue refuses it with
    /// `Closed`, a queue at capacity with `Full`, and in both cases the
    /// queue is unchanged and the request handed back; otherwise the
    /// request is appended behind every earlier submission.
    pub fn push(&mut self, request: UserRequest) -> (r: Result<(), RequestPushError>)
        requires
            old(self).wf(),
        ensures
            final(self).wf(),
            final(self).cap() == old(self).cap(),
            final(self).is_closed() == old(self).is_closed(),
            old(self).is_closed() ==> (r matches Err(e) && e == RequestPushError::Closed(request)
                && final(self).pending() == old(self).pending()),
            !old(self).is_closed() && old(self).pending().len() == old(self).cap() ==> (r matches Err(e)
                && e == RequestPushError::Full(request)
                && final(self).pending() == old(self).pending()),
            !old(self).is_closed() && old(self).pending().len() < old(self).cap() ==> (r matches Ok(_)
                && final(self).pending() == old(self).pending().push(request)),
    {
        if self.closed {
            Err(RequestPushError::Closed(request))
        } else if self.items.len() == self.capacity {
            Err(RequestPushError::Full(request))
        } else {
            self.items.push(request);
            Ok(())
        }
    }

    /// Takes the oldest queued request, if any.
    pub fn pop(&mut self) -> (r: Option<UserRequest>)
        requires
            old(self).wf(),
        ensures
            final(self).wf(),
            final(self).cap() == old(self).cap(),
            final(self).is_closed() == old(self).is_closed(),
            old(self).pending().len() == 0 ==> (r is None && final(self).pending() == old(
                self,
            ).pending()),
            old(self).pending().len() > 0 ==> (r matches Some(first) && first == old(
                self,
            ).pending()[0] && final(self).pending() == old(self).pending().drop_first()),
    {
        if self.items.len() == 0 {
            None
        } else {
            let first = self.items.remove(0);
            assert(self.pending() =~= old(self).pending().drop_first());
            Some(first)
        }
    }

    /// Closes the queue: later pushes are refused, queued requests remain
    /// poppable.
    pub fn close(&mut self)
        requires
            old(self).wf(),
        ensures
            final(self).wf(),
            final(self).cap() == old(self).cap(),
            final(self).is_closed(),
            final(self).pending() == old(self).pending(),
    {
        self.closed = true;
    }

    /// How many requests are queued.
    pub fn len(&self) -> (r: usize)
        ensures
            r == self.pending().len(),
    {
        self.items.len()
    }

    /// Whether a push would currently be accepted.
    pub fn has_room(&self) -> (r: bool)
        ensures
            r == (!self.is_closed() && self.pending().len() < self.cap()),
    {
        !self.closed && self.items.len() < self.capacity
    }
}

/// The queue carrying decoded replies from the network reader back toward
/// the dispatcher and the awaiting client handles.
#[derive(Debug)]
pub struct ReplyQueue {
    pub items: Vec<Reply>,
    pub closed: bool,
}

impl ReplyQueue {
    /// The replies currently queued, oldest first.
    pub open spec fn pending(self) -> Seq<Reply> {
        self.items@
    }

    /// Whether the queue has been closed.
    pub open spec fn is_closed(self) -> bool {
        self.closed
    }

    /// Creates an open, empty reply queue.
    pub fn new() -> (q: ReplyQueue)
        ensures
            q.pending() =~= Seq::<Reply>::empty(),
            !q.is_closed(),
    {
        ReplyQueue { items: Vec::new(), closed: false }
    }

    /// Offers a reply to the queue.  A closed queue hands the reply back;
    /// otherwise it is appended behind every earlier reply.
    pub fn push(&mut self, reply: Reply) -> (r: Result<(), Reply>)
        ensures
            final(self).is_closed() == old(self).is_closed(),
            old(self).is_closed() ==> (r matches Err(e) && e == reply && final(self).pending()
                == old(self).pending()),
            !old(self).is_closed() ==> (r matches Ok(_) && final(self).pending() == old(
                self,
            ).pending().push(reply)),
    {
        if self.closed {
            Err(reply)
        } else {
            self.items.push(reply);
            Ok(())
        }
    }

    /// Takes the oldest queued reply, if any.
    pub fn pop(&mut self) -> (r: Option<Reply>)
        ensures
            final(self).is_closed() == old(self).is_closed(),
            old(self).pending().len() == 0 ==> (r is None && final(self).pending() == old(
                self,
            ).pending()),
            old(self).pending().len() > 0 ==> (r matches Some(first) && first == old(
                self,
            ).pending()[0] && final(self).pending() == old(self).pending().drop_first()),
    {
        if self.items.len() == 0 {
            None
        } else {
            let first = self.items.remove(0);
            assert(self.pending() =~= old(self).pending().drop_first());
            Some(first)
        }
    }

    /// Closes the queue: later pushes hand their reply back.
    pub fn close(&mut self)
        ensures
            final(self).is_closed(),
            final(self).pending() == old(self).pending(),
    {
        self.closed = true;
    }

    /// How many replies are queued.
    pub fn len(&self) -> (r: usize)
        ensures
            r == self.pending().len(),
    {
        self.items.len()
    }

    /// Whether the queue still has a live receiver.
    pub fn is_open(&self) -> (r: bool)
        ensures
            r == !self.is_closed(),
    {
        !self.closed
    }
}

} // verus!
