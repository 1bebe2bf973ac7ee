//! Bounded single-producer/single-consumer message queues: the unit of
//! dataflow wiring between two engines.  Sends and receives never block;
//! a full queue is backpressure and a closed queue is a terminal signal.

use vstd::prelude::*;

verus! {

/// Why a `try_send` did not enqueue.  The message is handed back.
#[derive(Debug)]
pub enum SendError<T> {
    /// The queue is at capacity.
    Full(T),
    /// The consumer side is gone.
    Disconnected(T),
}

/// Why a `try_receive` returned no message.
#[derive(Clone, Copy, PartialEq, Eq, Structural, Debug)]
pub enum TryRecvError {
    /// No message is queued right now.
    Empty,
    /// No message is queued and the producer side is gone.
    Disconnected,
}

/// A bounded FIFO queue with a disconnect flag.  Its view is the sequence of
/// queued messages, oldest first.
pub struct Queue<T> {
    items: Vec<T>,
    cap: usize,
    closed: bool,
}

impl<T> Queue<T> {
    /// The queued messages, oldest first.
    pub closed spec fn view(&self) -> Seq<T> {
        self.items@
    }

    /// The fixed capacity the queue was created with.
    pub closed spec fn spec_capacity(&self) -> usize {
        self.cap
    }

    /// Whether one endpoint has been dropped.
    pub closed spec fn is_closed(&self) -> bool {
        self.closed
    }

    /// A queue never holds more than its capacity.
    pub open spec fn wf(&self) -> bool {
        self@.len() <= self.spec_capacity()
    }

    pub fn with_capacity(cap: usize) -> (q: Queue<T>)
        ensures
            q@ == Seq::<T>::empty(),
            q.spec_capacity() == cap,
            !q.is_closed(),
            q.wf(),
    {
        Queue { items: Vec::new(), cap, closed: false }
    }

    pub fn len(&self) -> (n: usize)
        ensures
            n == self@.len(),
    {
        self.items.len()
    }

    pub fn is_empty(&self) -> (b: bool)
        ensures
            b == (self@.len() == 0),
    {
        self.items.len() == 0
    }

    pub fn capacity(&self) -> (n: usize)
        ensures
            n == self.spec_capacity(),
    {
        self.cap
    }

    pub fn closed(&self) -> (b: bool)
        ensures
            b == self.is_closed(),
    {
        self.closed
    }

    /// Marks the queue disconnected; messages already queued stay readable.
    pub fn close(&mut self)
        ensures
            final(self)@ == old(self)@,
            final(self).spec_capacity() == old(self).spec_capacity(),
            final(self).is_closed(),
    {
        self.closed = true;
    }

    /// Non-blocking send.  Enqueues exactly when the queue is open and below
    /// capacity; otherwise the queue is unchanged and the message is handed
    /// back with the reason.
    pub fn try_send(&mut self, t: T) -> (r: Result<(), SendError<T>>)
        requires
            old(self).wf(),
        ensures
            final(self).spec_capacity() == old(self).spec_capacity(),
            final(self).is_closed() == old(self).is_closed(),
            final(self).wf(),
            match r {
                Ok(()) => {
                    &&& !old(self).is_closed()
                    &&& old(self)@.len() < old(self).spec_capacity()
                    &&& final(self)@ == old(self)@.push(t)
                },
                Err(SendError::Disconnected(m)) => {
                    &&& old(self).is_closed()
                    &&& m == t
                    &&& *final(self) == *old(self)
                },
                Err(SendError::Full(m)) => {
                    &&& !old(self).is_closed()
                    &&& old(self)@.len() == old(self).spec_capacity()
                    &&& m == t
                    &&& *final(self) == *old(self)
                },
            },
    {
        if self.closed {
            Err(SendError::Disconnected(t))
        } else if self.items.len() == self.cap {
            Err(SendError::Full(t))
        } else {
            self.items.push(t);
            Ok(())
        }
    }

    /// Non-blocking receive.  Returns the oldest message when one is queued;
    /// `Empty` when none is and the queue is open; `Disconnected` when none
    /// is and the producer is gone.
    pub fn try_receive(&mut self) -> (r: Result<T, TryRecvError>)
        ensures
            final(self).spec_capacity() == old(self).spec_capacity(),
            final(self).is_closed() == old(self).is_closed(),
            match r {
                Ok(t) => {
                    &&& old(self)@.len() > 0
                    &&& t == old(self)@[0]
                    &&& final(self)@ == old(self)@.drop_first()
                },
                Err(TryRecvError::Empty) => {
                    &&& old(self)@.len() == 0
                    &&& !old(self).is_closed()
                    &&& *final(self) == *old(self)
                },
                Err(TryRecvError::Disconnected) => {
                    &&& old(self)@.len() == 0
                    &&& old(self).is_closed()
                    &&& *final(self) == *old(self)
                },
            },
    {
        if self.items.len() == 0 {
            if self.closed {
                Err(TryRecvError::Disconnected)
            } else {
                Err(TryRecvError::Empty)
            }
        } else {
            Ok(self.items.remove(0))
        }
    }
}

} // verus!
