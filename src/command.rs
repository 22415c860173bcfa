//! The command channel: one bounded FIFO from many producers to the link's
//! write flow. A full queue pushes back on the producer; nothing is dropped,
//! reordered or coalesced, and nothing is accepted after a `Reset`.
use vstd::prelude::*;
use std::collections::VecDeque;
use crate::message::SerialCMD;

verus! {

/// Commands the channel holds before producers must wait.
pub const COMMAND_CAPACITY: usize = 32;

/// Why a command was not accepted; the command is handed back.
#[derive(Debug, PartialEq, Eq)]
pub enum SendError {
    /// The queue is full: wait for the writer to drain it and try again.
    Full(SerialCMD),
    /// A `Reset` was accepted earlier; the channel takes nothing more.
    Closed(SerialCMD),
}

pub struct CommandQueue {
    items: VecDeque<SerialCMD>,
    capacity: usize,
    closed: bool,
    accepted: Ghost<Seq<SerialCMD>>,
    delivered: Ghost<Seq<SerialCMD>>,
}

impl CommandQueue {
    /// Commands waiting for the writer, oldest first.
    pub closed spec fn items(&self) -> Seq<SerialCMD> {
        self.items@
    }

    pub closed spec fn capacity(&self) -> nat {
        self.capacity as nat
    }

    pub closed spec fn is_closed(&self) -> bool {
        self.closed
    }

    /// Every command the queue has accepted, in order of acceptance.
    pub closed spec fn accepted(&self) -> Seq<SerialCMD> {
        self.accepted@
    }

    /// Every command handed to the writer, in order of delivery.
    pub closed spec fn delivered(&self) -> Seq<SerialCMD> {
        self.delivered@
    }

    /// The writer receives exactly the accepted commands, in the order they
    /// were accepted: what it has received, followed by what still waits, is
    /// everything accepted so far.
    pub open spec fn wf(&self) -> bool {
        &&& 0 < self.capacity()
        &&& self.items().len() <= self.capacity()
        &&& self.accepted() == self.delivered() + self.items()
    }

    pub fn new(capacity: usize) -> (r: Self)
        requires
            capacity > 0,
        ensures
            r.wf(),
            r.capacity() == capacity,
            !r.is_closed(),
            r.items() == Seq::<SerialCMD>::empty(),
            r.accepted() == Seq::<SerialCMD>::empty(),
            r.delivered() == Seq::<SerialCMD>::empty(),
    {
        let r = CommandQueue {
            items: VecDeque::new(),
            capacity,
            closed: false,
            accepted: Ghost(Seq::empty()),
            delivered: Ghost(Seq::empty()),
        };
        proof {
            assert(r.delivered@ + r.items@ =~= r.accepted@);
        }
        r
    }

    /// Number of commands waiting.
    pub fn len(&self) -> (r: usize)
        ensures
            r == self.items().len(),
    {
        self.items.len()
    }

    pub fn closed(&self) -> (r: bool)
        ensures
            r == self.is_closed(),
    {
        self.closed
    }

    /// Offers a command. It is accepted at the back unless the channel is
    /// closed or full; a `Reset` closes the channel behind it.
    pub fn try_send(&mut self, cmd: SerialCMD) -> (r: Result<(), SendError>)
        requires
            old(self).wf(),
        ensures
            final(self).wf(),
            final(self).capacity() == old(self).capacity(),
            final(self).delivered() == old(self).delivered(),
            old(self).is_closed() ==> r == Err::<(), SendError>(SendError::Closed(cmd)),
            !old(self).is_closed() && old(self).items().len() >= old(self).capacity()
                ==> r == Err::<(), SendError>(SendError::Full(cmd)),
            r is Err ==> final(self).items() == old(self).items()
                && final(self).accepted() == old(self).accepted()
                && final(self).is_closed() == old(self).is_closed(),
            !old(self).is_closed() && old(self).items().len() < old(self).capacity() ==> {
                &&& r is Ok
                &&& final(self).items() == old(self).items().push(cmd)
                &&& final(self).accepted() == old(self).accepted().push(cmd)
                &&& final(self).is_closed() == (cmd is Reset)
            },
    {
        if self.closed {
            return Err(SendError::Closed(cmd));
        }
        if self.items.len() >= self.capacity {
            return Err(SendError::Full(cmd));
        }
        let is_reset = matches!(cmd, SerialCMD::Reset(_));
        self.accepted = Ghost(self.accepted@.push(cmd));
        self.items.push_back(cmd);
        self.closed = is_reset;
        proof {
            assert(self.delivered@ + self.items@ =~= self.accepted@);
        }
        Ok(())
    }

    /// Hands the oldest waiting command to the writer.
    pub fn recv(&mut self) -> (r: Option<SerialCMD>)
        requires
            old(self).wf(),
        ensures
            final(self).wf(),
            final(self).capacity() == old(self).capacity(),
            final(self).is_closed() == old(self).is_closed(),
            final(self).accepted() == old(self).accepted(),
            old(self).items().len() == 0 ==> r is None && final(self).items() == old(self).items()
                && final(self).delivered() == old(self).delivered(),
            old(self).items().len() > 0 ==> {
                &&& r == Some(old(self).items()[0])
                &&& final(self).items() == old(self).items().drop_first()
                &&& final(self).delivered() == old(self).delivered().push(old(self).items()[0])
            },
    {
        let r = self.items.pop_front();
        match r {
            Some(c) => {
                self.delivered = Ghost(self.delivered@.push(c));
                proof {
                    assert(self.delivered@ + self.items@ =~= self.accepted@);
                }
                Some(c)
            },
            None => None,
        }
    }
}

/// Order is kept through backpressure: in every well-formed state, the
/// commands the writer has received are the first ones accepted, in the
/// order of acceptance, and the ones still waiting are the rest.
pub proof fn lemma_delivery_in_order(q: &CommandQueue)
    requires
        q.wf(),
    ensures
        q.delivered() == q.accepted().subrange(0, q.delivered().len() as int),
        q.items() == q.accepted().subrange(q.delivered().len() as int, q.accepted().len() as int),
{
    assert(q.accepted().subrange(0, q.delivered().len() as int) =~= q.delivered());
    assert(q.accepted().subrange(q.delivered().len() as int, q.accepted().len() as int) =~= q.items());
}

/// What the write flow does with one command taken from the channel: the
/// commands to frame and write, in order, and whether the flow ends after them.
pub open spec fn spec_write_plan(cmd: SerialCMD) -> (Seq<SerialCMD>, bool) {
    match cmd {
        SerialCMD::Reset(inner) => (inner@, true),
        other => (seq![other], false),
    }
}

/// A `Reset` is unpacked into its inner commands and ends the flow; any
/// other command is written as it is.
pub fn write_plan(cmd: SerialCMD) -> (r: (Vec<SerialCMD>, bool))
    ensures
        (r.0@, r.1) == spec_write_plan(cmd),
{
    match cmd {
        SerialCMD::Reset(inner) => (inner, true),
        other => {
            let mut v: Vec<SerialCMD> = Vec::new();
            v.push(other);
            proof {
                assert(v@ =~= seq![other]);
            }
            (v, false)
        },
    }
}

} // verus!
