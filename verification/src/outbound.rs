//! The outbound queue: one logical writer serializes all outbound
//! traffic.  Producers — callers sending application frames, and the
//! heartbeat submitting the liveness sentinel — enqueue; the single
//! writer drains the queue in submission order and maps each item to a
//! wire frame.  A write failure is the writer's caller's signal to
//! treat the connection as failed.

use vstd::prelude::*;
use vstd::string::StringExecFns;

verus! {

/// The sentinel submitted for a liveness probe, mapped by the writer
/// to a protocol-level ping frame instead of a text frame.
pub open spec fn ping_sentinel() -> Seq<char> {
    "PING"@
}

/// What the writer puts on the wire for one queued item.
pub enum WireFrame {
    /// An application-defined text frame.
    Text(String),
    /// A protocol-level ping control frame.
    Ping,
}

/// Submitting fails only while no connection is attached.
#[derive(Debug)]
pub enum SubmitError {
    NotConnected,
}

/// The queue feeding the single writer.  While detached (no live
/// connection), nothing can be submitted.
pub struct OutboundQueue {
    attached: bool,
    items: Vec<String>,
}

impl View for OutboundQueue {
    type V = Seq<String>;

    closed spec fn view(&self) -> Seq<String> {
        self.items@
    }
}

impl OutboundQueue {
    pub open spec fn is_attached(&self) -> bool {
        self.spec_attached()
    }

    pub closed spec fn spec_attached(&self) -> bool {
        self.attached
    }

    /// A fresh, detached queue.
    pub fn new() -> (q: Self)
        ensures
            !q.is_attached(),
            q@ == Seq::<String>::empty(),
    {
        OutboundQueue { attached: false, items: Vec::new() }
    }

    /// A connection came up: accept traffic, starting from an empty
    /// queue.
    pub fn attach(&mut self)
        ensures
            final(self).is_attached(),
            final(self)@ == Seq::<String>::empty(),
    {
        self.attached = true;
        self.items = Vec::new();
    }

    /// The connection is gone: refuse further traffic and drop what
    /// was queued.
    pub fn detach(&mut self)
        ensures
            !final(self).is_attached(),
            final(self)@ == Seq::<String>::empty(),
    {
        self.attached = false;
        self.items = Vec::new();
    }

    /// Submit one item.  Order is kept exactly as submitted: the item
    /// goes to the back of the queue.
    pub fn submit(&mut self, message: String) -> (r: Result<(), SubmitError>)
        ensures
            final(self).is_attached() == old(self).is_attached(),
            old(self).is_attached() ==> r is Ok && final(self)@ == old(self)@.push(message),
            !old(self).is_attached() ==> (r matches Err(SubmitError::NotConnected)
                && *final(self) == *old(self)),
    {
        if self.attached {
            self.items.push(message);
            Ok(())
        } else {
            Err(SubmitError::NotConnected)
        }
    }

    /// Submit the liveness sentinel.
    pub fn submit_ping(&mut self) -> (r: Result<(), SubmitError>)
        ensures
            final(self).is_attached() == old(self).is_attached(),
            old(self).is_attached() ==> r is Ok && final(self)@.len() == old(self)@.len() + 1
                && final(self)@ == old(self)@.push(final(self)@.last())
                && final(self)@.last()@ == ping_sentinel(),
            !old(self).is_attached() ==> (r matches Err(SubmitError::NotConnected)
                && *final(self) == *old(self)),
    {
        self.submit(String::from_str("PING"))
    }

    /// The writer takes the oldest queued item, if any: strict
    /// submission order.
    pub fn take_next(&mut self) -> (r: Option<String>)
        ensures
            final(self).is_attached() == old(self).is_attached(),
            old(self)@.len() == 0 ==> r is None && *final(self) == *old(self),
            old(self)@.len() > 0 ==> (r matches Some(m) ==> m == old(self)@[0] && final(self)@
                == old(self)@.skip(1)) && r is Some,
    {
        if self.items.len() == 0 {
            None
        } else {
            let m = self.items.remove(0);
            proof {
                assert(self@ =~= old(self)@.skip(1));
            }
            Some(m)
        }
    }
}

/// What one queued item becomes on the wire: the liveness sentinel
/// becomes a protocol-level ping frame, everything else a text frame
/// carrying the item unchanged.
pub fn wire_frame_for(message: String) -> (f: WireFrame)
    ensures
        message@ == ping_sentinel() <==> f is Ping,
        (f matches WireFrame::Text(t) ==> t == message),
{
    if message == String::from_str("PING") {
        WireFrame::Ping
    } else {
        WireFrame::Text(message)
    }
}

} // verus!
