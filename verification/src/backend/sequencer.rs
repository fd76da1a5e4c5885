//! The runner's end of a connection: it numbers the requests it sends, and it
//! keeps replies that arrive before they are asked for.
use std::collections::HashMap;
use vstd::prelude::*;

use crate::backend::message::{C2S, Message, S2C, Sequence};

verus! {

broadcast use vstd::std_specs::hash::group_hash_axioms;

/// The numbering state and the replies kept for later, by sequence number.
pub struct SequencerView {
    pub next: u64,
    pub stash: Map<u64, S2C>,
}

impl SequencerView {
    /// The state after a request was sent.
    pub open spec fn sent(self) -> SequencerView {
        SequencerView { next: (self.next + 1) as u64, stash: self.stash }
    }

    /// The state after the reply kept for `seq`, if any, was handed out.
    pub open spec fn taken(self, seq: u64) -> SequencerView {
        SequencerView { next: self.next, stash: self.stash.remove(seq) }
    }

    /// The reply kept for `seq`, if any.
    pub open spec fn kept(self, seq: u64) -> Option<S2C> {
        if self.stash.contains_key(seq) {
            Some(self.stash[seq])
        } else {
            None
        }
    }

    /// The state after a reply arrived while the reply to `wanted` was awaited.
    pub open spec fn arrived(self, wanted: Sequence, msg: Message<S2C>) -> SequencerView {
        if msg.seq == wanted {
            self
        } else {
            SequencerView { next: self.next, stash: self.stash.insert(msg.seq.0, msg.cmd) }
        }
    }
}

/// Numbering of requests on one connection, and the replies received but not
/// yet asked for.
pub struct Sequencer {
    pub seq: Sequence,
    replies: HashMap<u64, S2C>,
}

impl View for Sequencer {
    type V = SequencerView;

    closed spec fn view(&self) -> SequencerView {
        SequencerView { next: self.seq.0, stash: self.replies@ }
    }
}

impl Sequencer {
    /// A fresh connection: numbering starts at 0, nothing is kept.
    pub fn new() -> (s: Sequencer)
        ensures
            s@.next == 0,
            s@.stash == Map::<u64, S2C>::empty(),
    {
        Sequencer { seq: Sequence(0), replies: HashMap::new() }
    }

    /// Numbers a request: returns the message to send, and the number under
    /// which its reply will come if the request has one.
    pub fn send(&mut self, cmd: C2S) -> (r: (Message<C2S>, Option<Sequence>))
        requires
            old(self)@.next < u64::MAX,
        ensures
            r.0.seq == Sequence(old(self)@.next),
            r.0.cmd == cmd,
            r.1 == if cmd.expects_reply() {
                Some(Sequence(old(self)@.next))
            } else {
                None
            },
            final(self)@ == old(self)@.sent(),
    {
        let seq = self.seq;
        let reply_expected = cmd.has_reply();
        let msg = Message { seq, cmd };
        self.seq.0 = self.seq.0 + 1;
        (msg, if reply_expected { Some(seq) } else { None })
    }

    /// Hands out the reply kept for `seq`, if one was received earlier.
    pub fn take_reply(&mut self, seq: Sequence) -> (r: Option<S2C>)
        ensures
            r == old(self)@.kept(seq.0),
            final(self)@ == old(self)@.taken(seq.0),
    {
        self.replies.remove(&seq.0)
    }

    /// Deals with a reply that arrived while the reply to `wanted` was awaited:
    /// hands it out if it is that reply, and keeps it for later otherwise
    /// (where a reply with its number was kept already, the new one takes its
    /// place).
    pub fn accept(&mut self, wanted: Sequence, msg: Message<S2C>) -> (r: Option<S2C>)
        ensures
            r == if msg.seq == wanted {
                Some(msg.cmd)
            } else {
                None
            },
            final(self)@ == old(self)@.arrived(wanted, msg),
    {
        if msg.seq.0 == wanted.0 {
            Some(msg.cmd)
        } else {
            self.replies.insert(msg.seq.0, msg.cmd);
            None
        }
    }
}

/// A reply that arrives while another is awaited is not lost: asking for it
/// later hands it out, and asking once more finds nothing.
pub proof fn law_early_reply_is_kept(s: SequencerView, wanted: Sequence, msg: Message<S2C>)
    requires
        msg.seq != wanted,
    ensures
        s.arrived(wanted, msg).kept(msg.seq.0) == Some(msg.cmd),
        s.arrived(wanted, msg).taken(msg.seq.0).kept(msg.seq.0) == None::<S2C>,
{
}

/// Keeping a reply leaves the replies kept under other numbers as they were.
pub proof fn law_keeping_is_local(s: SequencerView, wanted: Sequence, msg: Message<S2C>, other: u64)
    requires
        other != msg.seq.0,
    ensures
        s.arrived(wanted, msg).kept(other) == s.kept(other),
{
}

/// Requests sent one after the other carry consecutive, hence distinct,
/// numbers; sending leaves the kept replies as they were.
pub proof fn law_numbers_are_fresh(s: SequencerView)
    requires
        s.next < u64::MAX - 1,
    ensures
        s.sent().next == s.next + 1,
        s.sent().sent().next == s.next + 2,
        s.sent().stash == s.stash,
{
}

} // verus!
