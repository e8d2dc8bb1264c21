//! A toy message exchange between simulated satellites and a ground
//! station.
//!
//! A [`Mailbox`] holds messages addressed by satellite id. The ground
//! station posts messages into the mailbox; a satellite receives the
//! oldest message addressed to it, which is removed from the mailbox.
//! Ownership is exclusive and sequential throughout: every mutation
//! goes through a single `&mut` borrow.

use vstd::prelude::*;

verus! {

/// A simulated satellite, identified by its id.
#[derive(Clone, Copy, Debug, PartialEq, Eq, Structural)]
pub struct CubeSat {
    /// The satellite's id.
    pub id: u64,
}

/// A message addressed to one satellite.
#[derive(Debug)]
pub struct Message {
    /// Id of the satellite the message is for.
    pub to: u64,
    /// The message body.
    pub content: String,
}

/// A satellite's status report.
#[derive(Clone, Copy, Debug, PartialEq, Eq, Structural)]
pub enum StatusMessage {
    /// The satellite reports nominal operation.
    Nominal,
}

/// The shared mailbox: all pending messages, oldest first.
#[derive(Debug)]
pub struct Mailbox {
    /// Pending messages in posting order.
    pub messages: Vec<Message>,
}

/// The ground station. The radio frequency is kept in kilohertz so
/// that it is an exact integer quantity.
#[derive(Clone, Copy, Debug, PartialEq, Eq, Structural)]
pub struct GroundStation {
    /// Radio frequency in kilohertz.
    pub radio_freq_khz: u64,
}

/// Index of the first message in `msgs` addressed to `id`, or -1 when
/// none is.
pub open spec fn first_index_for(msgs: Seq<Message>, id: u64) -> int
    decreases msgs.len(),
{
    if msgs.len() == 0 {
        -1
    } else if msgs[0].to == id {
        0
    } else if first_index_for(msgs.drop_first(), id) < 0 {
        -1
    } else {
        1 + first_index_for(msgs.drop_first(), id)
    }
}

/// Whether some message in `msgs` is addressed to `id`.
pub open spec fn has_message_for(msgs: Seq<Message>, id: u64) -> bool {
    first_index_for(msgs, id) >= 0
}

/// When the first `i` messages are addressed elsewhere, the first match
/// for `id` is at `i` if message `i` is addressed to `id`, and there is
/// none at all if `i` is the whole length.
proof fn lemma_first_index_from_prefix(msgs: Seq<Message>, id: u64, i: int)
    requires
        0 <= i <= msgs.len(),
        forall|j: int| 0 <= j < i ==> msgs[j].to != id,
    ensures
        i < msgs.len() && msgs[i].to == id ==> first_index_for(msgs, id) == i,
        i == msgs.len() ==> first_index_for(msgs, id) == -1,
    decreases msgs.len(),
{
    if msgs.len() == 0 {
    } else if msgs[0].to == id {
    } else if i > 0 {
        assert(forall|j: int| 0 <= j < i - 1 ==> msgs.drop_first()[j].to != id);
        lemma_first_index_from_prefix(msgs.drop_first(), id, i - 1);
    }
}

impl Mailbox {
    /// Append a message to the mailbox.
    pub fn post(&mut self, msg: Message)
        ensures
            final(self).messages@ == old(self).messages@.push(msg),
    {
        self.messages.push(msg);
    }

    /// Remove and return the oldest message addressed to `recipient`,
    /// or return nothing and leave the mailbox unchanged when no
    /// message is addressed to it.
    pub fn deliver(&mut self, recipient: &CubeSat) -> (r: Option<Message>)
        ensures
            !has_message_for(old(self).messages@, recipient.id) ==> (r is None
                && final(self).messages@ == old(self).messages@),
            has_message_for(old(self).messages@, recipient.id) ==> ({
                let idx = first_index_for(old(self).messages@, recipient.id);
                r == Some(old(self).messages@[idx])
                    && final(self).messages@ == old(self).messages@.remove(idx)
            }),
    {
        let mut i: usize = 0;
        while i < self.messages.len()
            invariant
                i <= self.messages.len(),
                self.messages@ == old(self).messages@,
                forall|j: int| 0 <= j < i ==> self.messages@[j].to != recipient.id,
            decreases self.messages.len() - i,
        {
            if self.messages[i].to == recipient.id {
                proof {
                    lemma_first_index_from_prefix(self.messages@, recipient.id, i as int);
                }
                let msg = self.messages.remove(i);
                return Some(msg);
            }
            i += 1;
        }
        proof {
            lemma_first_index_from_prefix(self.messages@, recipient.id, i as int);
        }
        None
    }
}

impl GroundStation {
    /// Connect to the satellite with the given id.
    pub fn connect(&self, sat_id: u64) -> (sat: CubeSat)
        ensures
            sat.id == sat_id,
    {
        CubeSat { id: sat_id }
    }

    /// Post a message into the mailbox on the satellite's behalf.
    pub fn send(&self, mailbox: &mut Mailbox, msg: Message)
        ensures
            final(mailbox).messages@ == old(mailbox).messages@.push(msg),
    {
        mailbox.post(msg);
    }
}

impl CubeSat {
    /// Receive the oldest message addressed to this satellite, if any.
    pub fn recv(&self, mailbox: &mut Mailbox) -> (r: Option<Message>)
        ensures
            !has_message_for(old(mailbox).messages@, self.id) ==> (r is None
                && final(mailbox).messages@ == old(mailbox).messages@),
            has_message_for(old(mailbox).messages@, self.id) ==> ({
                let idx = first_index_for(old(mailbox).messages@, self.id);
                r == Some(old(mailbox).messages@[idx])
                    && final(mailbox).messages@ == old(mailbox).messages@.remove(idx)
            }),
    {
        mailbox.deliver(&self)
    }
}

/// The ids of the deployed satellites.
pub fn fetch_sat_ids() -> (ids: Vec<u64>)
    ensures
        ids@ == seq![1u64, 2u64, 3u64],
{
    let mut ids: Vec<u64> = Vec::new();
    ids.push(1);
    ids.push(2);
    ids.push(3);
    proof {
        assert(ids@ =~= seq![1u64, 2u64, 3u64]);
    }
    ids
}

/// Query a satellite's status; every satellite reports nominal
/// operation.
pub fn check_status(sat_id: CubeSat) -> (status: StatusMessage)
    ensures
        status is Nominal,
{
    StatusMessage::Nominal
}

} // verus!
