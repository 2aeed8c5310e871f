//! How events reach a CLI bot, and the message ids its hub hands out.
use crate::cli::wire::{inbound_message_id, takes_assigned_id, with_message_id, Inbound};
use vstd::prelude::*;

verus! {

/// How the CLI platform moves events and actions.
#[derive(Debug)]
pub enum Transport {
    /// Inbound events on stdin, outbound actions on stdout.
    Stdio,
    /// A unix socket at this path.
    Unix(std::path::PathBuf),
    /// No transport — the owner injects events and reads outbound actions
    /// through the hub directly.
    Manual,
}

/// The hub's message-id counter: ids for injected events that lack one and
/// for every message the bot sends, in one sequence starting at 1.
#[derive(Debug)]
pub struct MessageIds {
    next: i64,
}

impl View for MessageIds {
    /// The next id to hand out.
    type V = i64;

    closed spec fn view(&self) -> i64 {
        self.next
    }
}

impl MessageIds {
    /// A counter whose first id is 1.
    pub fn new() -> (r: Self)
        ensures
            r@ == 1,
    {
        MessageIds { next: 1 }
    }

    /// The id the next assignment hands out.
    pub fn peek(&self) -> (r: i64)
        ensures
            r == self@,
    {
        self.next
    }

    /// Assign the next id.
    pub fn next_message_id(&mut self) -> (r: i64)
        requires
            old(self)@ < i64::MAX,
        ensures
            r == old(self)@,
            final(self)@ == old(self)@ + 1,
    {
        let id = self.next;
        self.next = self.next + 1;
        id
    }
}

/// Give an injected event a message id when the driver left one out, and
/// report the id it carries (0 for a subscription, which carries none).
pub fn assign_message_id(ids: &mut MessageIds, event: &mut Inbound) -> (r: i64)
    requires
        old(ids)@ < i64::MAX,
    ensures
        takes_assigned_id(*old(event)) && inbound_message_id(*old(event)) is None ==> {
            &&& *final(event) == with_message_id(*old(event), Some(old(ids)@))
            &&& final(ids)@ == old(ids)@ + 1
            &&& r == old(ids)@
        },
        !(takes_assigned_id(*old(event)) && inbound_message_id(*old(event)) is None) ==> {
            &&& *final(event) == *old(event)
            &&& final(ids)@ == old(ids)@
            &&& r == match inbound_message_id(*old(event)) {
                Some(id) => id,
                None => 0,
            }
        },
{
    let missing = match event {
        Inbound::Message(m) => m.message_id.is_none(),
        Inbound::Command(c) => c.message_id.is_none(),
        Inbound::Button(b) => b.message_id.is_none(),
        _ => false,
    };
    if missing {
        let id = ids.next_message_id();
        match event {
            Inbound::Message(m) => m.message_id = Some(id),
            Inbound::Command(c) => c.message_id = Some(id),
            Inbound::Button(b) => b.message_id = Some(id),
            _ => {},
        }
        return id;
    }
    match event.message_id() {
        Some(id) => id,
        None => 0,
    }
}

} // verus!
