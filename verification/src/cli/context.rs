//! What the CLI platform's context reports about the event being handled, and
//! the action lines its typing indicator writes.
use crate::cli::wire::{Inbound, OutboundAction};
use crate::common::action::{action_name, action_string, ChatAction};
use crate::text::{opt_view, to_owned};
use vstd::prelude::*;

verus! {

/// The text a handler sees: a message's text (else its caption), a button
/// press's message text, an edit's new text.
pub open spec fn inbound_content(e: Inbound) -> Option<Seq<char>> {
    match e {
        Inbound::Message(m) => match opt_view(m.text) {
            Some(t) => Some(t),
            None => opt_view(m.caption),
        },
        Inbound::Button(b) => opt_view(b.message_text),
        Inbound::Edited(x) => opt_view(x.text),
        _ => None,
    }
}

fn opt_str(o: &Option<String>) -> (r: Option<&str>)
    ensures
        match (r, *o) {
            (Some(a), Some(b)) => a@ == b@,
            (None, None) => true,
            _ => false,
        },
{
    match o {
        Some(s) => Some(s.as_str()),
        None => None,
    }
}

impl Inbound {
    /// The invoked command's name, for a command event.
    pub fn command_name(&self) -> (r: Option<&str>)
        ensures
            match *self {
                Inbound::Command(c) => r matches Some(n) && n@ == c.name@,
                _ => r is None,
            },
    {
        match self {
            Inbound::Command(command) => Some(command.name.as_str()),
            _ => None,
        }
    }

    /// The invoked command's argument text, for a command event.
    pub fn command_args(&self) -> (r: Option<&str>)
        ensures
            match *self {
                Inbound::Command(c) => r matches Some(a) && a@ == c.args@,
                _ => r is None,
            },
    {
        match self {
            Inbound::Command(command) => Some(command.args.as_str()),
            _ => None,
        }
    }

    /// The pressed button's data, for a button event.
    pub fn button_id(&self) -> (r: Option<&str>)
        ensures
            match *self {
                Inbound::Button(b) => r matches Some(d) && d@ == b.data@,
                _ => r is None,
            },
    {
        match self {
            Inbound::Button(button) => Some(button.data.as_str()),
            _ => None,
        }
    }

    /// The text the event carries, as handlers see it.
    pub fn message_content(&self) -> (r: Option<&str>)
        ensures
            match r {
                Some(t) => inbound_content(*self) == Some(t@),
                None => inbound_content(*self) is None,
            },
    {
        match self {
            Inbound::Message(message) => match opt_str(&message.text) {
                Some(t) => Some(t),
                None => opt_str(&message.caption),
            },
            Inbound::Button(button) => opt_str(&button.message_text),
            Inbound::Edited(edited) => opt_str(&edited.text),
            _ => None,
        }
    }
}

/// The action line a chat indicator writes: the action's name for `chat` and
/// its topic; `clear` retracts it.
pub fn action_line(chat: &str, thread_id: Option<i64>, action: ChatAction, clear: bool) -> (r: OutboundAction)
    ensures
        r.chat@ == chat@,
        r.action@ == action_name(action),
        r.clear == clear,
        r.thread_id == thread_id,
{
    OutboundAction { chat: to_owned(chat), action: to_owned(action_string(action)), clear, thread_id }
}

/// The line that retracts the indicator early: a cleared `typing`.
pub fn clear_line(chat: &str, thread_id: Option<i64>) -> (r: OutboundAction)
    ensures
        r.chat@ == chat@,
        r.action@ == "typing"@,
        r.clear,
        r.thread_id == thread_id,
{
    action_line(chat, thread_id, ChatAction::Typing, true)
}

} // verus!
