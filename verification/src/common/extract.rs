//! Values handlers can ask for by type, read off the event's context.
use crate::text::to_owned;
use vstd::prelude::*;

verus! {

/// A context value that may be absent, as the text handlers see: empty when
/// absent.
pub open spec fn or_empty(v: Option<Seq<char>>) -> Seq<char> {
    match v {
        Some(s) => s,
        None => Seq::empty(),
    }
}

fn owned_or_empty(v: Option<&str>) -> (r: String)
    ensures
        r@ == or_empty(match v {
            Some(s) => Some(s@),
            None => None,
        }),
{
    match v {
        Some(s) => to_owned(s),
        None => String::new(),
    }
}

/// User information extractor
#[derive(Debug, Clone)]
pub struct User {
    pub id: String,
    pub name: String,
}

impl User {
    /// The acting user, from the context's user id and name.
    pub fn from_context_values(id: &str, name: &str) -> (r: Self)
        ensures
            r.id@ == id@,
            r.name@ == name@,
    {
        User { id: to_owned(id), name: to_owned(name) }
    }
}

/// Channel information extractor
#[derive(Debug, Clone)]
pub struct Channel {
    pub id: String,
}

impl Channel {
    /// The channel, from the context's channel id.
    pub fn from_context_value(id: &str) -> (r: Self)
        ensures
            r.id@ == id@,
    {
        Channel { id: to_owned(id) }
    }
}

/// Command name extractor
#[derive(Debug, Clone)]
pub struct CommandName(pub String);

impl CommandName {
    /// The invoked command's name, empty when the event is no command.
    pub fn from_context_value(name: Option<&str>) -> (r: Self)
        ensures
            r.0@ == or_empty(match name {
                Some(s) => Some(s@),
                None => None,
            }),
    {
        CommandName(owned_or_empty(name))
    }
}

/// Command arguments extractor (Telegram-style string args)
#[derive(Debug, Clone)]
pub struct CommandArgs(pub String);

impl CommandArgs {
    /// The command's argument text, empty when there is none.
    pub fn from_context_value(args: Option<&str>) -> (r: Self)
        ensures
            r.0@ == or_empty(match args {
                Some(s) => Some(s@),
                None => None,
            }),
    {
        CommandArgs(owned_or_empty(args))
    }
}

/// Button/callback ID extractor
#[derive(Debug, Clone)]
pub struct ButtonId(pub String);

impl ButtonId {
    /// The pressed button's id, empty when the event is no button press.
    pub fn from_context_value(id: Option<&str>) -> (r: Self)
        ensures
            r.0@ == or_empty(match id {
                Some(s) => Some(s@),
                None => None,
            }),
    {
        ButtonId(owned_or_empty(id))
    }
}

/// Message content extractor
#[derive(Debug, Clone)]
pub struct MessageContent(pub String);

impl MessageContent {
    /// The event's text, empty when it carries none.
    pub fn from_context_value(text: Option<&str>) -> (r: Self)
        ensures
            r.0@ == or_empty(match text {
                Some(s) => Some(s@),
                None => None,
            }),
    {
        MessageContent(owned_or_empty(text))
    }
}

} // verus!
