//! The JSONL wire protocol shared by the bot-side transport and the driver.
//!
//! Inbound lines (driver -> bot) are [`Inbound`] events. Outbound lines
//! (bot -> driver) are [`Outbound`] actions. One JSON object per line.
use vstd::prelude::*;

use crate::text::to_owned;

verus! {

broadcast use vstd::string::group_string_axioms;

/// `serde_json::Value`, carried opaquely: a message's extra JSON payload.
#[verifier::external_type_specification]
#[verifier::external_body]
pub struct ExJsonValue(serde_json::Value);

/// A user attached to an inbound event.
#[derive(Debug, Clone)]
pub struct WireUser {
    /// Platform user id.
    pub id: String,
    /// Display name.
    pub name: String,
}

/// A file attached to an inbound message; `path` is a local file the bot may read.
#[derive(Debug, Clone)]
pub struct WireFile {
    /// Media kind: `photo`, `video`, `audio`, `voice`, `animation`, `document`, or `sticker`.
    pub kind: String,
    /// Local filesystem path.
    pub path: String,
    /// MIME type; inferred from `path` when absent.
    pub mime: Option<String>,
    /// Stable identifier for resend-by-id flows; defaults to `path`.
    pub file_id: Option<String>,
}

/// The message an inbound message replies to.
#[derive(Debug, Clone)]
pub struct WireReplyRef {
    /// Replied-to message id.
    pub message_id: i64,
    /// Replied-to author display name.
    pub from: Option<String>,
    /// Replied-to text.
    pub text: Option<String>,
}

/// A sticker attached to an inbound message.
#[derive(Debug, Clone)]
pub struct WireSticker {
    /// Sticker identifier for resend-by-id.
    pub file_id: String,
    /// Associated emoji.
    pub emoji: Option<String>,
    /// Owning set name.
    pub set_name: Option<String>,
    /// `static`, `animated`, or `video`.
    pub format: String,
    /// Local file backing the sticker, if any.
    pub path: Option<String>,
}

/// The sticker format assumed when none is given.
pub fn default_static() -> (r: String)
    ensures
        r@ == "static"@,
{
    to_owned("static")
}

/// A plain or media message.
#[derive(Debug, Clone)]
pub struct InboundMessage {
    /// Chat/channel id.
    pub chat: String,
    /// Author.
    pub user: WireUser,
    /// Message id; assigned by the hub when omitted.
    pub message_id: Option<i64>,
    /// Message text.
    pub text: Option<String>,
    /// Media caption, when the message carries files.
    pub caption: Option<String>,
    /// Forum topic the message belongs to.
    pub thread_id: Option<i64>,
    /// The message this one replies to.
    pub reply_to: Option<WireReplyRef>,
    /// Attached files.
    pub files: Vec<WireFile>,
    /// Attached sticker.
    pub sticker: Option<WireSticker>,
    /// Marks the message as room chatter not aimed at the bot.
    pub ambient: bool,
}

/// A `/name args` invocation.
#[derive(Debug, Clone)]
pub struct InboundCommand {
    /// Chat/channel id.
    pub chat: String,
    /// Invoking user.
    pub user: WireUser,
    /// Command name, without prefix.
    pub name: String,
    /// Raw argument string.
    pub args: String,
    /// Message id of the invocation; assigned by the hub when omitted.
    pub message_id: Option<i64>,
    /// Forum topic the command was sent in.
    pub thread_id: Option<i64>,
}

/// An inline-button press.
#[derive(Debug, Clone)]
pub struct InboundButton {
    /// Chat/channel id.
    pub chat: String,
    /// Pressing user.
    pub user: WireUser,
    /// The button's callback data.
    pub data: String,
    /// Message the button was attached to.
    pub message_id: Option<i64>,
    /// Text of the message the button was attached to.
    pub message_text: Option<String>,
    /// Forum topic of the button's message.
    pub thread_id: Option<i64>,
}

/// Reactions added and removed on a message.
#[derive(Debug, Clone)]
pub struct InboundReaction {
    /// Chat/channel id.
    pub chat: String,
    /// Reacting user.
    pub user: WireUser,
    /// Message being reacted to.
    pub message_id: i64,
    /// Reactions that appeared.
    pub added: Vec<String>,
    /// Reactions that disappeared.
    pub removed: Vec<String>,
}

/// A message whose text was edited.
#[derive(Debug, Clone)]
pub struct InboundEdited {
    /// Chat/channel id.
    pub chat: String,
    /// Editing user.
    pub user: WireUser,
    /// Edited message id.
    pub message_id: i64,
    /// New text.
    pub text: Option<String>,
    /// Forum topic of the message.
    pub thread_id: Option<i64>,
}

/// An event a driver injects into the bot.
#[derive(Debug, Clone)]
pub enum Inbound {
    /// Register this connection as an outbound stream.
    Subscribe,
    /// A plain or media message.
    Message(Box<InboundMessage>),
    /// A command invocation.
    Command(InboundCommand),
    /// An inline-button press.
    Button(InboundButton),
    /// A reaction update.
    Reaction(InboundReaction),
    /// A message edit.
    Edited(InboundEdited),
}

/// The chat an event targets (empty for `Subscribe`).
pub open spec fn inbound_chat(e: Inbound) -> Seq<char> {
    match e {
        Inbound::Message(m) => m.chat@,
        Inbound::Command(c) => c.chat@,
        Inbound::Button(b) => b.chat@,
        Inbound::Reaction(r) => r.chat@,
        Inbound::Edited(d) => d.chat@,
        Inbound::Subscribe => Seq::empty(),
    }
}

/// The acting user, if the event has one.
pub open spec fn inbound_user(e: Inbound) -> Option<WireUser> {
    match e {
        Inbound::Message(m) => Some(m.user),
        Inbound::Command(c) => Some(c.user),
        Inbound::Button(b) => Some(b.user),
        Inbound::Reaction(r) => Some(r.user),
        Inbound::Edited(d) => Some(d.user),
        Inbound::Subscribe => None,
    }
}

/// The message id an event carries.
pub open spec fn inbound_message_id(e: Inbound) -> Option<i64> {
    match e {
        Inbound::Message(m) => m.message_id,
        Inbound::Command(c) => c.message_id,
        Inbound::Button(b) => b.message_id,
        Inbound::Reaction(r) => Some(r.message_id),
        Inbound::Edited(d) => Some(d.message_id),
        Inbound::Subscribe => None,
    }
}

/// The forum topic an event belongs to.
pub open spec fn inbound_thread_id(e: Inbound) -> Option<i64> {
    match e {
        Inbound::Message(m) => m.thread_id,
        Inbound::Command(c) => c.thread_id,
        Inbound::Button(b) => b.thread_id,
        Inbound::Edited(d) => d.thread_id,
        Inbound::Reaction(_) | Inbound::Subscribe => None,
    }
}

/// Events whose message id the hub assigns when the driver leaves it out.
pub open spec fn takes_assigned_id(e: Inbound) -> bool {
    e is Message || e is Command || e is Button
}

/// `e` with its message id replaced by `id` (only for kinds that take an assigned id).
pub open spec fn with_message_id(e: Inbound, id: Option<i64>) -> Inbound {
    match e {
        Inbound::Message(m) => Inbound::Message(Box::new(InboundMessage { message_id: id, ..*m })),
        Inbound::Command(c) => Inbound::Command(InboundCommand { message_id: id, ..c }),
        Inbound::Button(b) => Inbound::Button(InboundButton { message_id: id, ..b }),
        other => other,
    }
}

impl Inbound {
    /// The chat this event targets.
    pub fn chat(&self) -> (r: &str)
        ensures
            r@ == inbound_chat(*self),
    {
        match self {
            Inbound::Message(e) => e.chat.as_str(),
            Inbound::Command(e) => e.chat.as_str(),
            Inbound::Button(e) => e.chat.as_str(),
            Inbound::Reaction(e) => e.chat.as_str(),
            Inbound::Edited(e) => e.chat.as_str(),
            Inbound::Subscribe => {
                proof {
                    reveal_strlit("");
                }
                ""
            },
        }
    }

    /// The acting user.
    pub fn user(&self) -> (r: Option<&WireUser>)
        ensures
            match r {
                Some(u) => inbound_user(*self) == Some(*u),
                None => inbound_user(*self) is None,
            },
    {
        match self {
            Inbound::Message(e) => Some(&e.user),
            Inbound::Command(e) => Some(&e.user),
            Inbound::Button(e) => Some(&e.user),
            Inbound::Reaction(e) => Some(&e.user),
            Inbound::Edited(e) => Some(&e.user),
            Inbound::Subscribe => None,
        }
    }

    /// The message id attached to this event, if any.
    pub fn message_id(&self) -> (r: Option<i64>)
        ensures
            r == inbound_message_id(*self),
    {
        match self {
            Inbound::Message(e) => e.message_id,
            Inbound::Command(e) => e.message_id,
            Inbound::Button(e) => e.message_id,
            Inbound::Reaction(e) => Some(e.message_id),
            Inbound::Edited(e) => Some(e.message_id),
            Inbound::Subscribe => None,
        }
    }

    /// The forum topic this event belongs to.
    pub fn thread_id(&self) -> (r: Option<i64>)
        ensures
            r == inbound_thread_id(*self),
    {
        match self {
            Inbound::Message(e) => e.thread_id,
            Inbound::Command(e) => e.thread_id,
            Inbound::Button(e) => e.thread_id,
            Inbound::Edited(e) => e.thread_id,
            Inbound::Reaction(_) | Inbound::Subscribe => None,
        }
    }

    /// Assign a message id where the driver left it out.
    ///
    /// `next` is only called when an id is actually needed.
    pub fn ensure_message_id<F: Fn() -> i64>(&mut self, next: F)
        requires
            call_requires(next, ()),
        ensures
            takes_assigned_id(*old(self)) && inbound_message_id(*old(self)) is None ==> exists|id: i64|
                call_ensures(next, (), id) && *final(self) == with_message_id(*old(self), Some(id)),
            !(takes_assigned_id(*old(self)) && inbound_message_id(*old(self)) is None) ==> *final(self)
                == *old(self),
    {
        let missing = match &*self {
            Inbound::Message(e) => e.message_id.is_none(),
            Inbound::Command(e) => e.message_id.is_none(),
            Inbound::Button(e) => e.message_id.is_none(),
            _ => false,
        };
        if missing {
            let id = next();
            let ghost before = *self;
            match self {
                Inbound::Message(e) => e.message_id = Some(id),
                Inbound::Command(e) => e.message_id = Some(id),
                Inbound::Button(e) => e.message_id = Some(id),
                _ => {},
            }
            assert(*self == with_message_id(before, Some(id)));
        }
    }
}

/// One inline-keyboard button.
#[derive(Debug, Clone)]
pub struct WireButton {
    /// Button label.
    pub text: String,
    /// Callback data (mutually exclusive with `url`).
    pub data: Option<String>,
    /// Link target (mutually exclusive with `data`).
    pub url: Option<String>,
}

/// A text message the bot sent.
#[derive(Debug, Clone)]
pub struct OutboundMessage {
    /// Chat/channel id.
    pub chat: String,
    /// Assigned message id.
    pub message_id: i64,
    /// Message text.
    pub text: String,
    /// Inline keyboard rows.
    pub buttons: Vec<Vec<WireButton>>,
    /// Message this one replies to.
    pub reply_to: Option<i64>,
    /// Forum topic the message was sent to.
    pub thread_id: Option<i64>,
    /// Platform extras that have no CLI-native shape (embeds, select menus).
    pub extras: Option<serde_json::Value>,
}

/// A file the bot sent: a local `path`, or in-memory bytes base64'd in `data`.
#[derive(Debug, Clone)]
pub struct OutboundFile {
    /// Chat/channel id.
    pub chat: String,
    /// Assigned message id.
    pub message_id: i64,
    /// Media kind.
    pub kind: String,
    /// Local path, when the payload lives on disk.
    pub path: Option<String>,
    /// Base64 payload, when the bytes were in memory.
    pub data: Option<String>,
    /// Suggested filename.
    pub filename: Option<String>,
    /// Caption.
    pub caption: Option<String>,
    /// Forum topic.
    pub thread_id: Option<i64>,
}

/// Reaction(s) the bot set on a message.
#[derive(Debug, Clone)]
pub struct OutboundReaction {
    /// Chat/channel id.
    pub chat: String,
    /// Target message.
    pub message_id: i64,
    /// Emojis now on the message.
    pub emojis: Vec<String>,
    /// Animated/big variant.
    pub is_big: bool,
}

/// A message the bot edited.
#[derive(Debug, Clone)]
pub struct OutboundEdit {
    /// Chat/channel id.
    pub chat: String,
    /// Edited message.
    pub message_id: i64,
    /// New text.
    pub text: String,
}

/// A message the bot deleted.
#[derive(Debug, Clone)]
pub struct OutboundDelete {
    /// Chat/channel id.
    pub chat: String,
    /// Deleted message.
    pub message_id: i64,
}

/// A message the bot pinned or unpinned.
#[derive(Debug, Clone)]
pub struct OutboundPin {
    /// Chat/channel id.
    pub chat: String,
    /// Target message.
    pub message_id: i64,
    /// `true` for unpin.
    pub unpin: bool,
    /// Whether the pin notified the chat.
    pub notify: bool,
}

/// A chat action indicator (typing and friends).
#[derive(Debug, Clone)]
pub struct OutboundAction {
    /// Chat/channel id.
    pub chat: String,
    /// Action name, e.g. `typing`.
    pub action: String,
    /// `true` when the indicator was cleared early.
    pub clear: bool,
    /// Forum topic.
    pub thread_id: Option<i64>,
}

/// An injected event was accepted for dispatch.
#[derive(Debug, Clone)]
pub struct OutboundAck {
    /// The message id the event carries (assigned if the driver omitted it).
    pub message_id: Option<i64>,
}

/// An inbound line failed to parse or an event could not be delivered.
#[derive(Debug, Clone)]
pub struct OutboundError {
    /// What went wrong.
    pub message: String,
}

/// An action the bot performed, streamed to subscribers.
#[derive(Debug, Clone)]
pub enum Outbound {
    /// A text message.
    Message(OutboundMessage),
    /// A file/media message.
    File(OutboundFile),
    /// Reaction(s) set on a message.
    Reaction(OutboundReaction),
    /// A message edit.
    Edit(OutboundEdit),
    /// A message deletion.
    Delete(OutboundDelete),
    /// A pin or unpin.
    Pin(OutboundPin),
    /// A chat action indicator.
    Action(OutboundAction),
    /// An injected event was accepted.
    Ack(OutboundAck),
    /// A driver-facing error.
    Error(OutboundError),
}

} // verus!
