//! Discord API objects the adapter reads.
use vstd::prelude::*;

verus! {

/// Discord user
#[derive(Debug)]
pub struct User {
    pub id: String,
    pub username: String,
    pub discriminator: Option<String>,
    pub global_name: Option<String>,
    pub avatar: Option<String>,
    pub bot: Option<bool>,
}

/// Discord guild member
#[derive(Debug, Clone)]
pub struct Member {
    pub user: Option<User>,
    pub nick: Option<String>,
    pub roles: Vec<String>,
    pub joined_at: Option<String>,
    pub premium_since: Option<String>,
    pub deaf: Option<bool>,
    pub mute: Option<bool>,
    pub pending: Option<bool>,
    pub permissions: Option<String>,
}

/// Discord message
///
/// Fields Discord omits from partial payloads default rather than failing the
/// whole message.
#[derive(Debug)]
pub struct Message {
    pub id: String,
    pub channel_id: String,
    /// Empty on partial `MESSAGE_UPDATE` payloads that omit the author.
    pub author: User,
    /// Empty unless the bot has the `MESSAGE_CONTENT` intent.
    pub content: String,
    pub timestamp: String,
    pub edited_timestamp: Option<String>,
    pub tts: bool,
    pub mention_everyone: bool,
    pub mentions: Vec<User>,
    pub pinned: bool,
    /// Guild the message was sent in; absent on direct messages.
    pub guild_id: Option<String>,
    /// The message a reply points at, when Discord resolves it.
    pub referenced_message: Option<Box<Message>>,
    /// Files attached to the message.
    pub attachments: Vec<Attachment>,
    /// Message type code; `0` is a regular message, `19` a reply.
    pub message_type: u8,
}

/// A file attached to a message.
#[derive(Debug)]
pub struct Attachment {
    pub id: String,
    pub filename: String,
    /// CDN URL the bytes are served from.
    pub url: String,
    /// The attachment's media type, when Discord knows it.
    pub content_type: Option<String>,
    pub size: u64,
}

/// Discord interaction types
/// A copy of an optional string.
fn clone_opt_string(o: &Option<String>) -> (r: Option<String>)
    ensures
        r == *o,
{
    match o {
        Some(s) => Some(s.clone()),
        None => None,
    }
}

impl Clone for User {
    fn clone(&self) -> (r: Self)
        ensures
            r == *self,
    {
        User {
            id: self.id.clone(),
            username: self.username.clone(),
            discriminator: clone_opt_string(&self.discriminator),
            global_name: clone_opt_string(&self.global_name),
            avatar: clone_opt_string(&self.avatar),
            bot: self.bot,
        }
    }
}

impl Clone for Attachment {
    fn clone(&self) -> (r: Self)
        ensures
            r == *self,
    {
        Attachment {
            id: self.id.clone(),
            filename: self.filename.clone(),
            url: self.url.clone(),
            content_type: clone_opt_string(&self.content_type),
            size: self.size,
        }
    }
}

/// A copy of a list of users, element for element.
fn clone_users(v: &Vec<User>) -> (r: Vec<User>)
    ensures
        r@ == v@,
{
    let mut r: Vec<User> = Vec::new();
    let mut i: usize = 0;
    while i < v.len()
        invariant
            i <= v.len(),
            r@ == v@.subrange(0, i as int),
        decreases v.len() - i,
    {
        r.push(v[i].clone());
        i = i + 1;
    }
    r
}

/// A copy of a list of attachments, element for element.
fn clone_attachments(v: &Vec<Attachment>) -> (r: Vec<Attachment>)
    ensures
        r@ == v@,
{
    let mut r: Vec<Attachment> = Vec::new();
    let mut i: usize = 0;
    while i < v.len()
        invariant
            i <= v.len(),
            r@ == v@.subrange(0, i as int),
        decreases v.len() - i,
    {
        r.push(v[i].clone());
        i = i + 1;
    }
    r
}

/// Two messages hold the same values: every field alike, lists element for
/// element, and the same replied-to message, if any.
pub open spec fn same_message(a: Message, b: Message) -> bool
    decreases a,
{
    &&& a.id == b.id
    &&& a.channel_id == b.channel_id
    &&& a.author == b.author
    &&& a.content == b.content
    &&& a.timestamp == b.timestamp
    &&& a.edited_timestamp == b.edited_timestamp
    &&& a.tts == b.tts
    &&& a.mention_everyone == b.mention_everyone
    &&& a.mentions@ == b.mentions@
    &&& a.pinned == b.pinned
    &&& a.guild_id == b.guild_id
    &&& match (a.referenced_message, b.referenced_message) {
        (Some(x), Some(y)) => same_message(*x, *y),
        (None, None) => true,
        _ => false,
    }
    &&& a.attachments@ == b.attachments@
    &&& a.message_type == b.message_type
}

impl Clone for Message {
    fn clone(&self) -> (r: Self)
        ensures
            same_message(r, *self),
        decreases self,
    {
        let referenced_message = match &self.referenced_message {
            Some(m) => Some(Box::new((&**m).clone())),
            None => None,
        };
        Message {
            id: self.id.clone(),
            channel_id: self.channel_id.clone(),
            author: self.author.clone(),
            content: self.content.clone(),
            timestamp: self.timestamp.clone(),
            edited_timestamp: clone_opt_string(&self.edited_timestamp),
            tts: self.tts,
            mention_everyone: self.mention_everyone,
            mentions: clone_users(&self.mentions),
            pinned: self.pinned,
            guild_id: clone_opt_string(&self.guild_id),
            referenced_message,
            attachments: clone_attachments(&self.attachments),
            message_type: self.message_type,
        }
    }
}

#[derive(Debug, Clone, Copy, PartialEq, Eq, Structural)]
pub enum InteractionType {
    Ping,
    ApplicationCommand,
    MessageComponent,
    ApplicationCommandAutocomplete,
    ModalSubmit,
    Unknown(u8),
}

/// The interaction type a wire number stands for.
pub open spec fn interaction_type_of(value: u8) -> InteractionType {
    if value == 1 {
        InteractionType::Ping
    } else if value == 2 {
        InteractionType::ApplicationCommand
    } else if value == 3 {
        InteractionType::MessageComponent
    } else if value == 4 {
        InteractionType::ApplicationCommandAutocomplete
    } else if value == 5 {
        InteractionType::ModalSubmit
    } else {
        InteractionType::Unknown(value)
    }
}

/// The wire number of an interaction type.
pub open spec fn interaction_type_code(t: InteractionType) -> u8 {
    match t {
        InteractionType::Ping => 1,
        InteractionType::ApplicationCommand => 2,
        InteractionType::MessageComponent => 3,
        InteractionType::ApplicationCommandAutocomplete => 4,
        InteractionType::ModalSubmit => 5,
        InteractionType::Unknown(n) => n,
    }
}

impl From<u8> for InteractionType {
    fn from(value: u8) -> (r: Self) {
        match value {
            1 => Self::Ping,
            2 => Self::ApplicationCommand,
            3 => Self::MessageComponent,
            4 => Self::ApplicationCommandAutocomplete,
            5 => Self::ModalSubmit,
            n => Self::Unknown(n),
        }
    }
}

impl vstd::std_specs::convert::FromSpecImpl<u8> for InteractionType {
    open spec fn obeys_from_spec() -> bool {
        true
    }

    open spec fn from_spec(v: u8) -> Self {
        interaction_type_of(v)
    }
}

impl From<InteractionType> for u8 {
    fn from(value: InteractionType) -> (r: Self) {
        match value {
            InteractionType::Ping => 1,
            InteractionType::ApplicationCommand => 2,
            InteractionType::MessageComponent => 3,
            InteractionType::ApplicationCommandAutocomplete => 4,
            InteractionType::ModalSubmit => 5,
            InteractionType::Unknown(n) => n,
        }
    }
}

impl vstd::std_specs::convert::FromSpecImpl<InteractionType> for u8 {
    open spec fn obeys_from_spec() -> bool {
        true
    }

    open spec fn from_spec(v: InteractionType) -> Self {
        interaction_type_code(v)
    }
}

/// Every wire number reads back as itself: a number maps to a type whose
/// number is the one it came from.
pub proof fn law_interaction_number_round_trip(value: u8)
    ensures
        interaction_type_code(interaction_type_of(value)) == value,
{
}

/// A type read from the number it writes is itself, provided it is a known
/// type or an unknown one carrying a number no known type uses.
pub proof fn law_interaction_type_round_trip(t: InteractionType)
    requires
        t matches InteractionType::Unknown(n) ==> !(1 <= n <= 5),
    ensures
        interaction_type_of(interaction_type_code(t)) == t,
{
}

/// Discord interaction
#[derive(Debug)]
pub struct Interaction {
    pub id: String,
    pub application_id: String,
    pub interaction_type: InteractionType,
    pub data: Option<InteractionData>,
    pub guild_id: Option<String>,
    pub channel_id: Option<String>,
    pub member: Option<Member>,
    pub user: Option<User>,
    pub token: String,
    pub version: u8,
    pub message: Option<Message>,
    pub app_permissions: Option<String>,
    pub locale: Option<String>,
    pub guild_locale: Option<String>,
}

/// Interaction data variants
#[derive(Debug)]
pub enum InteractionData {
    ApplicationCommand {
        id: String,
        name: String,
        command_type: Option<u8>,
        options: Vec<InteractionOption>,
        resolved: Option<serde_json::Value>,
    },
    MessageComponent { custom_id: String, component_type: u8, values: Vec<String> },
    ModalSubmit { custom_id: String, components: Vec<serde_json::Value> },
}

/// Command option
#[derive(Debug)]
pub struct InteractionOption {
    pub name: String,
    pub option_type: u8,
    pub value: serde_json::Value,
    pub options: Vec<InteractionOption>,
    pub focused: Option<bool>,
}

} // verus!
