//! What a Discord interaction or message tells a handler.
use crate::discord::client::{DiscordClient, DiscordClientView};
use crate::discord::types::{same_message, Interaction, InteractionData, InteractionOption, Message, User};
use crate::text::{opt_view, str_eq, to_owned};
use vstd::prelude::*;

verus! {

/// Seconds after which Discord drops a typing indicator.
pub const DISCORD_ACTION_EXPIRY_SECS: u64 = 10;

/// Discord chat action sender. Discord only supports typing indicators, so
/// every action shows as typing in the channel.
pub struct DiscordActionSender {
    client: DiscordClient,
    channel_id: String,
}

impl View for DiscordActionSender {
    /// The client the indicator goes through and the channel it shows in.
    type V = (DiscordClientView, Seq<char>);

    closed spec fn view(&self) -> (DiscordClientView, Seq<char>) {
        (self.client@, self.channel_id@)
    }
}

impl DiscordActionSender {
    /// Create a new Discord action sender
    pub fn new(client: DiscordClient, channel_id: String) -> (r: Self)
        ensures
            r@ == (client@, channel_id@),
    {
        Self { client, channel_id }
    }

    /// The channel the indicator shows in.
    pub fn channel_id(&self) -> (r: &str)
        ensures
            r@ == self@.1,
    {
        self.channel_id.as_str()
    }

    /// The client the indicator is sent through.
    pub fn client(&self) -> (r: &DiscordClient)
        ensures
            r@ == self@.0,
    {
        &self.client
    }
}

/// The acting user: the guild member's user, else the direct-message user.
pub open spec fn interaction_user(i: Interaction) -> Option<User> {
    match i.member {
        Some(m) => match m.user {
            Some(u) => Some(u),
            None => i.user,
        },
        None => i.user,
    }
}

/// A user's display name: `global_name`, else the handle.
pub open spec fn display_name(u: User) -> Seq<char> {
    match opt_view(u.global_name) {
        Some(n) => n,
        None => u.username@,
    }
}

/// Discord interaction context
pub struct DiscordContextData {
    interaction: Interaction,
    client: DiscordClient,
    channel_id: String,
    user_id: String,
    user_name: String,
}

/// An interaction context by its parts.
pub struct DiscordContextView {
    pub interaction: Interaction,
    pub client: DiscordClientView,
    pub channel_id: Seq<char>,
    pub user_id: Seq<char>,
    pub user_name: Seq<char>,
}

impl View for DiscordContextData {
    type V = DiscordContextView;

    closed spec fn view(&self) -> DiscordContextView {
        DiscordContextView {
            interaction: self.interaction,
            client: self.client@,
            channel_id: self.channel_id@,
            user_id: self.user_id@,
            user_name: self.user_name@,
        }
    }
}

fn user_name_of(u: &User) -> (r: String)
    ensures
        r@ == display_name(*u),
{
    match &u.global_name {
        Some(n) => n.clone(),
        None => u.username.clone(),
    }
}

impl DiscordContextData {
    /// The context for one interaction: channel (empty when Discord reported
    /// none) and acting user, computed once.
    pub fn new(interaction: Interaction, client: DiscordClient) -> (r: Self)
        ensures
            r@.interaction == interaction,
            r@.client == client@,
            r@.channel_id == match opt_view(interaction.channel_id) {
                Some(c) => c,
                None => Seq::<char>::empty(),
            },
            (r@.user_id, r@.user_name) == match interaction_user(interaction) {
                Some(u) => (u.id@, display_name(u)),
                None => (Seq::<char>::empty(), Seq::<char>::empty()),
            },
    {
        let channel_id = match &interaction.channel_id {
            Some(c) => c.clone(),
            None => String::new(),
        };
        let user: Option<&User> = match &interaction.member {
            Some(m) => match &m.user {
                Some(u) => Some(u),
                None => interaction.user.as_ref(),
            },
            None => interaction.user.as_ref(),
        };
        let (user_id, user_name) = match user {
            Some(u) => (u.id.clone(), user_name_of(u)),
            None => (String::new(), String::new()),
        };
        Self { interaction, client, channel_id, user_id, user_name }
    }

    /// The interaction that produced this context
    pub fn interaction(&self) -> (r: &Interaction)
        ensures
            *r == self@.interaction,
    {
        &self.interaction
    }

    /// The channel this interaction came from, if Discord reported one
    pub fn channel_id_opt(&self) -> (r: Option<&str>)
        ensures
            match r {
                Some(c) => opt_view(self@.interaction.channel_id) == Some(c@),
                None => self@.interaction.channel_id is None,
            },
    {
        match &self.interaction.channel_id {
            Some(c) => Some(c.as_str()),
            None => None,
        }
    }

    /// Get the client for making API calls
    pub fn client(&self) -> (r: &DiscordClient)
        ensures
            r@ == self@.client,
    {
        &self.client
    }

    /// The channel id, empty when Discord reported none.
    pub fn channel_id(&self) -> (r: &str)
        ensures
            r@ == self@.channel_id,
    {
        self.channel_id.as_str()
    }

    /// The acting user's id.
    pub fn user_id(&self) -> (r: &str)
        ensures
            r@ == self@.user_id,
    {
        self.user_id.as_str()
    }

    /// The acting user's display name.
    pub fn user_name(&self) -> (r: &str)
        ensures
            r@ == self@.user_name,
    {
        self.user_name.as_str()
    }

    /// The invoked slash command's name.
    pub fn command_name(&self) -> (r: Option<&str>)
        ensures
            match self@.interaction.data {
                Some(InteractionData::ApplicationCommand { name, .. }) => r matches Some(n) && n@ == name@,
                _ => r is None,
            },
    {
        match &self.interaction.data {
            Some(InteractionData::ApplicationCommand { name, .. }) => Some(name.as_str()),
            _ => None,
        }
    }

    /// The pressed component's or submitted modal's custom id.
    pub fn button_id(&self) -> (r: Option<&str>)
        ensures
            match self@.interaction.data {
                Some(InteractionData::MessageComponent { custom_id, .. }) => r matches Some(n) && n@ == custom_id@,
                Some(InteractionData::ModalSubmit { custom_id, .. }) => r matches Some(n) && n@ == custom_id@,
                _ => r is None,
            },
    {
        match &self.interaction.data {
            Some(InteractionData::MessageComponent { custom_id, .. }) => Some(custom_id.as_str()),
            Some(InteractionData::ModalSubmit { custom_id, .. }) => Some(custom_id.as_str()),
            _ => None,
        }
    }

    /// The text of the message a component sits under.
    pub fn message_content(&self) -> (r: Option<&str>)
        ensures
            match self@.interaction.message {
                Some(m) => r matches Some(t) && t@ == m.content@,
                None => r is None,
            },
    {
        match &self.interaction.message {
            Some(m) => Some(m.content.as_str()),
            None => None,
        }
    }

    /// The first slash-command option called `name`.
    pub fn option_raw(&self, name: &str) -> (r: Option<&InteractionOption>)
        ensures
            match self@.interaction.data {
                Some(InteractionData::ApplicationCommand { options, .. }) => match r {
                    Some(o) => exists|k: int|
                        #![trigger options@[k]]
                        0 <= k < options@.len() && options@[k] == *o && o.name@ == name@ && forall|j: int|
                            0 <= j < k ==> (#[trigger] options@[j]).name@ != name@,
                    None => forall|j: int| 0 <= j < options@.len() ==> (#[trigger] options@[j]).name@ != name@,
                },
                _ => r is None,
            },
    {
        match &self.interaction.data {
            Some(InteractionData::ApplicationCommand { options, .. }) => {
                let mut i: usize = 0;
                while i < options.len()
                    invariant
                        i <= options@.len(),
                        self.interaction.data matches Some(InteractionData::ApplicationCommand { options: os, .. })
                            && os == *options,
                        forall|j: int| 0 <= j < i ==> (#[trigger] options@[j]).name@ != name@,
                    decreases options@.len() - i,
                {
                    if str_eq(options[i].name.as_str(), name) {
                        let o = &options[i];
                        assert(0 <= i < options@.len() && options@[i as int] == *o && o.name@ == name@
                            && forall|j: int| 0 <= j < i ==> (#[trigger] options@[j]).name@ != name@);
                        return Some(o);
                    }
                    i = i + 1;
                }
                None
            },
            _ => None,
        }
    }

    /// The typing indicator for this channel; none without a channel.
    pub fn action_sender(&self) -> (r: Option<DiscordActionSender>)
        ensures
            if self@.channel_id.len() == 0 {
                r is None
            } else {
                r matches Some(s) && s@ == (self@.client, self@.channel_id)
            },
    {
        if self.channel_id.as_str().is_empty() {
            return None;
        }
        Some(DiscordActionSender::new(self.client.clone(), self.channel_id.clone()))
    }
}

/// Discord message context, for message handlers.
pub struct MessageContextData {
    message: Message,
    client: DiscordClient,
    user_name: String,
    /// Whether this message is an edit rather than a new message. On edits
    /// `message` holds the post-edit state and may be partial.
    pub edited: bool,
}

impl MessageContextData {
    /// The message this context reports.
    pub closed spec fn message_spec(&self) -> Message {
        self.message
    }

    /// The client replies go through.
    pub closed spec fn client_spec(&self) -> DiscordClientView {
        self.client@
    }

    /// The author's display name.
    pub closed spec fn user_name_spec(&self) -> Seq<char> {
        self.user_name@
    }

    /// Whether the message is an edit.
    pub closed spec fn edited_spec(&self) -> bool {
        self.edited
    }

    /// The context for a new message.
    pub fn new(message: Message, client: DiscordClient) -> (r: Self)
        ensures
            r.message_spec() == message,
            r.client_spec() == client@,
            r.user_name_spec() == display_name(message.author),
            !r.edited_spec(),
    {
        let user_name = user_name_of(&message.author);
        Self { message, client, user_name, edited: false }
    }

    /// The context for an edited message — same shape as `new`, with the
    /// `edited` flag set so handlers can tell a correction from a new post.
    pub fn new_edited(message: Message, client: DiscordClient) -> (r: Self)
        ensures
            r.message_spec() == message,
            r.client_spec() == client@,
            r.user_name_spec() == display_name(message.author),
            r.edited_spec(),
    {
        Self { edited: true, ..Self::new(message, client) }
    }

    /// The message that produced this context
    pub fn message(&self) -> (r: &Message)
        ensures
            *r == self.message_spec(),
    {
        &self.message
    }

    /// Get the client for making API calls
    pub fn client(&self) -> (r: &DiscordClient)
        ensures
            r@ == self.client_spec(),
    {
        &self.client
    }

    /// The channel the message was posted in.
    pub fn channel_id(&self) -> (r: &str)
        ensures
            r@ == self.message_spec().channel_id@,
    {
        self.message.channel_id.as_str()
    }

    /// The author's id.
    pub fn user_id(&self) -> (r: &str)
        ensures
            r@ == self.message_spec().author.id@,
    {
        self.message.author.id.as_str()
    }

    /// The author's display name.
    pub fn user_name(&self) -> (r: &str)
        ensures
            r@ == self.user_name_spec(),
    {
        self.user_name.as_str()
    }

    /// The message text; a message always has one.
    pub fn message_content(&self) -> (r: Option<&str>)
        ensures
            r matches Some(t) && t@ == self.message_spec().content@,
    {
        Some(self.message.content.as_str())
    }

    /// A message is no command invocation: none.
    pub fn command_name(&self) -> (r: Option<&str>)
        ensures
            r is None,
    {
        None
    }

    /// A message carries no command arguments: none.
    pub fn command_args(&self) -> (r: Option<&str>)
        ensures
            r is None,
    {
        None
    }

    /// A message is no button press: none.
    pub fn button_id(&self) -> (r: Option<&str>)
        ensures
            r is None,
    {
        None
    }

    /// The typing indicator for the message's channel.
    pub fn action_sender(&self) -> (r: DiscordActionSender)
        ensures
            r@ == (self.client_spec(), self.message_spec().channel_id@),
    {
        DiscordActionSender::new(self.client.clone(), self.message.channel_id.clone())
    }
}

/// An edited message's context is a new message's context with the edit
/// flag set. Build the edited one from a clone of the message and the client,
/// the plain one from the originals: both report the same message, client,
/// channel, author and text, and only the flag tells them apart.
pub proof fn law_edited_context_differs_only_in_the_flag(
    a: MessageContextData,
    b: MessageContextData,
    message: Message,
    copy: Message,
    client: DiscordClientView,
)
    requires
        same_message(copy, message),
        a.message_spec() == copy && a.client_spec() == client && a.user_name_spec() == display_name(
            copy.author,
        ) && a.edited_spec(),
        b.message_spec() == message && b.client_spec() == client && b.user_name_spec() == display_name(
            message.author,
        ) && !b.edited_spec(),
    ensures
        same_message(a.message_spec(), b.message_spec()),
        a.client_spec() == b.client_spec(),
        a.message_spec().channel_id@ == b.message_spec().channel_id@,
        a.message_spec().author.id@ == b.message_spec().author.id@,
        a.user_name_spec() == b.user_name_spec(),
        a.message_spec().content@ == b.message_spec().content@,
        a.edited_spec() && !b.edited_spec(),
{
}

} // verus!
