//! The Discord adapter's decisions: how interactions route, how a response
//! answers an interaction or a channel message, the slash-command list, and
//! the reconnect loop's state.
use crate::common::error::BotError;
use crate::common::response::{FileResponse, Response, ResponseModel};
use crate::common::router::{BotBuilder, CommandInfo, Event, EventModel};
use crate::discord::client::{
    CHANNEL_MESSAGE_WITH_SOURCE, DEFERRED_CHANNEL_MESSAGE_WITH_SOURCE, DEFERRED_UPDATE_MESSAGE,
    EPHEMERAL_FLAG,
};
use crate::discord::component::{discord_rows, rows_view, to_discord, DiscordRow};
use crate::discord::gateway::Session;
use crate::discord::types::{Interaction, InteractionData, InteractionType};
use crate::telegram::bot::menu_entry;
use crate::text::{opt_view, to_owned};
use vstd::prelude::*;

verus! {

/// Where an interaction routes: a slash command by its name, a component
/// press by its custom id; anything else (pings, autocomplete, modals, or a
/// type whose data does not match) routes nowhere.
pub open spec fn interaction_route(i: Interaction) -> Option<EventModel> {
    match (i.interaction_type, i.data) {
        (InteractionType::ApplicationCommand, Some(InteractionData::ApplicationCommand { name, .. })) => Some(
            EventModel::Command(name@),
        ),
        (InteractionType::MessageComponent, Some(InteractionData::MessageComponent { custom_id, .. })) => Some(
            EventModel::Button(custom_id@),
        ),
        _ => None,
    }
}

/// The router event for an interaction.
pub fn interaction_event(interaction: &Interaction) -> (r: Option<Event<'_>>)
    ensures
        match r {
            Some(e) => interaction_route(*interaction) == Some(e@),
            None => interaction_route(*interaction) is None,
        },
{
    match (&interaction.interaction_type, &interaction.data) {
        (InteractionType::ApplicationCommand, Some(InteractionData::ApplicationCommand { name, .. })) => Some(
            Event::Command(name.as_str()),
        ),
        (InteractionType::MessageComponent, Some(InteractionData::MessageComponent { custom_id, .. })) => Some(
            Event::Button(custom_id.as_str()),
        ),
        _ => None,
    }
}

/// The fields Discord accepts on both message endpoints, besides embeds
/// (which travel as they are).
pub struct MessagePayload {
    /// The text, empty when the response has none.
    pub content: String,
    /// The rendered component rows.
    pub components: Vec<DiscordRow>,
}

/// A response's text and components.
pub open spec fn payload_matches(p: MessagePayload, m: ResponseModel) -> bool {
    match m {
        ResponseModel::Message(msg) => p.content@ == msg.content && rows_view(p.components@)
            == discord_rows(msg.components),
        _ => p.content@.len() == 0 && p.components@.len() == 0,
    }
}

/// Render the shared message fields for a response.
pub fn message_payload(response: &Response) -> (r: MessagePayload)
    ensures
        payload_matches(r, response@),
{
    let content = match response.content() {
        Some(c) => to_owned(c),
        None => String::new(),
    };
    let components = to_discord(response.components());
    assert(rows_view(components@).len() == components@.len());
    proof {
        if !(response@ is Message) {
            assert(discord_rows(Seq::<crate::common::component::Component>::empty()) =~= Seq::empty());
        }
    }
    MessagePayload { content, components }
}

/// How to answer an interaction.
pub enum InteractionReply {
    /// Answer with this callback type and no data.
    Acknowledge(u8),
    /// Defer, then upload the file through the follow-up webhook (showing
    /// typing in the channel first, when there is one).
    DeferredFile(FileResponse),
    /// Reply with a message; `flags` marks an ephemeral one.
    Message { payload: MessagePayload, flags: Option<u32> },
}

/// How a response answers an interaction. Discord shows "This interaction
/// failed" unless it hears back, so even an empty response is acknowledged:
/// silently for a component, with a deferral for a command (which has no
/// silent form). Files cannot ride on the callback and go through a
/// follow-up.
pub fn plan_interaction_reply(is_component: bool, response: &mut Response) -> (r: InteractionReply)
    ensures
        match old(response)@ {
            ResponseModel::Empty => r == InteractionReply::Acknowledge(
                if is_component { DEFERRED_UPDATE_MESSAGE } else { DEFERRED_CHANNEL_MESSAGE_WITH_SOURCE },
            ),
            ResponseModel::Message(m) => if m.content.len() == 0 && m.embeds.len() == 0
                && m.components.len() == 0 {
                r == InteractionReply::Acknowledge(
                    if is_component { DEFERRED_UPDATE_MESSAGE } else { DEFERRED_CHANNEL_MESSAGE_WITH_SOURCE },
                )
            } else {
                r matches InteractionReply::Message { payload, flags } && payload_matches(payload, old(response)@)
                    && flags == (if m.ephemeral { Some(EPHEMERAL_FLAG) } else { None })
            },
            ResponseModel::Acknowledge => r == InteractionReply::Acknowledge(DEFERRED_CHANNEL_MESSAGE_WITH_SOURCE),
            ResponseModel::File(f) => r == InteractionReply::DeferredFile(f),
        },
        !(old(response)@ is File) ==> final(response)@ == old(response)@,
        old(response)@ is File ==> final(response)@ == ResponseModel::Empty,
{
    if response.is_empty() {
        if is_component {
            return InteractionReply::Acknowledge(DEFERRED_UPDATE_MESSAGE);
        }
        return InteractionReply::Acknowledge(DEFERRED_CHANNEL_MESSAGE_WITH_SOURCE);
    }
    if response.is_acknowledge() {
        return InteractionReply::Acknowledge(DEFERRED_CHANNEL_MESSAGE_WITH_SOURCE);
    }
    match response.take_file() {
        Some(file) => return InteractionReply::DeferredFile(file),
        None => {},
    }
    let payload = message_payload(response);
    let flags = if response.is_ephemeral() {
        Some(EPHEMERAL_FLAG)
    } else {
        None
    };
    InteractionReply::Message { payload, flags }
}

/// How to answer a channel message.
pub enum ChannelReply {
    /// Nothing to send.
    Nothing,
    /// Upload the file (after a typing indicator).
    File(FileResponse),
    /// Send the message.
    Message(MessagePayload),
}

/// How a response answers a channel message: empty and acknowledge responses
/// send nothing.
pub fn plan_channel_reply(response: &mut Response) -> (r: ChannelReply)
    ensures
        match old(response)@ {
            ResponseModel::Message(m) => if m.content.len() == 0 && m.embeds.len() == 0
                && m.components.len() == 0 {
                r is Nothing
            } else {
                r matches ChannelReply::Message(p) && payload_matches(p, old(response)@)
            },
            ResponseModel::File(f) => r == ChannelReply::File(f),
            _ => r is Nothing,
        },
        !(old(response)@ is File) ==> final(response)@ == old(response)@,
        old(response)@ is File ==> final(response)@ == ResponseModel::Empty,
{
    if response.is_empty() || response.is_acknowledge() {
        return ChannelReply::Nothing;
    }
    match response.take_file() {
        Some(file) => return ChannelReply::File(file),
        None => {},
    }
    ChannelReply::Message(message_payload(response))
}

/// A slash command to register: its name and the description shown in
/// Discord's UI (type 1, a chat input command).
pub struct SlashCommand {
    pub name: String,
    pub description: String,
}

/// The slash commands the registered handlers imply, in registration order;
/// Discord rejects an empty description, so the name stands in for one.
pub fn slash_commands<H>(builder: &BotBuilder<H>) -> (r: Vec<SlashCommand>)
    ensures
        r@.len() == builder@.commands.len(),
        forall|i: int|
            0 <= i < r@.len() ==> ((#[trigger] r@[i]).name@, r@[i].description@) == menu_entry(
                builder@.commands[i].0,
                match builder@.descriptions[i] {
                    Some(d) => d,
                    None => Seq::<char>::empty(),
                },
            ),
{
    let infos = builder.commands();
    let mut out: Vec<SlashCommand> = Vec::new();
    let mut i: usize = 0;
    while i < infos.len()
        invariant
            i <= infos@.len(),
            infos@.len() == builder@.commands.len(),
            forall|k: int|
                0 <= k < infos@.len() ==> (#[trigger] infos@[k]).name@ == builder@.commands[k].0
                    && infos@[k].description@ == match builder@.descriptions[k] {
                    Some(d) => d,
                    None => Seq::<char>::empty(),
                },
            out@.len() == i,
            forall|k: int|
                0 <= k < i ==> ((#[trigger] out@[k]).name@, out@[k].description@) == menu_entry(
                    infos@[k].name@,
                    infos@[k].description@,
                ),
        decreases infos@.len() - i,
    {
        let info: CommandInfo = infos[i];
        let description: &str = if info.description.is_empty() {
            info.name
        } else {
            info.description
        };
        out.push(SlashCommand { name: to_owned(info.name), description: to_owned(description) });
        i = i + 1;
    }
    out
}

/// First wait between reconnect attempts, in seconds; doubles up to the max.
pub const INITIAL_RECONNECT_BACKOFF_SECS: u64 = 1;
/// Longest wait between reconnect attempts, in seconds.
pub const MAX_RECONNECT_BACKOFF_SECS: u64 = 60;
/// How many sessions Discord may reject in a row before it is fatal.
pub const MAX_REJECTED_SESSIONS: u32 = 3;

/// The reconnect loop's state: the wait before the next retry, the session
/// to resume, and how many sessions Discord rejected in a row.
#[derive(Debug)]
pub struct ReconnectState {
    pub backoff_secs: u64,
    pub session: Option<Session>,
    pub rejected_sessions: u32,
}

/// The wait after one more failure: twice the last, capped at the maximum.
pub open spec fn doubled_backoff(secs: int) -> int {
    if 2 * secs <= MAX_RECONNECT_BACKOFF_SECS {
        2 * secs
    } else {
        MAX_RECONNECT_BACKOFF_SECS as int
    }
}

impl ReconnectState {
    /// Waits stay between the first and the longest.
    pub open spec fn wf(&self) -> bool {
        &&& INITIAL_RECONNECT_BACKOFF_SECS <= self.backoff_secs <= MAX_RECONNECT_BACKOFF_SECS
        &&& self.rejected_sessions < MAX_REJECTED_SESSIONS
    }

    /// A fresh loop: shortest wait, nothing to resume, nothing rejected.
    pub fn start() -> (r: Self)
        ensures
            r.wf(),
            r.backoff_secs == INITIAL_RECONNECT_BACKOFF_SECS,
            r.session is None,
            r.rejected_sessions == 0,
    {
        ReconnectState { backoff_secs: INITIAL_RECONNECT_BACKOFF_SECS, session: None, rejected_sessions: 0 }
    }

    /// Sleep out the current wait (the returned seconds) and double it.
    fn take_wait(&mut self) -> (wait: u64)
        requires
            old(self).wf(),
        ensures
            wait == old(self).backoff_secs,
            final(self).backoff_secs == doubled_backoff(old(self).backoff_secs as int),
            final(self).session == old(self).session,
            final(self).rejected_sessions == old(self).rejected_sessions,
    {
        let wait = self.backoff_secs;
        let doubled = self.backoff_secs * 2;
        self.backoff_secs = if doubled <= MAX_RECONNECT_BACKOFF_SECS {
            doubled
        } else {
            MAX_RECONNECT_BACKOFF_SECS
        };
        wait
    }

    /// Connecting failed: forget the session, wait, and try again later.
    /// Returns how long to wait.
    pub fn connect_failed(&mut self) -> (wait: u64)
        requires
            old(self).wf(),
        ensures
            final(self).wf(),
            wait == old(self).backoff_secs,
            final(self).backoff_secs == doubled_backoff(old(self).backoff_secs as int),
            final(self).session is None,
            final(self).rejected_sessions == old(self).rejected_sessions,
    {
        self.session = None;
        self.take_wait()
    }

    /// The connection ended cleanly with a session hand-off: the connection
    /// was healthy, so no stale backoff or rejection count is held against it.
    pub fn reconnect(&mut self, next: Option<Session>)
        ensures
            final(self).wf(),
            final(self).backoff_secs == INITIAL_RECONNECT_BACKOFF_SECS,
            final(self).rejected_sessions == 0,
            final(self).session == next,
    {
        self.backoff_secs = INITIAL_RECONNECT_BACKOFF_SECS;
        self.rejected_sessions = 0;
        self.session = next;
    }

    /// Discord threw the session out. A valid token gets `READY` on the first
    /// try, so the third rejection in a row is fatal; before that, start a
    /// new session after the returned wait.
    pub fn rejected(&mut self) -> (r: Result<u64, BotError>)
        requires
            old(self).wf(),
        ensures
            old(self).rejected_sessions + 1 >= MAX_REJECTED_SESSIONS <==> r is Err,
            match r {
                Ok(wait) => final(self).wf() && wait == old(self).backoff_secs && final(self).backoff_secs
                    == doubled_backoff(old(self).backoff_secs as int) && final(self).session is None
                    && final(self).rejected_sessions == old(self).rejected_sessions + 1,
                Err(e) => e matches BotError::Auth(m)
                    && m@ == "Discord rejected the session repeatedly; check the bot token and intents"@,
            },
    {
        self.rejected_sessions = self.rejected_sessions + 1;
        if self.rejected_sessions >= MAX_REJECTED_SESSIONS {
            return Err(
                BotError::Auth(
                    to_owned("Discord rejected the session repeatedly; check the bot token and intents"),
                ),
            );
        }
        self.session = None;
        Ok(self.take_wait())
    }
}

/// The reconnect backoff never leaves `[1, 60]` seconds and never shrinks on
/// a failure.
pub proof fn law_reconnect_backoff_stays_bounded(secs: int)
    requires
        INITIAL_RECONNECT_BACKOFF_SECS <= secs <= MAX_RECONNECT_BACKOFF_SECS,
    ensures
        INITIAL_RECONNECT_BACKOFF_SECS <= doubled_backoff(secs) <= MAX_RECONNECT_BACKOFF_SECS,
        doubled_backoff(secs) >= secs,
{
}

} // verus!
