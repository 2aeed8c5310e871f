//! What a Telegram update tells a handler: chat, sender, command, button and
//! text.
use crate::telegram::action::TelegramActionSender;
use crate::telegram::client::TelegramClient;
use crate::telegram::types::{Chat, EntityType, Message, MessageEntity, Update, UpdateKind, User};
use crate::telegram::utf16::{utf16_boundary, utf16_char_boundary, utf8_len, utf8_prefix_len};
use crate::text::{
    decimal, find_char_from, i64_to_string, opt_view, push_str, slice_string, to_chars, to_owned,
    trim, trim_string,
};
use vstd::prelude::*;

verus! {

broadcast use vstd::string::group_string_axioms;

/// The chat to reply in: messages and reactions have one, a button press has
/// its message's chat (none for inline-message callbacks).
pub open spec fn update_chat_id(u: Update) -> Option<i64> {
    match u.kind {
        UpdateKind::Message(m) => Some(m.chat.id),
        UpdateKind::EditedMessage(m) => Some(m.chat.id),
        UpdateKind::CallbackQuery(cq) => match cq.message {
            Some(m) => Some(m.chat.id),
            None => None,
        },
        UpdateKind::MessageReaction(r) => Some(r.chat.id),
        UpdateKind::Unknown => None,
    }
}

/// Telegram only guarantees `first_name`; the surname follows after a space.
pub open spec fn user_display_name(u: User) -> Seq<char> {
    match u.last_name {
        Some(last) => u.first_name@ + " "@ + last@,
        None => u.first_name@,
    }
}

/// The acting user of an update.
pub open spec fn update_user(u: Update) -> Option<User> {
    match u.kind {
        UpdateKind::Message(m) => m.from,
        UpdateKind::EditedMessage(m) => m.from,
        UpdateKind::CallbackQuery(cq) => Some(cq.from),
        UpdateKind::MessageReaction(r) => r.user,
        UpdateKind::Unknown => None,
    }
}

/// The chat acting as itself, for anonymous reactions.
pub open spec fn update_actor_chat(u: Update) -> Option<Chat> {
    match u.kind {
        UpdateKind::MessageReaction(r) => r.actor_chat,
        _ => None,
    }
}

/// The sender's id and name: the user's, else the acting chat's (its title,
/// else its username), else empty.
pub open spec fn update_sender(u: Update) -> (Seq<char>, Seq<char>) {
    match update_user(u) {
        Some(user) => (decimal(user.id as int), user_display_name(user)),
        None => match update_actor_chat(u) {
            Some(c) => (
                decimal(c.id as int),
                match opt_view(c.title) {
                    Some(t) => t,
                    None => match opt_view(c.username) {
                        Some(n) => n,
                        None => Seq::empty(),
                    },
                },
            ),
            None => (Seq::empty(), Seq::empty()),
        },
    }
}

/// A command entity: a bot command that opens the message.
pub open spec fn opens_with_command(e: MessageEntity) -> bool {
    e.entity_type == EntityType::BotCommand && e.offset == 0
}

/// The first entity from index `i` on that opens the message with a command.
pub open spec fn first_command_from(es: Seq<MessageEntity>, i: int) -> Option<MessageEntity>
    decreases es.len() - i,
{
    if i < 0 || i >= es.len() {
        None
    } else if opens_with_command(es[i]) {
        Some(es[i])
    } else {
        first_command_from(es, i + 1)
    }
}

/// `s` with its leading slashes removed.
pub open spec fn strip_slashes(s: Seq<char>) -> Seq<char>
    decreases s.len(),
{
    if s.len() > 0 && s[0] == '/' {
        strip_slashes(s.drop_first())
    } else {
        s
    }
}

/// The text before the first `@`, or all of it.
pub open spec fn before_at(s: Seq<char>) -> Seq<char> {
    match find_char_from(s, '@', 0) {
        Some(k) => s.take(k),
        None => s,
    }
}

/// `/command@bot args` in a message text: the command's name without slashes
/// or `@bot` suffix, and the trimmed arguments when there are any. The
/// command entity must open the message and cover a whole number of
/// characters; its length counts UTF-16 units.
pub open spec fn command_in(text: Seq<char>, entities: Seq<MessageEntity>) -> (Option<Seq<char>>, Option<Seq<char>>) {
    match first_command_from(entities, 0) {
        None => (None, None),
        Some(e) => if e.length <= 0 {
            (None, None)
        } else {
            match utf16_boundary(text, e.length as int) {
                None => (None, None),
                Some(k) => {
                    let name = before_at(strip_slashes(text.take(k)));
                    let args = trim(text.skip(k));
                    if name.len() == 0 {
                        (None, None)
                    } else {
                        (Some(name), if args.len() > 0 { Some(args) } else { None })
                    }
                },
            }
        },
    }
}

/// The command an update invokes: only new messages with text and entities
/// carry one.
pub open spec fn update_command(u: Update) -> (Option<Seq<char>>, Option<Seq<char>>) {
    match u.kind {
        UpdateKind::Message(m) => match (m.text, m.entities) {
            (Some(t), Some(es)) => command_in(t@, es@),
            _ => (None, None),
        },
        _ => (None, None),
    }
}

/// The forum topic an update belongs to.
pub open spec fn update_thread_id(u: Update) -> Option<i64> {
    match u.kind {
        UpdateKind::Message(m) => m.message_thread_id,
        UpdateKind::EditedMessage(m) => m.message_thread_id,
        UpdateKind::CallbackQuery(cq) => match cq.message {
            Some(m) => m.message_thread_id,
            None => None,
        },
        _ => None,
    }
}

/// A message's text, else its caption.
pub open spec fn message_text(m: Message) -> Option<Seq<char>> {
    match opt_view(m.text) {
        Some(t) => Some(t),
        None => opt_view(m.caption),
    }
}

/// The text a handler sees for an update.
pub open spec fn update_content(u: Update) -> Option<Seq<char>> {
    match u.kind {
        UpdateKind::Message(m) => message_text(m),
        UpdateKind::EditedMessage(m) => message_text(m),
        UpdateKind::CallbackQuery(cq) => match cq.message {
            Some(m) => message_text(m),
            None => None,
        },
        _ => None,
    }
}

/// Telegram's user display name: first name, then the surname when present.
pub fn display_name(user: &User) -> (r: String)
    ensures
        r@ == user_display_name(*user),
{
    match &user.last_name {
        Some(last) => {
            let mut name = to_owned(user.first_name.as_str());
            push_str(&mut name, " ");
            push_str(&mut name, last.as_str());
            name
        },
        None => to_owned(user.first_name.as_str()),
    }
}

proof fn lemma_first_command_from(es: Seq<MessageEntity>, i: int)
    requires
        0 <= i <= es.len(),
    ensures
        match first_command_from(es, i) {
            Some(e) => exists|k: int| i <= k < es.len() && es[k] == e && opens_with_command(e),
            None => forall|k: int| i <= k < es.len() ==> !opens_with_command(#[trigger] es[k]),
        },
    decreases es.len() - i,
{
    if i < es.len() && !opens_with_command(es[i]) {
        lemma_first_command_from(es, i + 1);
    }
}

fn find_command_entity(es: &[MessageEntity]) -> (r: Option<usize>)
    ensures
        match r {
            Some(k) => k < es@.len() && first_command_from(es@, 0) == Some(es@[k as int]),
            None => first_command_from(es@, 0) is None,
        },
{
    let mut i: usize = 0;
    while i < es.len()
        invariant
            i <= es@.len(),
            first_command_from(es@, i as int) == first_command_from(es@, 0),
        decreases es@.len() - i,
    {
        let e = &es[i];
        if e.entity_type == EntityType::BotCommand && e.offset == 0 {
            return Some(i);
        }
        i = i + 1;
    }
    None
}

fn strip_slashes_at(s: &[char]) -> (r: usize)
    ensures
        r <= s@.len(),
        strip_slashes(s@) == s@.skip(r as int),
{
    let mut i: usize = 0;
    assert(s@.skip(0) == s@);
    while i < s.len() && s[i] == '/'
        invariant
            i <= s@.len(),
            strip_slashes(s@) == strip_slashes(s@.skip(i as int)),
        decreases s@.len() - i,
    {
        assert(s@.skip(i as int).drop_first() == s@.skip(i + 1));
        i = i + 1;
    }
    i
}

/// Pull `/command@bot args` out of a message's text and entities.
///
/// Entity offsets and lengths come straight off the wire and are counted in
/// UTF-16 code units; every index is checked, so a malformed update yields
/// no command rather than a panic.
pub fn command_from_text(text: &str, entities: &[MessageEntity]) -> (r: (Option<String>, Option<String>))
    ensures
        (opt_view(r.0), opt_view(r.1)) == command_in(text@, entities@),
{
    let k = match find_command_entity(entities) {
        Some(k) => k,
        None => return (None, None),
    };
    let length = entities[k].length;
    if length <= 0 {
        return (None, None);
    }
    let cs = to_chars(text);
    let split = match utf16_char_boundary(cs.as_slice(), length as u128) {
        Some(s) => s,
        None => return (None, None),
    };
    let ghost head = cs@.take(split as int);
    let head_chars = slice_string(cs.as_slice(), 0, split);
    assert(head_chars@ == head);
    let hc = to_chars(head_chars.as_str());
    let from = strip_slashes_at(hc.as_slice());
    let ghost stripped = strip_slashes(head);
    let mut end: usize = from;
    while end < hc.len() && hc[end] != '@'
        invariant
            from <= end <= hc@.len(),
            hc@ == head,
            stripped == hc@.skip(from as int),
            forall|j: int| from <= j < end ==> hc@[j] != '@',
        decreases hc@.len() - end,
    {
        end = end + 1;
    }
    proof {
        let n = stripped.len() as int;
        let e = end - from;
        assert forall|j: int| 0 <= j < e implies stripped[j] != '@' by {
            assert(stripped[j] == hc@[from + j]);
        }
        if end < hc@.len() {
            assert(stripped[e] == '@');
            lemma_find_at(stripped, e);
            assert(before_at(stripped) == stripped.take(e));
        } else {
            lemma_find_none(stripped);
            assert(before_at(stripped) == stripped);
        }
        assert(stripped.take(e) == hc@.subrange(from as int, end as int));
        assert(stripped == hc@.subrange(from as int, hc@.len() as int));
    }
    if end == from {
        return (None, None);
    }
    let name = slice_string(hc.as_slice(), from, end);
    assert(cs@.skip(split as int) == cs@.subrange(split as int, cs@.len() as int));
    let rest = slice_string(cs.as_slice(), split, cs.len());
    let rc = to_chars(rest.as_str());
    let args = trim_string(rc.as_slice());
    if args.as_str().is_empty() {
        (Some(name), None)
    } else {
        (Some(name), Some(args))
    }
}

proof fn lemma_find_at(s: Seq<char>, e: int)
    requires
        0 <= e < s.len(),
        s[e] == '@',
        forall|j: int| 0 <= j < e ==> s[j] != '@',
    ensures
        find_char_from(s, '@', 0) == Some(e),
{
    lemma_find_at_from(s, e, 0);
}

proof fn lemma_find_at_from(s: Seq<char>, e: int, i: int)
    requires
        0 <= i <= e < s.len(),
        s[e] == '@',
        forall|j: int| i <= j < e ==> s[j] != '@',
    ensures
        find_char_from(s, '@', i) == Some(e),
    decreases e - i,
{
    if i < e {
        lemma_find_at_from(s, e, i + 1);
    }
}

proof fn lemma_find_none(s: Seq<char>)
    requires
        forall|j: int| 0 <= j < s.len() ==> s[j] != '@',
    ensures
        find_char_from(s, '@', 0) is None,
{
    lemma_find_none_from(s, 0);
}

proof fn lemma_find_none_from(s: Seq<char>, i: int)
    requires
        0 <= i <= s.len(),
        forall|j: int| i <= j < s.len() ==> s[j] != '@',
    ensures
        find_char_from(s, '@', i) is None,
    decreases s.len() - i,
{
    if i < s.len() {
        lemma_find_none_from(s, i + 1);
    }
}

/// The command an update invokes, with its arguments.
pub fn extract_command(update: &Update) -> (r: (Option<String>, Option<String>))
    ensures
        (opt_view(r.0), opt_view(r.1)) == update_command(*update),
{
    match &update.kind {
        UpdateKind::Message(message) => match (&message.text, &message.entities) {
            (Some(text), Some(entities)) => command_from_text(text.as_str(), entities.as_slice()),
            _ => (None, None),
        },
        _ => (None, None),
    }
}

/// Convert a UTF-16 code-unit offset into a byte index, or `None` if it runs
/// past the end of the string or lands mid-character.
pub fn utf16_offset_to_byte_index(text: &str, offset: usize) -> (r: Option<usize>)
    requires
        utf8_len(text@) <= usize::MAX,
    ensures
        match utf16_boundary(text@, offset as int) {
            Some(k) => r == Some(utf8_len(text@.take(k)) as usize),
            None => r is None,
        },
{
    if offset == 0 {
        proof {
            crate::telegram::utf16::lemma_utf16_boundary_unique(text@, 0, 0);
        }
        return Some(0);
    }
    let cs = to_chars(text);
    match utf16_char_boundary(cs.as_slice(), offset as u128) {
        Some(k) => Some(utf8_prefix_len(cs.as_slice(), k)),
        None => None,
    }
}

/// The per-update values a Telegram context reports.
pub struct ContextView {
    pub update: Update,
    pub token: Seq<char>,
    pub channel_id: Seq<char>,
    pub chat_id: Option<i64>,
    pub user_id: Seq<char>,
    pub user_name: Seq<char>,
    pub command_name: Option<Seq<char>>,
    pub command_args: Option<Seq<char>>,
}

/// Telegram context data: the update plus what handlers read off it,
/// derived once at construction.
pub struct TelegramContextData {
    pub update: Update,
    client: TelegramClient,
    channel_id: String,
    chat_id: Option<i64>,
    user_id: String,
    user_name: String,
    command_name: Option<String>,
    command_args: Option<String>,
}

impl View for TelegramContextData {
    type V = ContextView;

    closed spec fn view(&self) -> ContextView {
        ContextView {
            update: self.update,
            token: self.client@,
            channel_id: self.channel_id@,
            chat_id: self.chat_id,
            user_id: self.user_id@,
            user_name: self.user_name@,
            command_name: opt_view(self.command_name),
            command_args: opt_view(self.command_args),
        }
    }
}

fn chat_name(c: &Chat) -> (r: String)
    ensures
        r@ == match opt_view(c.title) {
            Some(t) => t,
            None => match opt_view(c.username) {
                Some(n) => n,
                None => Seq::<char>::empty(),
            },
        },
{
    match &c.title {
        Some(t) => to_owned(t.as_str()),
        None => match &c.username {
            Some(n) => to_owned(n.as_str()),
            None => String::new(),
        },
    }
}

fn opt_text(o: &Option<String>) -> (r: Option<&str>)
    ensures
        match r {
            Some(t) => opt_view(*o) == Some(t@),
            None => o is None,
        },
{
    match o {
        Some(s) => Some(s.as_str()),
        None => None,
    }
}

fn message_content_of(m: &Message) -> (r: Option<&str>)
    ensures
        match r {
            Some(t) => message_text(*m) == Some(t@),
            None => message_text(*m) is None,
        },
{
    match opt_text(&m.text) {
        Some(t) => Some(t),
        None => opt_text(&m.caption),
    }
}

impl TelegramContextData {
    /// The context for one update: its chat, sender and command, computed
    /// once.
    pub fn new(update: Update, client: TelegramClient) -> (r: Self)
        ensures
            r@ == (ContextView {
                update: update,
                token: client@,
                channel_id: match update_chat_id(update) {
                    Some(id) => decimal(id as int),
                    None => Seq::empty(),
                },
                chat_id: update_chat_id(update),
                user_id: update_sender(update).0,
                user_name: update_sender(update).1,
                command_name: update_command(update).0,
                command_args: update_command(update).1,
            }),
    {
        let (chat_id, user, actor_chat): (Option<i64>, Option<&User>, Option<&Chat>) = match &update.kind {
            UpdateKind::Message(m) => (Some(m.chat.id), m.from.as_ref(), None),
            UpdateKind::EditedMessage(m) => (Some(m.chat.id), m.from.as_ref(), None),
            UpdateKind::CallbackQuery(cq) => (
                match &cq.message {
                    Some(m) => Some(m.chat.id),
                    None => None,
                },
                Some(&cq.from),
                None,
            ),
            UpdateKind::MessageReaction(r) => (Some(r.chat.id), r.user.as_ref(), r.actor_chat.as_ref()),
            UpdateKind::Unknown => (None, None, None),
        };
        let (user_id, user_name) = match user {
            Some(u) => (i64_to_string(u.id), display_name(u)),
            None => match actor_chat {
                Some(c) => (i64_to_string(c.id), chat_name(c)),
                None => (String::new(), String::new()),
            },
        };
        let (command_name, command_args) = extract_command(&update);
        let channel_id = match chat_id {
            Some(id) => i64_to_string(id),
            None => String::new(),
        };
        Self { channel_id, chat_id, user_id, user_name, command_name, command_args, update, client }
    }

    /// The update being handled.
    pub fn update(&self) -> (r: &Update)
        ensures
            *r == self@.update,
    {
        &self.update
    }

    /// Get the client for making API calls
    pub fn client(&self) -> (r: &TelegramClient)
        ensures
            r@ == self@.token,
    {
        &self.client
    }

    /// The typing indicator for this update's chat and topic; none when
    /// there is no chat to show it in.
    pub fn action_sender(&self) -> (r: Option<TelegramActionSender>)
        ensures
            match self@.chat_id {
                Some(id) => r matches Some(s) && s@ == (self@.token, id, update_thread_id(self@.update)),
                None => r is None,
            },
    {
        match self.chat_id {
            Some(id) => Some(TelegramActionSender::new(self.client.clone(), id, self.thread_id())),
            None => None,
        }
    }

    /// The numeric chat ID, absent for updates with no chat to reply in
    pub fn chat_id(&self) -> (r: Option<i64>)
        ensures
            r == self@.chat_id,
    {
        self.chat_id
    }

    /// The forum topic this update belongs to, when the chat has topics.
    pub fn thread_id(&self) -> (r: Option<i64>)
        ensures
            r == update_thread_id(self@.update),
    {
        match &self.update.kind {
            UpdateKind::Message(m) => m.message_thread_id,
            UpdateKind::EditedMessage(m) => m.message_thread_id,
            UpdateKind::CallbackQuery(cq) => match &cq.message {
                Some(m) => m.message_thread_id,
                None => None,
            },
            _ => None,
        }
    }

    /// The chat id as text, empty when there is no chat.
    pub fn channel_id(&self) -> (r: &str)
        ensures
            r@ == self@.channel_id,
    {
        self.channel_id.as_str()
    }

    /// The sender's id as text.
    pub fn user_id(&self) -> (r: &str)
        ensures
            r@ == self@.user_id,
    {
        self.user_id.as_str()
    }

    /// The sender's display name.
    pub fn user_name(&self) -> (r: &str)
        ensures
            r@ == self@.user_name,
    {
        self.user_name.as_str()
    }

    /// The invoked command's name.
    pub fn command_name(&self) -> (r: Option<&str>)
        ensures
            match r {
                Some(t) => self@.command_name == Some(t@),
                None => self@.command_name is None,
            },
    {
        opt_text(&self.command_name)
    }

    /// The invoked command's arguments.
    pub fn command_args(&self) -> (r: Option<&str>)
        ensures
            match r {
                Some(t) => self@.command_args == Some(t@),
                None => self@.command_args is None,
            },
    {
        opt_text(&self.command_args)
    }

    /// The pressed button's callback data.
    pub fn button_id(&self) -> (r: Option<&str>)
        ensures
            match self@.update.kind {
                UpdateKind::CallbackQuery(cq) => match r {
                    Some(t) => opt_view(cq.data) == Some(t@),
                    None => cq.data is None,
                },
                _ => r is None,
            },
    {
        match &self.update.kind {
            UpdateKind::CallbackQuery(cq) => opt_text(&cq.data),
            _ => None,
        }
    }

    /// The text the update carries: a message's text or caption, or the text
    /// of the message a pressed button sits under.
    pub fn message_content(&self) -> (r: Option<&str>)
        ensures
            match r {
                Some(t) => update_content(self@.update) == Some(t@),
                None => update_content(self@.update) is None,
            },
    {
        match &self.update.kind {
            UpdateKind::Message(m) => message_content_of(m),
            UpdateKind::EditedMessage(m) => message_content_of(m),
            UpdateKind::CallbackQuery(cq) => match &cq.message {
                Some(m) => message_content_of(m),
                None => None,
            },
            _ => None,
        }
    }
}

} // verus!
