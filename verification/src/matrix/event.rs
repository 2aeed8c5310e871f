//! What a Matrix room event tells a handler, how it routes, and what a
//! response sends back.
use crate::common::response::{FileResponse, Response, ResponseModel};
use crate::common::router::{has_key, is_first, is_wildcard, key_is, lemma_first_handler, BuilderModel, Event, EventModel};
use crate::matrix::html::{render_html, response_html};
use crate::text::{has_prefix, is_whitespace, is_ws, opt_view, push_str, slice_string, str_eq, to_chars, to_owned, trim, trim_string, chars_starts_with};
use vstd::prelude::*;

verus! {

broadcast use vstd::string::group_string_axioms;

/// Seconds after which a Matrix typing notice lapses.
pub const MATRIX_ACTION_EXPIRY_SECS: u64 = 4;

/// The bot's membership of a room.
#[derive(Debug, Clone, Copy, PartialEq, Eq, Structural)]
pub enum RoomMembership {
    Joined,
    Invited,
    Left,
    Knocked,
    Banned,
}

/// Whether `sender` is the bot's own user, when the bot knows its id.
pub open spec fn is_own_user(own_user_id: Option<&str>, user: Seq<char>) -> bool {
    own_user_id matches Some(u) && u@ == user
}

/// Whether a room event deserves a handler: it comes from a room the bot has
/// joined, and not from the bot itself. Anything else is noise.
pub fn is_actionable(room: RoomMembership, own_user_id: Option<&str>, sender: &str) -> (r: bool)
    ensures
        r == (room == RoomMembership::Joined && !is_own_user(own_user_id, sender@)),
{
    if room != RoomMembership::Joined {
        return false;
    }
    match own_user_id {
        Some(u) => !str_eq(u, sender),
        None => true,
    }
}

/// Whether a membership event is an invite to the bot itself, into a room it
/// is invited to: only those are joined.
pub fn invite_is_for_me(room: RoomMembership, own_user_id: Option<&str>, state_key: &str) -> (r: bool)
    ensures
        r == (room == RoomMembership::Invited && is_own_user(own_user_id, state_key@)),
{
    if room != RoomMembership::Invited {
        return false;
    }
    match own_user_id {
        Some(u) => str_eq(u, state_key),
        None => false,
    }
}

/// The button id a reaction routes under: reactions share the button table,
/// so one handler can serve a Discord button and a Matrix reaction.
pub open spec fn reaction_id(emoji: Seq<char>) -> Seq<char> {
    "reaction:"@ + emoji
}

/// The button id a reaction is routed under.
pub fn reaction_button_id(emoji: &str) -> (r: String)
    ensures
        r@ == reaction_id(emoji@),
{
    let mut id = to_owned("reaction:");
    push_str(&mut id, emoji);
    id
}

/// The index of the first whitespace character in `s` at or after `i`.
pub open spec fn first_ws_from(s: Seq<char>, i: int) -> Option<int>
    decreases s.len() - i,
{
    if i < 0 || i >= s.len() {
        None
    } else if is_ws(s[i]) {
        Some(i)
    } else {
        first_ws_from(s, i + 1)
    }
}

/// `<prefix><name> <args>` in a message body: the name runs to the first
/// whitespace character, the arguments are the rest, trimmed, when any are
/// left. An empty prefix would make every message a command, and a bare
/// prefix with no name is not a command either.
pub open spec fn command_of(text: Option<Seq<char>>, prefix: Seq<char>) -> (Option<Seq<char>>, Option<Seq<char>>) {
    if prefix.len() == 0 {
        (None, None)
    } else {
        match text {
            None => (None, None),
            Some(t) => if !has_prefix(t, prefix) {
                (None, None)
            } else {
                let rest = t.skip(prefix.len() as int);
                match first_ws_from(rest, 0) {
                    None => if rest.len() == 0 {
                        (None, None)
                    } else {
                        (Some(rest), None)
                    },
                    Some(k) => if k == 0 {
                        (None, None)
                    } else {
                        let args = trim(rest.skip(k + 1));
                        (Some(rest.take(k)), if args.len() > 0 { Some(args) } else { None })
                    },
                }
            },
        }
    }
}

proof fn lemma_first_ws(s: Seq<char>, i: int)
    requires
        0 <= i <= s.len(),
    ensures
        match first_ws_from(s, i) {
            Some(k) => i <= k < s.len() && is_ws(s[k]) && forall|j: int| i <= j < k ==> !is_ws(s[j]),
            None => forall|j: int| i <= j < s.len() ==> !is_ws(s[j]),
        },
    decreases s.len() - i,
{
    if i < s.len() && !is_ws(s[i]) {
        lemma_first_ws(s, i + 1);
    }
}

proof fn lemma_first_ws_at(s: Seq<char>, k: int, i: int)
    requires
        0 <= i <= k <= s.len(),
        forall|j: int| i <= j < k ==> !is_ws(s[j]),
        k < s.len() ==> is_ws(s[k]),
    ensures
        first_ws_from(s, i) == (if k < s.len() { Some(k) } else { None::<int> }),
    decreases k - i,
{
    if i < k {
        lemma_first_ws_at(s, k, i + 1);
    }
}

/// Split `<prefix><name> <args>` out of a message body.
pub fn parse_command(text: Option<&str>, prefix: &str) -> (r: (Option<String>, Option<String>))
    ensures
        (opt_view(r.0), opt_view(r.1)) == command_of(
            match text {
                Some(t) => Some(t@),
                None => None,
            },
            prefix@,
        ),
{
    if prefix.is_empty() {
        return (None, None);
    }
    let t = match text {
        Some(t) => t,
        None => return (None, None),
    };
    let cs = to_chars(t);
    let ps = to_chars(prefix);
    if !chars_starts_with(cs.as_slice(), ps.as_slice()) {
        return (None, None);
    }
    let start = ps.len();
    let ghost rest = cs@.skip(start as int);
    let mut k: usize = start;
    while k < cs.len() && !is_whitespace(cs[k])
        invariant
            start <= k <= cs@.len(),
            rest == cs@.skip(start as int),
            forall|j: int| start <= j < k ==> !is_ws(#[trigger] cs@[j]),
        decreases cs@.len() - k,
    {
        k = k + 1;
    }
    proof {
        assert forall|j: int| 0 <= j < k - start implies !is_ws(#[trigger] rest[j]) by {
            assert(rest[j] == cs@[start + j]);
        }
        if k < cs@.len() {
            assert(rest[k - start] == cs@[k as int]);
        }
        lemma_first_ws_at(rest, k - start, 0);
    }
    if k == start {
        return (None, None);
    }
    let name = slice_string(cs.as_slice(), start, k);
    assert(name@ == rest.take(k - start));
    if k == cs.len() {
        assert(rest.take(k - start) == rest);
        return (Some(name), None);
    }
    let tail = slice_string(cs.as_slice(), k + 1, cs.len());
    assert(tail@ == rest.skip(k - start + 1));
    let tc = to_chars(tail.as_str());
    let args = trim_string(tc.as_slice());
    if args.as_str().is_empty() {
        (Some(name), None)
    } else {
        (Some(name), Some(args))
    }
}

/// What a room event carries for handlers, apart from the room itself.
#[derive(Debug, Clone)]
pub struct MatrixEventInfo {
    pub room_id: String,
    pub user_id: String,
    /// The sender's localpart, standing in for a display name.
    pub user_name: String,
    pub command_name: Option<String>,
    pub command_args: Option<String>,
    /// For reactions, routed as buttons.
    pub button_id: Option<String>,
    pub message_content: Option<String>,
}

/// The info for a room message: a text message's body, with the command it
/// invokes under `prefix`.
pub fn message_info(room_id: &str, sender: &str, localpart: &str, body: Option<&str>, prefix: &str) -> (r: MatrixEventInfo)
    ensures
        r.room_id@ == room_id@,
        r.user_id@ == sender@,
        r.user_name@ == localpart@,
        (opt_view(r.command_name), opt_view(r.command_args)) == command_of(
            match body {
                Some(t) => Some(t@),
                None => None,
            },
            prefix@,
        ),
        r.button_id is None,
        opt_view(r.message_content) == match body {
            Some(t) => Some(t@),
            None => None::<Seq<char>>,
        },
{
    let (command_name, command_args) = parse_command(body, prefix);
    MatrixEventInfo {
        room_id: to_owned(room_id),
        user_id: to_owned(sender),
        user_name: to_owned(localpart),
        command_name,
        command_args,
        button_id: None,
        message_content: match body {
            Some(t) => Some(to_owned(t)),
            None => None,
        },
    }
}

/// The info for a reaction: routed as the button `reaction:<key>`.
pub fn reaction_info(room_id: &str, sender: &str, localpart: &str, key: &str) -> (r: MatrixEventInfo)
    ensures
        r.room_id@ == room_id@,
        r.user_id@ == sender@,
        r.user_name@ == localpart@,
        r.command_name is None,
        r.command_args is None,
        opt_view(r.button_id) == Some(reaction_id(key@)),
        r.message_content is None,
{
    MatrixEventInfo {
        room_id: to_owned(room_id),
        user_id: to_owned(sender),
        user_name: to_owned(localpart),
        command_name: None,
        command_args: None,
        button_id: Some(reaction_button_id(key)),
        message_content: None,
    }
}

/// Where a room message routes: nowhere unless it is a text message, then by
/// its command, else as a message.
pub fn message_event(info: &MatrixEventInfo) -> (r: Option<Event<'_>>)
    ensures
        match r {
            Some(e) => info.message_content is Some && e@ == match opt_view(info.command_name) {
                Some(c) => EventModel::Command(c),
                None => EventModel::Message,
            },
            None => info.message_content is None,
        },
{
    if info.message_content.is_none() {
        return None;
    }
    match &info.command_name {
        Some(c) => Some(Event::Command(c.as_str())),
        None => Some(Event::Message),
    }
}

/// What a response sends to a room.
pub enum MatrixReply {
    /// Nothing to send.
    Nothing,
    /// Upload the file under `filename`; a caption follows as its own message,
    /// since Matrix carries none on an attachment.
    File { file: FileResponse, filename: String },
    /// The text with its HTML rendering.
    Formatted { text: String, html: String },
    /// Plain text.
    Plain(String),
}

/// What a response sends: nothing for empty and acknowledge responses, the
/// file for a file, formatted text when embeds or link buttons need HTML,
/// plain text otherwise, nothing when there is no text either.
pub fn plan_reply(response: &mut Response) -> (r: MatrixReply)
    ensures
        match old(response)@ {
            ResponseModel::File(f) => r matches MatrixReply::File { file, filename } && file == f
                && filename@ == match opt_view(f.filename) {
                Some(n) => n,
                None => "file"@,
            },
            ResponseModel::Message(m) => if m.content.len() == 0 && m.embeds.len() == 0
                && m.components.len() == 0 {
                r is Nothing
            } else {
                match response_html(m.content, m.embeds, m.components) {
                    Some(h) => r matches MatrixReply::Formatted { text, html } && text@ == m.content
                        && html@ == h,
                    None => if m.content.len() > 0 {
                        r matches MatrixReply::Plain(t) && t@ == m.content
                    } else {
                        r is Nothing
                    },
                }
            },
            _ => r is Nothing,
        },
{
    if response.is_empty() || response.is_acknowledge() {
        return MatrixReply::Nothing;
    }
    match response.take_file() {
        Some(file) => {
            let filename = match &file.filename {
                Some(n) => n.clone(),
                None => to_owned("file"),
            };
            return MatrixReply::File { file, filename };
        },
        None => {},
    }
    let content: &str = match response.content() {
        Some(c) => c,
        None => "",
    };
    proof {
        reveal_strlit("");
    }
    match render_html(content, response.embeds(), response.components()) {
        Some(html) => MatrixReply::Formatted { text: to_owned(content), html },
        None => if content.is_empty() {
            MatrixReply::Nothing
        } else {
            MatrixReply::Plain(to_owned(content))
        },
    }
}

/// A reaction reaches the handler registered for its emoji: registering the
/// button `reaction_button_id(emoji)` and reacting with that emoji meet in
/// the same routing entry (unless an earlier handler already holds that id,
/// or the id ends in `*` and so registers a prefix).
pub proof fn law_reaction_routes_to_its_registration<H>(m: BuilderModel<H>, emoji: Seq<char>, h: H)
    requires
        m.wf(),
        !has_key(m.buttons, reaction_id(emoji)),
        !is_wildcard(reaction_id(emoji)),
    ensures
        m.add_button(reaction_id(emoji), h).routes(EventModel::Button(reaction_id(emoji))) == Some(h),
{
    let id = reaction_id(emoji);
    let m1 = m.add_button(id, h);
    let n = m.buttons.len() as int;
    assert(m1.buttons == m.buttons.push((id, h)));
    assert(m1.buttons[n].0 == id);
    assert(has_key(m1.buttons, id));
    assert forall|k: int| 0 <= k < n implies !(key_is(id))(#[trigger] m1.buttons[k].0) by {
        assert(m1.buttons[k] == m.buttons[k]);
    }
    assert(is_first(m1.buttons, key_is(id), n));
    lemma_first_handler(m1.buttons, key_is(id), n);
}

} // verus!
