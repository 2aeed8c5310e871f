//! The Telegram adapter's decisions: how updates route, what a response
//! sends, the command menu, and the long-poll loop's state.
use crate::common::component::{Button, Component};
use crate::common::embed::{Embed, EmbedField};
use crate::common::response::{FileResponse, Response, ResponseModel};
use crate::common::router::{BotBuilder, CommandInfo, Event, EventModel};
use crate::telegram::event::{TelegramContextData, update_command};
use crate::telegram::types::{BotCommand, InlineKeyboardButton, InlineKeyboardMarkup, ReplyMarkup, UpdateKind};
use crate::text::{opt_view, push_str, to_owned};
use vstd::prelude::*;

verus! {

/// An inline button by its label, link and callback data.
pub type InlineView = (Seq<char>, Option<Seq<char>>, Option<Seq<char>>);

/// The inline button a component button becomes: a link when it has a URL,
/// else a callback when it has an id, else nothing.
pub open spec fn inline_button(b: Button) -> Option<InlineView> {
    match (opt_view(b.url), opt_view(b.custom_id)) {
        (Some(u), _) => Some((b.label@, Some(u), None)),
        (None, Some(c)) => Some((b.label@, None, Some(c))),
        (None, None) => None,
    }
}

/// The inline buttons of one action row, in order.
pub open spec fn inline_row(cs: Seq<Component>) -> Seq<InlineView>
    decreases cs.len(),
{
    if cs.len() == 0 {
        Seq::empty()
    } else {
        let rest = inline_row(cs.drop_last());
        match cs.last() {
            Component::Button(b) => match inline_button(b) {
                Some(v) => rest.push(v),
                None => rest,
            },
            _ => rest,
        }
    }
}

/// Telegram keyboard rows for a response's components: an action row with
/// buttons becomes a row, a bare button a row of its own; select menus and
/// empty rows are skipped.
pub open spec fn inline_rows(cs: Seq<Component>) -> Seq<Seq<InlineView>>
    decreases cs.len(),
{
    if cs.len() == 0 {
        Seq::empty()
    } else {
        let rest = inline_rows(cs.drop_last());
        match cs.last() {
            Component::ActionRow(row) => {
                let r = inline_row(row.components@);
                if r.len() > 0 {
                    rest.push(r)
                } else {
                    rest
                }
            },
            Component::Button(b) => match inline_button(b) {
                Some(v) => rest.push(seq![v]),
                None => rest,
            },
            Component::SelectMenu(_) => rest,
        }
    }
}

/// An inline button, by its view.
pub open spec fn inline_view(b: InlineKeyboardButton) -> InlineView {
    (b.text@, opt_view(b.url), opt_view(b.callback_data))
}

/// Keyboard rows, by their buttons' views.
pub open spec fn keyboard_view(rows: Seq<Vec<InlineKeyboardButton>>) -> Seq<Seq<InlineView>> {
    rows.map_values(|r: Vec<InlineKeyboardButton>| r@.map_values(|b: InlineKeyboardButton| inline_view(b)))
}

fn to_inline(button: &Button) -> (r: Option<InlineKeyboardButton>)
    ensures
        match r {
            Some(b) => inline_button(*button) == Some(inline_view(b)),
            None => inline_button(*button) is None,
        },
{
    match (&button.url, &button.custom_id) {
        (Some(url), _) => Some(InlineKeyboardButton::url(button.label.as_str(), url.as_str())),
        (None, Some(custom_id)) => Some(InlineKeyboardButton::callback(button.label.as_str(), custom_id.as_str())),
        (None, None) => None,
    }
}

fn inline_buttons(cs: &[Component]) -> (r: Vec<InlineKeyboardButton>)
    ensures
        r@.map_values(|b: InlineKeyboardButton| inline_view(b)) == inline_row(cs@),
{
    let mut out: Vec<InlineKeyboardButton> = Vec::new();
    let mut i: usize = 0;
    while i < cs.len()
        invariant
            i <= cs@.len(),
            out@.map_values(|b: InlineKeyboardButton| inline_view(b)) == inline_row(cs@.take(i as int)),
        decreases cs@.len() - i,
    {
        let ghost before = out@;
        assert(cs@.take(i + 1).drop_last() == cs@.take(i as int));
        match &cs[i] {
            Component::Button(button) => {
                match to_inline(button) {
                    Some(b) => {
                        out.push(b);
                        assert(out@.map_values(|b: InlineKeyboardButton| inline_view(b)) == before.map_values(
                            |b: InlineKeyboardButton| inline_view(b),
                        ).push(inline_view(b)));
                    },
                    None => {},
                }
            },
            _ => {},
        }
        i = i + 1;
    }
    assert(cs@.take(cs@.len() as int) == cs@);
    out
}

/// The keyboard rows for a list of components.
pub fn keyboard_rows(components: &[Component]) -> (r: Vec<Vec<InlineKeyboardButton>>)
    ensures
        keyboard_view(r@) == inline_rows(components@),
{
    let mut rows: Vec<Vec<InlineKeyboardButton>> = Vec::new();
    let mut i: usize = 0;
    while i < components.len()
        invariant
            i <= components@.len(),
            keyboard_view(rows@) == inline_rows(components@.take(i as int)),
        decreases components@.len() - i,
    {
        let ghost before = rows@;
        assert(components@.take(i + 1).drop_last() == components@.take(i as int));
        match &components[i] {
            Component::ActionRow(row) => {
                let r = inline_buttons(row.components.as_slice());
                if r.len() > 0 {
                    rows.push(r);
                    assert(keyboard_view(rows@) == keyboard_view(before).push(
                        r@.map_values(|b: InlineKeyboardButton| inline_view(b)),
                    ));
                }
            },
            Component::Button(button) => {
                match to_inline(button) {
                    Some(b) => {
                        let mut single: Vec<InlineKeyboardButton> = Vec::new();
                        single.push(b);
                        rows.push(single);
                        assert(single@.map_values(|b: InlineKeyboardButton| inline_view(b)) == seq![inline_view(b)]);
                        assert(keyboard_view(rows@) == keyboard_view(before).push(seq![inline_view(b)]));
                    },
                    None => {},
                }
            },
            Component::SelectMenu(_) => {},
        }
        i = i + 1;
    }
    assert(components@.take(components@.len() as int) == components@);
    rows
}

/// Flatten a response's components into Telegram's inline keyboard; `None`
/// when no button survives.
pub fn build_reply_markup(response: &Response) -> (r: Option<ReplyMarkup>)
    ensures
        match r {
            Some(ReplyMarkup::InlineKeyboard(m)) => keyboard_view(m.inline_keyboard@) == inline_rows(
                response_components(response@),
            ) && m.inline_keyboard@.len() > 0,
            None => inline_rows(response_components(response@)).len() == 0,
        },
{
    let rows = keyboard_rows(response.components());
    if rows.len() == 0 {
        None
    } else {
        Some(ReplyMarkup::InlineKeyboard(InlineKeyboardMarkup { inline_keyboard: rows }))
    }
}

/// A response's components; only message responses have any.
pub open spec fn response_components(m: ResponseModel) -> Seq<Component> {
    match m {
        ResponseModel::Message(msg) => msg.components,
        _ => Seq::empty(),
    }
}

/// A command menu entry: Telegram rejects an empty description, so the name
/// stands in for a missing one.
pub open spec fn menu_entry(name: Seq<char>, description: Seq<char>) -> (Seq<char>, Seq<char>) {
    (name, if description.len() == 0 { name } else { description })
}

/// The command menu entries implied by the registered command handlers, in
/// registration order.
pub fn menu_commands<H>(builder: &BotBuilder<H>) -> (r: Vec<BotCommand>)
    ensures
        r@.len() == builder@.commands.len(),
        forall|i: int|
            0 <= i < r@.len() ==> ((#[trigger] r@[i]).command@, r@[i].description@) == menu_entry(
                builder@.commands[i].0,
                match builder@.descriptions[i] {
                    Some(d) => d,
                    None => Seq::<char>::empty(),
                },
            ),
{
    let infos = builder.commands();
    let mut out: Vec<BotCommand> = Vec::new();
    let mut i: usize = 0;
    while i < infos.len()
        invariant
            i <= infos@.len(),
            infos@.len() == builder@.commands.len(),
            forall|k: int|
                0 <= k < infos@.len() ==> (#[trigger] infos@[k]).name@ == builder@.commands[k].0
                    && infos@[k].description@ == match builder@.descriptions[k] {
                    Some(d) => d,
                    None => Seq::<char>::empty(),
                },
            out@.len() == i,
            forall|k: int|
                0 <= k < i ==> ((#[trigger] out@[k]).command@, out@[k].description@) == menu_entry(
                    infos@[k].name@,
                    infos@[k].description@,
                ),
        decreases infos@.len() - i,
    {
        let info: CommandInfo = infos[i];
        let description: &str = if info.description.is_empty() {
            info.name
        } else {
            info.description
        };
        out.push(BotCommand::new(info.name, description));
        i = i + 1;
    }
    out
}

/// Where an update routes: a button press by its data (never the message
/// handler, even without data), a message opening with a command by the
/// command, other messages, edits and reactions as messages; unmodelled
/// update kinds nowhere.
pub open spec fn update_route(kind: UpdateKind, command: Option<Seq<char>>, data: Option<Seq<char>>) -> Option<EventModel> {
    match kind {
        UpdateKind::Unknown => None,
        UpdateKind::CallbackQuery(_) => match data {
            Some(d) => Some(EventModel::Button(d)),
            None => None,
        },
        _ => match command {
            Some(c) => Some(EventModel::Command(c)),
            None => Some(EventModel::Message),
        },
    }
}

/// The router event for a context, if the update routes anywhere.
pub fn routed_event(data: &TelegramContextData) -> (r: Option<Event<'_>>)
    ensures
        match r {
            Some(e) => update_route(data@.update.kind, data@.command_name, button_data(data@.update.kind)) == Some(e@),
            None => update_route(data@.update.kind, data@.command_name, button_data(data@.update.kind)) is None,
        },
{
    match &data.update().kind {
        UpdateKind::Unknown => None,
        UpdateKind::CallbackQuery(_) => match data.button_id() {
            Some(b) => Some(Event::Button(b)),
            None => None,
        },
        _ => match data.command_name() {
            Some(c) => Some(Event::Command(c)),
            None => Some(Event::Message),
        },
    }
}

/// A button press's callback data.
pub open spec fn button_data(kind: UpdateKind) -> Option<Seq<char>> {
    match kind {
        UpdateKind::CallbackQuery(cq) => opt_view(cq.data),
        _ => None,
    }
}

/// `acc` with `part` added after `sep`; an empty part adds nothing, and the
/// first part needs no separator.
pub open spec fn join_step(acc: Seq<char>, part: Seq<char>, sep: Seq<char>) -> Seq<char> {
    if part.len() == 0 {
        acc
    } else if acc.len() == 0 {
        part
    } else {
        acc + sep + part
    }
}

/// The text of an optional string, empty when absent.
pub open spec fn opt_text(o: Option<String>) -> Seq<char> {
    match opt_view(o) {
        Some(t) => t,
        None => Seq::empty(),
    }
}

/// One embed field as a line: `name: value`.
pub open spec fn field_line(f: EmbedField) -> Seq<char> {
    f.name@ + ": "@ + f.value@
}

/// `acc` followed by one line per field, in order.
pub open spec fn field_lines(acc: Seq<char>, fs: Seq<EmbedField>) -> Seq<char>
    decreases fs.len(),
{
    if fs.len() == 0 {
        acc
    } else {
        join_step(field_lines(acc, fs.drop_last()), field_line(fs.last()), "\n"@)
    }
}

/// An embed as plain text, one line each for the title, the description,
/// every field and the footer, skipping what it lacks.
pub open spec fn embed_text(e: Embed) -> Seq<char> {
    let head = join_step(opt_text(e.title), opt_text(e.description), "\n"@);
    let footer = match e.footer {
        Some(f) => f.text@,
        None => Seq::empty(),
    };
    join_step(field_lines(head, e.fields@), footer, "\n"@)
}

/// A message's text on Telegram: its content, then each embed as text, the
/// blocks parted by a blank line.
pub open spec fn reply_text(content: Seq<char>, embeds: Seq<Embed>) -> Seq<char>
    decreases embeds.len(),
{
    if embeds.len() == 0 {
        content
    } else {
        join_step(reply_text(content, embeds.drop_last()), embed_text(embeds.last()), "\n\n"@)
    }
}

/// Add `part` to `out` after `sep`, as `join_step` says.
fn join_part(out: &mut String, part: &str, sep: &str)
    ensures
        final(out)@ == join_step(old(out)@, part@, sep@),
{
    if part.is_empty() {
        return;
    }
    if out.as_str().is_empty() {
        push_str(out, part);
    } else {
        push_str(out, sep);
        push_str(out, part);
    }
}

/// The text of an optional string.
fn opt_str(o: &Option<String>) -> (r: &str)
    ensures
        r@ == opt_text(*o),
{
    match o {
        Some(t) => t.as_str(),
        None => {
            proof {
                reveal_strlit("");
            }
            ""
        },
    }
}

/// Render an embed as plain text.
pub fn render_embed_text(embed: &Embed) -> (r: String)
    ensures
        r@ == embed_text(*embed),
{
    let mut out = String::new();
    join_part(&mut out, opt_str(&embed.title), "");
    join_part(&mut out, opt_str(&embed.description), "\n");
    let ghost head = out@;
    assert(head == join_step(opt_text(embed.title), opt_text(embed.description), "\n"@));
    let fields = embed.fields.as_slice();
    let mut i: usize = 0;
    while i < fields.len()
        invariant
            i <= fields@.len(),
            fields@ == embed.fields@,
            out@ == field_lines(head, fields@.take(i as int)),
        decreases fields@.len() - i,
    {
        assert(fields@.take(i + 1).drop_last() == fields@.take(i as int));
        let mut line = to_owned(fields[i].name.as_str());
        push_str(&mut line, ": ");
        push_str(&mut line, fields[i].value.as_str());
        join_part(&mut out, line.as_str(), "\n");
        i = i + 1;
    }
    assert(fields@.take(fields@.len() as int) == fields@);
    match &embed.footer {
        Some(f) => join_part(&mut out, f.text.as_str(), "\n"),
        None => {},
    }
    out
}

/// A message's content followed by its embeds as text.
pub fn render_reply_text(content: &str, embeds: &[Embed]) -> (r: String)
    ensures
        r@ == reply_text(content@, embeds@),
{
    let mut out = to_owned(content);
    let mut i: usize = 0;
    while i < embeds.len()
        invariant
            i <= embeds@.len(),
            out@ == reply_text(content@, embeds@.take(i as int)),
        decreases embeds@.len() - i,
    {
        assert(embeds@.take(i + 1).drop_last() == embeds@.take(i as int));
        let text = render_embed_text(&embeds[i]);
        join_part(&mut out, text.as_str(), "\n\n");
        i = i + 1;
    }
    assert(embeds@.take(embeds@.len() as int) == embeds@);
    out
}

/// What sending a response to Telegram amounts to.
pub enum TelegramReply {
    /// Nothing to send.
    Nothing,
    /// Upload the file as a document (after an `upload_document` indicator).
    Document { chat_id: i64, file: FileResponse },
    /// Send the text, with its keyboard when any button survives.
    Text { chat_id: i64, text: String, markup: Option<ReplyMarkup> },
}

/// What a response sends to chat `chat_id`: nothing for empty and
/// acknowledge responses or when there is no chat to reply in, a document for
/// a file, and for a message its text with the embeds rendered after it (and
/// its keyboard), unless that text is empty.
pub fn plan_reply(chat_id: Option<i64>, response: Response) -> (r: TelegramReply)
    ensures
        match (chat_id, response@) {
            (Some(id), ResponseModel::File(f)) => r == (TelegramReply::Document { chat_id: id, file: f }),
            (Some(id), ResponseModel::Message(m)) => if reply_text(m.content, m.embeds).len() == 0 {
                r is Nothing
            } else {
                r matches TelegramReply::Text { chat_id: c, text, markup } && c == id && text@ == reply_text(
                    m.content,
                    m.embeds,
                )
                    && match markup {
                    Some(ReplyMarkup::InlineKeyboard(k)) => keyboard_view(k.inline_keyboard@)
                        == inline_rows(m.components) && k.inline_keyboard@.len() > 0,
                    None => inline_rows(m.components).len() == 0,
                }
            },
            _ => r is Nothing,
        },
{
    if response.is_empty() || response.is_acknowledge() {
        return TelegramReply::Nothing;
    }
    let chat_id = match chat_id {
        Some(id) => id,
        None => return TelegramReply::Nothing,
    };
    let mut response = response;
    match response.take_file() {
        Some(file) => return TelegramReply::Document { chat_id, file },
        None => {},
    }
    let text = match response.content() {
        Some(t) => render_reply_text(t, response.embeds()),
        None => String::new(),
    };
    if text.as_str().is_empty() {
        return TelegramReply::Nothing;
    }
    TelegramReply::Text { chat_id, text, markup: build_reply_markup(&response) }
}

/// Seconds before the first retry after a failed `getUpdates`.
pub const INITIAL_POLL_BACKOFF_SECS: u64 = 1;
/// Longest wait between failed `getUpdates` attempts, in seconds.
pub const MAX_POLL_BACKOFF_SECS: u64 = 60;
/// How long Telegram holds a long poll open before returning empty.
pub const POLL_TIMEOUT_SECS: u32 = 30;

/// The long-poll loop's state: the next update offset to request and the
/// wait before retrying a failed poll.
#[derive(Debug, Clone, Copy, PartialEq, Eq, Structural)]
pub struct PollState {
    pub offset: Option<i64>,
    pub backoff_secs: u64,
}

/// The wait after one more failed poll: twice the last, capped at the maximum.
pub open spec fn failed_backoff(secs: int) -> int {
    if 2 * secs <= MAX_POLL_BACKOFF_SECS {
        2 * secs
    } else {
        MAX_POLL_BACKOFF_SECS as int
    }
}

impl PollState {
    /// The backoff stays between the initial and the maximum wait.
    pub open spec fn wf(self) -> bool {
        INITIAL_POLL_BACKOFF_SECS <= self.backoff_secs <= MAX_POLL_BACKOFF_SECS
    }

    /// No offset yet, shortest backoff.
    pub fn start() -> (r: Self)
        ensures
            r.wf(),
            r.offset is None,
            r.backoff_secs == INITIAL_POLL_BACKOFF_SECS,
    {
        PollState { offset: None, backoff_secs: INITIAL_POLL_BACKOFF_SECS }
    }

    /// After a failed poll (and its wait): double the backoff, up to the
    /// maximum, so a persistent failure does not become a hot loop.
    pub fn after_failure(self) -> (r: Self)
        requires
            self.backoff_secs <= u64::MAX / 2,
        ensures
            r.offset == self.offset,
            r.backoff_secs == failed_backoff(self.backoff_secs as int),
    {
        let doubled = self.backoff_secs * 2;
        PollState {
            offset: self.offset,
            backoff_secs: if doubled <= MAX_POLL_BACKOFF_SECS {
                doubled
            } else {
                MAX_POLL_BACKOFF_SECS
            },
        }
    }

    /// After a successful poll: back to the shortest backoff.
    pub fn after_success(self) -> (r: Self)
        ensures
            r.offset == self.offset,
            r.backoff_secs == INITIAL_POLL_BACKOFF_SECS,
    {
        PollState { offset: self.offset, backoff_secs: INITIAL_POLL_BACKOFF_SECS }
    }

    /// Acknowledge update `update_id` before handling it, so an update that
    /// panics a handler is not redelivered forever.
    pub fn after_update(self, update_id: i64) -> (r: Self)
        requires
            update_id < i64::MAX,
        ensures
            r.offset == Some((update_id + 1) as i64),
            r.backoff_secs == self.backoff_secs,
    {
        PollState { offset: Some(update_id + 1), backoff_secs: self.backoff_secs }
    }
}

/// The poll backoff never leaves `[INITIAL_POLL_BACKOFF_SECS,
/// MAX_POLL_BACKOFF_SECS]`: a failure doubles it up to the cap, a success
/// resets it, an update leaves it alone.
pub proof fn law_poll_backoff_stays_bounded(backoff_secs: int)
    requires
        INITIAL_POLL_BACKOFF_SECS <= backoff_secs <= MAX_POLL_BACKOFF_SECS,
    ensures
        INITIAL_POLL_BACKOFF_SECS <= failed_backoff(backoff_secs) <= MAX_POLL_BACKOFF_SECS,
        failed_backoff(backoff_secs) >= backoff_secs,
{
}

/// Repeated failures from the initial backoff wait 1, 2, 4, … seconds until
/// the cap, and never more than the cap.
pub open spec fn backoff_after_failures(n: nat) -> int
    decreases n,
{
    if n == 0 {
        INITIAL_POLL_BACKOFF_SECS as int
    } else {
        failed_backoff(backoff_after_failures((n - 1) as nat))
    }
}

/// After `n` consecutive failures the backoff is `min(2^n, 60)` seconds.
pub proof fn law_backoff_doubles_to_the_cap(n: nat)
    ensures
        backoff_after_failures(n) == if vstd::arithmetic::power2::pow2(n) <= MAX_POLL_BACKOFF_SECS {
            vstd::arithmetic::power2::pow2(n) as int
        } else {
            MAX_POLL_BACKOFF_SECS as int
        },
    decreases n,
{
    if n > 0 {
        law_backoff_doubles_to_the_cap((n - 1) as nat);
        vstd::arithmetic::power2::lemma_pow2_unfold(n);
    } else {
        vstd::arithmetic::power2::lemma2_to64();
    }
}

} // verus!
