//! Telegram Bot API objects the adapter reads and writes.
use crate::text::{opt_view, to_owned};
use vstd::prelude::*;

verus! {

/// Telegram Update object received via webhook or long polling
///
/// Telegram adds new update kinds regularly; a bot must keep accepting them
/// (as [`UpdateKind::Unknown`]) instead of failing the whole payload.
#[derive(Debug)]
pub struct Update {
    pub update_id: i64,
    pub kind: UpdateKind,
}

/// The kind of update received
#[derive(Debug)]
pub enum UpdateKind {
    /// A new message in a chat
    Message(Message),
    /// An edit to a message already delivered
    EditedMessage(Message),
    /// An inline keyboard button press
    CallbackQuery(CallbackQuery),
    /// A reaction on a message changed
    MessageReaction(MessageReactionUpdated),
    /// An update this version does not model
    Unknown,
}

/// Telegram Message object
#[derive(Debug)]
pub struct Message {
    pub message_id: i64,
    pub from: Option<User>,
    pub chat: Chat,
    pub date: i64,
    /// Edit timestamp for an edited message.
    pub edit_date: Option<i64>,
    pub text: Option<String>,
    /// Caption under attached media — media messages carry their text here
    /// instead of `text`.
    pub caption: Option<String>,
    pub entities: Option<Vec<MessageEntity>>,
    pub reply_to_message: Option<Box<Message>>,
    /// A sticker attached to the message.
    pub sticker: Option<Sticker>,
    /// Attached photo, largest variant last.
    pub photo: Option<Vec<PhotoSize>>,
    /// Attached video.
    pub video: Option<MediaFile>,
    /// Attached audio track.
    pub audio: Option<MediaFile>,
    /// Attached voice note.
    pub voice: Option<MediaFile>,
    /// Attached document.
    pub document: Option<MediaFile>,
    /// Attached animation (GIF).
    pub animation: Option<MediaFile>,
    /// Forum topic the message was posted to, if the chat has topics.
    pub message_thread_id: Option<i64>,
}

/// A sticker attached to a message or contained in a sticker set.
#[derive(Debug, Clone)]
pub struct Sticker {
    /// Identifier usable with `sendSticker` to resend it.
    pub file_id: String,
    /// Persistent identifier invariant across bots and re-uploads.
    pub file_unique_id: String,
    /// `regular`, `mask`, or `custom_emoji`.
    pub sticker_type: String,
    /// The emoji associated with the sticker.
    pub emoji: Option<String>,
    /// Name of the sticker set it belongs to, if any.
    pub set_name: Option<String>,
    /// True for `.tgs` animated stickers.
    pub is_animated: bool,
    /// True for `.webm` video stickers.
    pub is_video: bool,
}

/// One size of a photo attached to a message.
#[derive(Debug, Clone)]
pub struct PhotoSize {
    /// Identifier usable to re-send or fetch the file.
    pub file_id: String,
    /// Persistent identifier invariant across bots and re-uploads.
    pub file_unique_id: String,
    /// Photo width in pixels.
    pub width: i64,
    /// Photo height in pixels.
    pub height: i64,
}

/// A file attached to a message (video, audio, voice note, document, …).
#[derive(Debug, Clone)]
pub struct MediaFile {
    /// Identifier usable to re-send or fetch the file.
    pub file_id: String,
    /// Persistent identifier invariant across bots and re-uploads.
    pub file_unique_id: String,
    /// MIME type reported by the sender.
    pub mime_type: Option<String>,
    /// Original file name (documents only).
    pub file_name: Option<String>,
}

/// A file as returned by `getFile` — `file_path` is the download path under
/// `https://api.telegram.org/file/bot<token>/`.
#[derive(Debug, Clone)]
pub struct TelegramFile {
    /// Identifier usable with `sendX`/`getFile`.
    pub file_id: String,
    /// Persistent identifier invariant across bots and re-uploads.
    pub file_unique_id: String,
    /// File size in bytes, if known.
    pub file_size: Option<i64>,
    /// Server-side download path.
    pub file_path: Option<String>,
}

/// A sticker set as returned by `getStickerSet`.
#[derive(Debug, Clone)]
pub struct StickerSet {
    /// The set's short name (the `t.me/addstickers/<name>` slug).
    pub name: String,
    /// Human-readable title.
    pub title: String,
    /// `regular`, `mask`, or `custom_emoji`.
    pub sticker_type: String,
    /// Every sticker in the set, in order.
    pub stickers: Vec<Sticker>,
}

/// Telegram User object
#[derive(Debug, Clone)]
pub struct User {
    pub id: i64,
    pub is_bot: bool,
    pub first_name: String,
    pub last_name: Option<String>,
    pub username: Option<String>,
    pub language_code: Option<String>,
    /// `getMe` only: whether group privacy mode is off.
    pub can_read_all_group_messages: Option<bool>,
}

/// Telegram Chat object. `getChat` returns `ChatFullInfo`, a superset —
/// the extra fields stay `None` on `message.chat`.
#[derive(Debug, Clone)]
pub struct Chat {
    pub id: i64,
    pub chat_type: ChatType,
    pub title: Option<String>,
    pub username: Option<String>,
    pub first_name: Option<String>,
    pub last_name: Option<String>,
    /// `ChatFullInfo`: the chat's public description.
    pub description: Option<String>,
    /// `ChatFullInfo`: a private chat's bio line.
    pub bio: Option<String>,
    /// `ChatFullInfo`: primary invite link for groups/channels.
    pub invite_link: Option<String>,
    /// `ChatFullInfo`: the discussion group a channel is linked to.
    pub linked_chat_id: Option<i64>,
    /// `ChatFullInfo`: whether new members see the chat's history.
    pub has_visible_history: Option<bool>,
}

/// Telegram ChatMember object — the status a user holds in a chat.
#[derive(Debug, Clone)]
pub struct ChatMember {
    /// `creator`, `administrator`, `member`, `restricted`, `left`, or
    /// `kicked`.
    pub status: String,
    /// The user the status describes.
    pub user: User,
}

/// Chat type
#[derive(Debug, Clone, Copy, PartialEq, Eq)]
pub enum ChatType {
    Private,
    Group,
    Supergroup,
    Channel,
}

/// Message entity (commands, mentions, formatting, …). Offsets and lengths
/// count UTF-16 code units.
#[derive(Debug, Clone)]
pub struct MessageEntity {
    pub entity_type: EntityType,
    pub offset: i64,
    pub length: i64,
    /// `text_mention` entities carry the mentioned user inline.
    pub user: Option<User>,
    /// `text_link` entities: the link target.
    pub url: Option<String>,
    /// `pre` entities: the code block's language.
    pub language: Option<String>,
    /// `custom_emoji` entities: the emoji's id.
    pub custom_emoji_id: Option<String>,
}

/// Entity type
#[derive(Debug, Clone, Copy, PartialEq, Eq, Structural)]
pub enum EntityType {
    Mention,
    Hashtag,
    Cashtag,
    BotCommand,
    Url,
    Email,
    PhoneNumber,
    Bold,
    Italic,
    Underline,
    Strikethrough,
    Spoiler,
    Blockquote,
    Code,
    Pre,
    TextLink,
    TextMention,
    CustomEmoji,
    Unknown,
}

/// Callback query (button press)
#[derive(Debug)]
pub struct CallbackQuery {
    pub id: String,
    pub from: User,
    pub message: Option<Message>,
    pub inline_message_id: Option<String>,
    pub chat_instance: String,
    pub data: Option<String>,
}

/// Telegram `MessageReactionUpdated` — a user's reaction set on a message
/// changed.
#[derive(Debug)]
pub struct MessageReactionUpdated {
    pub chat: Chat,
    /// The message the reactions apply to.
    pub message_id: i64,
    /// When the reaction changed.
    pub date: Option<i64>,
    /// The user who changed their reaction (absent for anonymous admins).
    pub user: Option<User>,
    /// The acting chat, when a channel reacted anonymously.
    pub actor_chat: Option<Chat>,
    /// Reactions before the change.
    pub old_reaction: Vec<ReactionType>,
    /// Reactions after the change.
    pub new_reaction: Vec<ReactionType>,
}

/// Telegram `ReactionType` — a standard emoji, a custom emoji, or a paid
/// reaction.
#[derive(Debug, Clone)]
pub enum ReactionType {
    /// A standard emoji (`👍`, `❤`, …).
    Emoji {
        /// The emoji character.
        emoji: String,
    },
    /// A custom emoji sticker.
    CustomEmoji {
        /// The custom emoji's id.
        custom_emoji_id: String,
    },
    /// Telegram's paid reaction.
    Paid,
}

/// Inline keyboard markup
#[derive(Debug, Clone)]
pub struct InlineKeyboardMarkup {
    pub inline_keyboard: Vec<Vec<InlineKeyboardButton>>,
}

/// Inline keyboard button
#[derive(Debug, Clone)]
pub struct InlineKeyboardButton {
    pub text: String,
    pub url: Option<String>,
    pub callback_data: Option<String>,
}

impl InlineKeyboardButton {
    /// A button that sends `data` back as a callback query.
    pub fn callback(text: &str, data: &str) -> (r: Self)
        ensures
            r.text@ == text@,
            r.url is None,
            opt_view(r.callback_data) == Some(data@),
    {
        Self { text: to_owned(text), url: None, callback_data: Some(to_owned(data)) }
    }

    /// A button that opens `url`.
    pub fn url(text: &str, url: &str) -> (r: Self)
        ensures
            r.text@ == text@,
            opt_view(r.url) == Some(url@),
            r.callback_data is None,
    {
        Self { text: to_owned(text), url: Some(to_owned(url)), callback_data: None }
    }
}

/// Reply markup options
#[derive(Debug, Clone)]
pub enum ReplyMarkup {
    InlineKeyboard(InlineKeyboardMarkup),
}

/// Bot command for setMyCommands API
#[derive(Debug, Clone)]
pub struct BotCommand {
    /// Command name without the leading slash
    pub command: String,
    /// Description shown in the command menu
    pub description: String,
}

impl BotCommand {
    /// Create a new bot command
    pub fn new(command: &str, description: &str) -> (r: Self)
        ensures
            r.command@ == command@,
            r.description@ == description@,
    {
        Self { command: to_owned(command), description: to_owned(description) }
    }
}

/// Text plus the entities that format it, borrowed — the shape the send,
/// edit and caption calls take.
#[derive(Debug, Clone, Copy)]
pub struct Formatted<'a> {
    /// The plain message text.
    pub text: &'a str,
    /// Entities covering `text`; offsets are UTF-16 code units.
    pub entities: &'a [MessageEntity],
}

} // verus!
