//! The Telegram chat-action indicator: which chat and topic it targets and
//! the action names the Bot API takes.
use crate::common::action::{action_name, ChatAction};
use crate::telegram::client::TelegramClient;
use vstd::prelude::*;

verus! {

/// Seconds after which Telegram drops a chat action indicator.
pub const TELEGRAM_ACTION_EXPIRY_SECS: u64 = 5;

/// Telegram chat action sender: sends `sendChatAction` for one chat (and
/// forum topic).
#[derive(Clone)]
pub struct TelegramActionSender {
    client: TelegramClient,
    chat_id: i64,
    thread_id: Option<i64>,
}

impl View for TelegramActionSender {
    /// The token, chat and topic the indicator targets.
    type V = (Seq<char>, i64, Option<i64>);

    closed spec fn view(&self) -> (Seq<char>, i64, Option<i64>) {
        (self.client@, self.chat_id, self.thread_id)
    }
}

impl TelegramActionSender {
    /// Create a new Telegram action sender
    pub fn new(client: TelegramClient, chat_id: i64, thread_id: Option<i64>) -> (r: Self)
        ensures
            r@ == (client@, chat_id, thread_id),
    {
        Self { client, chat_id, thread_id }
    }

    /// Map unified ChatAction to Telegram API action string
    pub fn action_string(action: ChatAction) -> (r: &'static str)
        ensures
            r@ == action_name(action),
    {
        crate::common::action::action_string(action)
    }

    /// The client the indicator is sent through.
    pub fn client(&self) -> (r: &TelegramClient)
        ensures
            r@ == self@.0,
    {
        &self.client
    }

    /// The chat the indicator shows in.
    pub fn chat_id(&self) -> (r: i64)
        ensures
            r == self@.1,
    {
        self.chat_id
    }

    /// The forum topic the indicator shows in.
    pub fn thread_id(&self) -> (r: Option<i64>)
        ensures
            r == self@.2,
    {
        self.thread_id
    }
}

} // verus!
