use botkit::common::component::{ActionRow, Button, Component, SelectMenu, SelectOption};
use botkit::common::response::Response;
use botkit::common::router::{BotBuilder, Event};
use botkit::telegram::action::TelegramActionSender;
use botkit::common::embed::Embed;
use botkit::telegram::bot::{build_reply_markup, menu_commands, plan_reply, routed_event, PollState, TelegramReply};
use botkit::telegram::client::{api_result, replace_str, MediaKind, NewSticker, TelegramClient};
use botkit::telegram::event::{command_from_text, extract_command, utf16_offset_to_byte_index, TelegramContextData};
use botkit::telegram::markdown::{render, Rendered};
use botkit::telegram::types::{
    CallbackQuery, Chat, ChatType, EntityType, InlineKeyboardButton, Message, MessageEntity, MessageReactionUpdated,
    PhotoSize, ReactionType, ReplyMarkup, Update, UpdateKind, User,
};
use botkit::common::response::FileSource;

fn chat(id: i64, kind: ChatType) -> Chat {
    Chat {
        id,
        chat_type: kind,
        title: None,
        username: None,
        first_name: None,
        last_name: None,
        description: None,
        bio: None,
        invite_link: None,
        linked_chat_id: None,
        has_visible_history: None,
    }
}

fn person(id: i64, first: &str, last: Option<&str>) -> User {
    User {
        id,
        is_bot: false,
        first_name: first.to_string(),
        last_name: last.map(str::to_string),
        username: None,
        language_code: None,
        can_read_all_group_messages: None,
    }
}

fn entity(kind: EntityType, offset: i64, length: i64) -> MessageEntity {
    MessageEntity { entity_type: kind, offset, length, user: None, url: None, language: None, custom_emoji_id: None }
}

fn plain_message(message_id: i64, chat_id: i64, text: Option<&str>) -> Message {
    Message {
        message_id,
        from: None,
        chat: chat(chat_id, ChatType::Private),
        date: 0,
        edit_date: None,
        text: text.map(str::to_string),
        caption: None,
        entities: None,
        reply_to_message: None,
        sticker: None,
        photo: None,
        video: None,
        audio: None,
        voice: None,
        document: None,
        animation: None,
        message_thread_id: None,
    }
}

fn message(text: &str, entities: Vec<MessageEntity>) -> Update {
    let mut m = plain_message(1, 42, Some(text));
    m.from = Some(person(7, "Ada", Some("Lovelace")));
    m.entities = Some(entities);
    Update { update_id: 1, kind: UpdateKind::Message(m) }
}

fn command_entity(length: i64) -> Vec<MessageEntity> {
    vec![entity(EntityType::BotCommand, 0, length)]
}

fn callback(data: Option<&str>, with_message: bool) -> Update {
    Update {
        update_id: 2,
        kind: UpdateKind::CallbackQuery(CallbackQuery {
            id: "cb1".to_string(),
            from: person(7, "Ada", None),
            message: if with_message { Some(plain_message(1, 42, Some("Are you sure?"))) } else { None },
            inline_message_id: if with_message { None } else { Some("inline-1".to_string()) },
            chat_instance: "x".to_string(),
            data: data.map(str::to_string),
        }),
    }
}

fn route_name(update: Update) -> Option<&'static str> {
    let data = TelegramContextData::new(update, TelegramClient::new("t"));
    match routed_event(&data) {
        Some(Event::Button(_)) => Some("button"),
        Some(Event::Command(_)) => Some("command"),
        Some(Event::Message) => Some("message"),
        None => None,
    }
}

fn markup(response: &Response) -> Option<Vec<Vec<InlineKeyboardButton>>> {
    build_reply_markup(response).map(|ReplyMarkup::InlineKeyboard(m)| m.inline_keyboard)
}

#[test]
fn no_components_means_no_markup() {
    assert!(markup(&Response::text("hi")).is_none());
}

#[test]
fn action_rows_become_keyboard_rows() {
    let response = Response::text("hi").with_components(vec![Component::ActionRow(ActionRow::buttons(vec![
        Button::primary("a", "A"),
        Button::link("https://example.com", "Link"),
    ]))]);
    let rows = markup(&response).expect("one row");
    assert_eq!(rows.len(), 1);
    assert_eq!(rows[0][0].callback_data.as_deref(), Some("a"));
    assert_eq!(rows[0][1].url.as_deref(), Some("https://example.com"));
    assert!(rows[0][1].callback_data.is_none());
}

#[test]
fn bare_buttons_get_their_own_row() {
    let response = Response::text("hi").with_components(vec![
        Component::Button(Button::primary("a", "A")),
        Component::Button(Button::secondary("b", "B")),
    ]);
    let rows = markup(&response).expect("two rows");
    assert_eq!(rows.len(), 2);
    assert_eq!(rows[0][0].text, "A");
    assert_eq!(rows[1][0].text, "B");
}

#[test]
fn components_without_a_telegram_equivalent_are_skipped() {
    let response = Response::text("hi").with_components(vec![
        Component::SelectMenu(SelectMenu::new("menu", vec![SelectOption::new("l", "v")])),
        Component::ActionRow(ActionRow::new(vec![])),
    ]);
    assert!(markup(&response).is_none());
}

#[test]
fn commands_messages_and_buttons_route_to_distinct_events() {
    let mut command = plain_message(1, 1, Some("/ping"));
    command.entities = Some(command_entity(5));
    assert_eq!(route_name(Update { update_id: 1, kind: UpdateKind::Message(command) }), Some("command"));
    let chat_message = plain_message(1, 1, Some("just chatting"));
    assert_eq!(route_name(Update { update_id: 2, kind: UpdateKind::Message(chat_message) }), Some("message"));
    assert_eq!(route_name(callback(Some("confirm"), false)), Some("button"));
}

#[test]
fn reaction_updates_route_to_the_message_handler() {
    let reaction = Update {
        update_id: 7,
        kind: UpdateKind::MessageReaction(MessageReactionUpdated {
            chat: chat(42, ChatType::Private),
            message_id: 9,
            date: Some(0),
            user: Some(person(1, "Ada", None)),
            actor_chat: None,
            old_reaction: vec![],
            new_reaction: vec![ReactionType::Emoji { emoji: "👍".to_string() }],
        }),
    };
    let data = TelegramContextData::new(reaction, TelegramClient::new("t"));
    assert!(matches!(routed_event(&data), Some(Event::Message)));
    assert_eq!(data.chat_id(), Some(42));
    assert_eq!(data.user_name(), "Ada");
    match &data.update().kind {
        UpdateKind::MessageReaction(r) => {
            assert_eq!(r.message_id, 9);
            assert!(matches!(r.new_reaction.as_slice(), [ReactionType::Emoji { .. }]));
        },
        _ => panic!("expected a reaction update"),
    }
}

#[test]
fn anonymous_reactions_are_attributed_to_the_acting_chat() {
    let mut actor = chat(-100, ChatType::Channel);
    actor.title = Some("News".to_string());
    let reaction = Update {
        update_id: 8,
        kind: UpdateKind::MessageReaction(MessageReactionUpdated {
            chat: chat(42, ChatType::Supergroup),
            message_id: 9,
            date: None,
            user: None,
            actor_chat: Some(actor),
            old_reaction: vec![],
            new_reaction: vec![],
        }),
    };
    let data = TelegramContextData::new(reaction, TelegramClient::new("t"));
    assert_eq!(data.user_id(), "-100");
    assert_eq!(data.user_name(), "News");
}

#[test]
fn a_callback_without_data_does_not_fall_through_to_the_message_handler() {
    assert_eq!(route_name(callback(None, false)), None);
}

#[test]
fn edits_route_to_the_message_handler_but_unmodelled_kinds_do_not() {
    let edit = plain_message(1, 1, Some("reworded"));
    assert_eq!(route_name(Update { update_id: 5, kind: UpdateKind::EditedMessage(edit) }), Some("message"));
    assert_eq!(route_name(Update { update_id: 6, kind: UpdateKind::Unknown }), None);
}

#[test]
fn event_parses_a_command_with_arguments() {
    let (name, args) = extract_command(&message("/greet world and beyond", command_entity(6)));
    assert_eq!(name.as_deref(), Some("greet"));
    assert_eq!(args.as_deref(), Some("world and beyond"));
}

#[test]
fn event_parses_a_bare_command() {
    let (name, args) = extract_command(&message("/ping", command_entity(5)));
    assert_eq!(name.as_deref(), Some("ping"));
    assert_eq!(args, None);
}

#[test]
fn strips_the_bot_mention_suffix() {
    let (name, args) = extract_command(&message("/ping@my_bot now", command_entity(12)));
    assert_eq!(name.as_deref(), Some("ping"));
    assert_eq!(args.as_deref(), Some("now"));
}

#[test]
fn ignores_commands_that_do_not_open_the_message() {
    let update = message("see /ping", vec![entity(EntityType::BotCommand, 4, 5)]);
    assert_eq!(extract_command(&update), (None, None));
}

#[test]
fn ignores_messages_without_a_command_entity() {
    assert_eq!(extract_command(&message("just chatting", vec![])), (None, None));
}

#[test]
fn entity_lengths_are_counted_in_utf16_code_units() {
    let (name, args) = extract_command(&message("/wave🎉 hi", command_entity(7)));
    assert_eq!(name.as_deref(), Some("wave🎉"));
    assert_eq!(args.as_deref(), Some("hi"));
}

#[test]
fn out_of_range_entity_lengths_do_not_panic() {
    for length in [-1, 0, 6, 9999] {
        assert_eq!(extract_command(&message("/ping", command_entity(length))), (None, None), "length {length}");
    }
}

#[test]
fn entity_lengths_landing_mid_character_do_not_panic() {
    assert_eq!(extract_command(&message("🎉x", command_entity(1))), (None, None));
}

#[test]
fn utf16_offsets_map_to_byte_indexes() {
    assert_eq!(utf16_offset_to_byte_index("/wave🎉 hi", 7), Some(9));
    assert_eq!(utf16_offset_to_byte_index("🎉x", 1), None);
    assert_eq!(utf16_offset_to_byte_index("abc", 3), Some(3));
    assert_eq!(utf16_offset_to_byte_index("abc", 4), None);
    assert_eq!(utf16_offset_to_byte_index("", 0), Some(0));
    assert_eq!(command_from_text("/x", &[entity(EntityType::Bold, 0, 2)]), (None, None));
}

#[test]
fn callback_queries_expose_their_button_and_chat() {
    let data = TelegramContextData::new(callback(Some("confirm_yes"), true), TelegramClient::new("token"));
    assert_eq!(data.chat_id(), Some(42));
    assert_eq!(data.button_id(), Some("confirm_yes"));
    assert_eq!(data.command_name(), None);
    assert_eq!(data.message_content(), Some("Are you sure?"));
    assert_eq!(data.user_name(), "Ada");
}

#[test]
fn inline_callback_queries_have_no_chat_to_reply_in() {
    let data = TelegramContextData::new(callback(Some("x"), false), TelegramClient::new("token"));
    assert_eq!(data.chat_id(), None);
    assert_eq!(data.channel_id(), "");
    assert!(data.action_sender().is_none());
}

#[test]
fn messages_expose_the_sender_and_chat() {
    let data = TelegramContextData::new(message("/greet you", command_entity(6)), TelegramClient::new("token"));
    assert_eq!(data.chat_id(), Some(42));
    assert_eq!(data.channel_id(), "42");
    assert_eq!(data.user_id(), "7");
    assert_eq!(data.user_name(), "Ada Lovelace");
    assert_eq!(data.command_name(), Some("greet"));
    assert_eq!(data.command_args(), Some("you"));
    let sender = data.action_sender().expect("a chat to type in");
    assert_eq!(sender.chat_id(), 42);
    assert_eq!(sender.client().token(), "token");
}

#[test]
fn media_caption_serves_as_message_content() {
    let mut m = plain_message(9, 42, None);
    m.from = Some(person(7, "Ada", None));
    m.caption = Some("look at this".to_string());
    m.photo = Some(vec![
        PhotoSize { file_id: "p1".to_string(), file_unique_id: "u1".to_string(), width: 90, height: 90 },
        PhotoSize { file_id: "p2".to_string(), file_unique_id: "u2".to_string(), width: 800, height: 600 },
    ]);
    let data = TelegramContextData::new(Update { update_id: 5, kind: UpdateKind::Message(m) }, TelegramClient::new("token"));
    assert_eq!(data.message_content(), Some("look at this"));
    assert_eq!(data.chat_id(), Some(42));
}

#[test]
fn unsupported_update_kinds_are_inert() {
    let data = TelegramContextData::new(Update { update_id: 4, kind: UpdateKind::Unknown }, TelegramClient::new("token"));
    assert_eq!(data.chat_id(), None);
    assert_eq!(data.user_id(), "");
    assert_eq!(data.command_name(), None);
    assert_eq!(data.button_id(), None);
    assert_eq!(data.message_content(), None);
}

#[test]
fn building_a_client_installs_a_crypto_provider() {
    let _client = TelegramClient::new("token");
    assert!(rustls::crypto::CryptoProvider::get_default().is_some());
}

#[test]
fn redacts_the_token_from_error_messages() {
    let client = TelegramClient::new("123456:SECRET");
    let error = client.api_error("connect to https://api.telegram.org/bot123456:SECRET/x");
    let text = error.message();
    assert!(!text.contains("SECRET"), "{text}");
    assert!(text.contains("<token>"), "{text}");
}

#[test]
fn replace_follows_str_replace() {
    assert_eq!(replace_str("aaa", "aa", "b"), "aaa".replace("aa", "b"));
    assert_eq!(replace_str("ab", "", "-"), "ab".replace("", "-"));
    assert_eq!(replace_str("", "", "x"), "".replace("", "x"));
    assert_eq!(replace_str("token token", "token", "<t>"), "<t> <t>");
}

#[test]
fn api_urls_carry_the_token_and_method() {
    let client = TelegramClient::new("abc");
    assert_eq!(client.token(), "abc");
    assert_eq!(client.api_url("getMe"), "https://api.telegram.org/botabc/getMe");
}

#[test]
fn file_downloads_use_their_own_url_tree() {
    let client = TelegramClient::new("abc");
    assert_eq!(
        client.file_url("documents/file_1.pdf"),
        "https://api.telegram.org/file/botabc/documents/file_1.pdf"
    );
}

#[test]
fn parses_successful_api_response() {
    let updates: Vec<i64> = api_result("getUpdates", true, Some(vec![1]), None).unwrap();
    assert_eq!(updates.len(), 1);
}

#[test]
fn rejects_api_error_response() {
    let err = api_result::<i64>("sendMessage", false, None, Some("chat not found".to_string())).unwrap_err();
    assert_eq!(err.message(), "API request failed: chat not found");
    let err = api_result::<i64>("getMe", false, None, None).unwrap_err();
    assert_eq!(err.message(), "API request failed: Telegram getMe failed without description");
    let err = api_result::<i64>("getMe", true, None, None).unwrap_err();
    assert_eq!(err.message(), "API request failed: Telegram getMe succeeded without result");
}

#[test]
fn media_kinds_name_their_endpoint() {
    assert_eq!(MediaKind::Photo.spec(), ("sendPhoto", "photo"));
    assert_eq!(MediaKind::Voice.spec(), ("sendVoice", "voice"));
    assert_eq!(MediaKind::Sticker.spec(), ("sendSticker", "sticker"));
    let sticker = NewSticker::new(FileSource::Bytes(vec![1]), "s.webp", "static", "🙂").with_old_file_id("old");
    assert_eq!(sticker.old_file_id(), Some("old"));
    assert_eq!(sticker.filename, "s.webp");
}

#[test]
fn replies_need_a_chat_and_text() {
    match plan_reply(Some(1), Response::text("hi")) {
        TelegramReply::Text { chat_id, text, markup } => {
            assert_eq!((chat_id, text.as_str()), (1, "hi"));
            assert!(markup.is_none());
        },
        _ => panic!("expected text"),
    }
    assert!(matches!(plan_reply(None, Response::text("hi")), TelegramReply::Nothing));
    assert!(matches!(plan_reply(Some(1), Response::acknowledge()), TelegramReply::Nothing));
    assert!(matches!(plan_reply(Some(1), Response::bytes(vec![1])), TelegramReply::Document { .. }));
}

#[test]
fn embeds_are_sent_as_text_after_the_content() {
    let embed = Embed::new().title("Status").description("All good").field("CPU", "12%", true).footer("checked now");
    let response = Response::text("Report").with_embed(embed).with_embed(Embed::new().title("Second"));
    match plan_reply(Some(1), response) {
        TelegramReply::Text { text, .. } => {
            assert_eq!(text, "Report\n\nStatus\nAll good\nCPU: 12%\nchecked now\n\nSecond");
        },
        _ => panic!("expected text"),
    }
    match plan_reply(Some(1), Response::embed(Embed::new().field("a", "b", false))) {
        TelegramReply::Text { text, .. } => assert_eq!(text, "a: b"),
        _ => panic!("expected text"),
    }
    assert!(matches!(plan_reply(Some(1), Response::embed(Embed::new())), TelegramReply::Nothing));
}

#[test]
fn command_menus_fall_back_to_the_name() {
    let builder = BotBuilder::new().command("ping", 1u8).command_with_description("help", "Show help", 2u8);
    let menu = menu_commands(&builder);
    assert_eq!((menu[0].command.as_str(), menu[0].description.as_str()), ("ping", "ping"));
    assert_eq!((menu[1].command.as_str(), menu[1].description.as_str()), ("help", "Show help"));
}

#[test]
fn polling_backs_off_and_recovers() {
    let start = PollState::start();
    let mut s = start;
    for _ in 0..8 {
        s = s.after_failure();
    }
    assert_eq!(s.backoff_secs, 60);
    let s = s.after_success().after_update(41);
    assert_eq!((s.backoff_secs, s.offset), (1, Some(42)));
}

#[test]
fn action_names_match_the_bot_api() {
    assert_eq!(TelegramActionSender::action_string(botkit::common::action::ChatAction::UploadDocument), "upload_document");
}

fn find(r: &Rendered, kind: EntityType) -> &MessageEntity {
    r.entities.iter().find(|e| e.entity_type == kind).expect("entity not found")
}

fn covered(r: &Rendered, e: &MessageEntity) -> String {
    let utf16: Vec<u16> = r.text.encode_utf16().collect();
    String::from_utf16(&utf16[e.offset as usize..(e.offset + e.length) as usize]).unwrap()
}

#[test]
fn bold_next_to_cjk_and_fullwidth_punctuation() {
    let r = render("看学院：**工程学院 (Engineering)**：必须做");
    assert_eq!(r.text, "看学院：工程学院 (Engineering)：必须做");
    assert_eq!(covered(&r, find(&r, EntityType::Bold)), "工程学院 (Engineering)");
}

#[test]
fn utf16_offsets_count_emoji_as_two() {
    let r = render("🎉 **yes**");
    let bold = find(&r, EntityType::Bold);
    assert_eq!(bold.offset, 3);
    assert_eq!(bold.length, 3);
    assert_eq!(covered(&r, bold), "yes");
}

#[test]
fn links_become_text_link() {
    let r = render("see [the docs](https://example.com/a?b=1) now");
    let link = find(&r, EntityType::TextLink);
    assert_eq!(link.url.as_deref(), Some("https://example.com/a?b=1"));
    assert_eq!(covered(&r, link), "the docs");
}

#[test]
fn fenced_code_is_pre_with_language() {
    let r = render("before\n\n```rust\nlet x = **not bold**;\n```\n\nafter");
    let pre = find(&r, EntityType::Pre);
    assert_eq!(pre.language.as_deref(), Some("rust"));
    assert_eq!(covered(&r, pre), "let x = **not bold**;");
    assert!(r.text.contains("\n\nafter"));
}

#[test]
fn nested_emphasis_produces_nested_entities() {
    let r = render("**bold _both_ end**");
    assert_eq!(covered(&r, find(&r, EntityType::Bold)), "bold both end");
    assert_eq!(covered(&r, find(&r, EntityType::Italic)), "both");
}

#[test]
fn headings_render_as_bold_lines() {
    let r = render("# 标题\nbody");
    assert_eq!(covered(&r, find(&r, EntityType::Bold)), "标题");
}

#[test]
fn lists_keep_literal_markers() {
    let r = render("1. one\n2. two\n\n- a\n- b");
    assert_eq!(r.text, "1. one\n2. two\n  - a\n  - b\n");
}

#[test]
fn unmatched_markers_stay_literal() {
    let r = render("this is ** not bold");
    assert_eq!(r.text, "this is ** not bold");
    assert!(r.entities.is_empty());
}

#[test]
fn blockquote_covers_its_lines() {
    let r = render("> first\n> second\n\nrest");
    assert_eq!(covered(&r, find(&r, EntityType::Blockquote)), "first\nsecond");
}

#[test]
fn image_without_alt_shows_url() {
    let r = render("pic: ![](https://example.com/x.png)");
    let link = find(&r, EntityType::TextLink);
    assert_eq!(covered(&r, link), "https://example.com/x.png");
}

#[test]
fn plain_text_is_unchanged() {
    let r = render("just words 中文混排 ok");
    assert_eq!(r.text, "just words 中文混排 ok");
    assert!(r.entities.is_empty());
}

#[test]
fn formatted_borrows_the_render() {
    let r = render("**a**");
    let f = r.formatted();
    assert_eq!(f.text, "a");
    assert_eq!(f.entities.len(), 1);
}

#[test]
fn inline_keyboard_buttons_are_links_or_callbacks() {
    let yes = InlineKeyboardButton::callback("Yes", "yes");
    assert_eq!((yes.text.as_str(), yes.callback_data.as_deref(), yes.url.as_deref()), ("Yes", Some("yes"), None));
    let docs = InlineKeyboardButton::url("Docs", "https://example.com");
    assert_eq!((docs.url.as_deref(), docs.callback_data.as_deref()), (Some("https://example.com"), None));
}
