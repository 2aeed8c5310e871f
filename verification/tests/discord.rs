use botkit::common::component::{ActionRow, Button, ButtonStyle, Component, SelectMenu, SelectOption};
use botkit::common::response::Response;
use botkit::common::router::BotBuilder;
use botkit::discord::bot::{
    interaction_event, message_payload, plan_channel_reply, plan_interaction_reply, slash_commands, ChannelReply,
    InteractionReply, ReconnectState,
};
use botkit::discord::client::{
    encode_emoji, own_reaction_route, DiscordClient, CHANNEL_MESSAGE_WITH_SOURCE, DEFERRED_CHANNEL_MESSAGE_WITH_SOURCE,
    DEFERRED_UPDATE_MESSAGE, EPHEMERAL_FLAG, INTERACTION_PONG, check_download_size,
};
use botkit::discord::component::{button_json, emoji_json, style_code, to_discord, DiscordChild};
use botkit::discord::event::{DiscordContextData, MessageContextData};
use botkit::discord::gateway::{
    connection_lost, connection_state, step_end, ConnectionEnd, dispatch_kind, heartbeat_due, last_sequence, on_payload, on_ready, DispatchKind, GatewayStep,
    HeartbeatTick, NO_SEQUENCE, OP_HEARTBEAT_ACK, OP_HELLO, OP_INVALID_SESSION,
};
use botkit::discord::intents::GatewayIntents;
use botkit::discord::types::{Interaction, InteractionData, InteractionOption, InteractionType, Member, Message, User};

fn client() -> DiscordClient {
    DiscordClient::new("token", "app")
}

fn user(id: &str, username: &str, global_name: Option<&str>) -> User {
    User {
        id: id.to_string(),
        username: username.to_string(),
        discriminator: None,
        global_name: global_name.map(str::to_string),
        avatar: None,
        bot: None,
    }
}

fn message(content: &str, author: User) -> Message {
    Message {
        id: "m1".to_string(),
        channel_id: "chan".to_string(),
        author,
        content: content.to_string(),
        timestamp: "2024-01-01T00:00:00Z".to_string(),
        edited_timestamp: None,
        tts: false,
        mention_everyone: false,
        mentions: vec![],
        pinned: false,
        guild_id: None,
        referenced_message: None,
        attachments: vec![],
        message_type: 0,
    }
}

fn interaction(kind: u8, data: Option<InteractionData>) -> Interaction {
    Interaction {
        id: "i1".to_string(),
        application_id: "app".to_string(),
        interaction_type: InteractionType::from(kind),
        data,
        guild_id: None,
        channel_id: None,
        member: None,
        user: None,
        token: "tok".to_string(),
        version: 1,
        message: None,
        app_permissions: None,
        locale: None,
        guild_locale: None,
    }
}

fn option(name: &str, option_type: u8, value: serde_json::Value) -> InteractionOption {
    InteractionOption { name: name.to_string(), option_type, value, options: vec![], focused: None }
}

fn slash_command() -> Interaction {
    let mut i = interaction(
        2,
        Some(InteractionData::ApplicationCommand {
            id: "c1".to_string(),
            name: "greet".to_string(),
            command_type: None,
            options: vec![
                option("who", 3, serde_json::Value::from("world")),
                option("count", 4, serde_json::Value::from(3)),
                option("ratio", 10, serde_json::Value::from(1.5)),
                option("loud", 5, serde_json::Value::from(true)),
            ],
            resolved: None,
        }),
    );
    i.channel_id = Some("chan".to_string());
    i.member = Some(Member {
        user: Some(user("u1", "ada", Some("Ada Lovelace"))),
        nick: None,
        roles: vec![],
        joined_at: None,
        premium_since: None,
        deaf: None,
        mute: None,
        pending: None,
        permissions: None,
    });
    i
}

#[test]
fn interaction_response_codes_match_discords_wire_values() {
    assert_eq!(INTERACTION_PONG, 1);
    assert_eq!(CHANNEL_MESSAGE_WITH_SOURCE, 4);
    assert_eq!(DEFERRED_CHANNEL_MESSAGE_WITH_SOURCE, 5);
    assert_eq!(DEFERRED_UPDATE_MESSAGE, 6);
}

#[test]
fn ephemeral_is_a_message_flag_not_a_payload_field() {
    let mut response = Response::text("hi").ephemeral();
    let payload = message_payload(&response);
    assert_eq!(payload.content, "hi");
    assert!(response.is_ephemeral());
    assert_eq!(EPHEMERAL_FLAG, 64);
    match plan_interaction_reply(false, &mut response) {
        InteractionReply::Message { flags, .. } => assert_eq!(flags, Some(64)),
        _ => panic!("expected a message reply"),
    }
}

#[test]
fn plain_text_payloads_carry_only_content() {
    let payload = message_payload(&Response::text("hi"));
    assert_eq!(payload.content, "hi");
    assert!(payload.components.is_empty());
}

#[test]
fn empty_responses_are_still_acknowledged() {
    let mut empty = Response::empty();
    assert!(matches!(plan_interaction_reply(true, &mut empty), InteractionReply::Acknowledge(6)));
    assert!(matches!(plan_interaction_reply(false, &mut empty), InteractionReply::Acknowledge(5)));
    let mut ack = Response::acknowledge();
    assert!(matches!(plan_interaction_reply(true, &mut ack), InteractionReply::Acknowledge(5)));
    let mut file = Response::bytes(vec![1]);
    assert!(matches!(plan_interaction_reply(false, &mut file), InteractionReply::DeferredFile(_)));
    let mut nothing = Response::acknowledge();
    assert!(matches!(plan_channel_reply(&mut nothing), ChannelReply::Nothing));
    let mut text = Response::text("hello");
    assert!(matches!(plan_channel_reply(&mut text), ChannelReply::Message(_)));
}

#[test]
fn bot_tokens_use_discords_own_auth_scheme() {
    let client = DiscordClient::new("abc123", "app");
    assert_eq!(client.auth_header(), "Bot abc123");
    assert_eq!(client.token(), "abc123");
    assert_eq!(client.application_id(), "app");
}

#[test]
fn client_building_a_client_installs_a_crypto_provider() {
    let _client = DiscordClient::new("token", "app");
    assert!(rustls::crypto::CryptoProvider::get_default().is_some());
}

#[test]
fn emoji_route_segments_are_percent_encoded() {
    assert_eq!(encode_emoji("👍"), "%F0%9F%91%8D");
    assert_eq!(encode_emoji("party:123"), "party:123");
    assert_eq!(own_reaction_route("c", "m", "👍"), "/channels/c/messages/m/reactions/%F0%9F%91%8D/@me");
}

#[test]
fn heartbeats_omit_the_sequence_until_one_arrives() {
    assert_eq!(last_sequence(NO_SEQUENCE), None);
    assert_eq!(last_sequence(42), Some(42));
}

#[test]
fn interaction_types_round_trip_through_their_wire_numbers() {
    for (number, kind) in [
        (1u8, InteractionType::Ping),
        (2, InteractionType::ApplicationCommand),
        (3, InteractionType::MessageComponent),
        (4, InteractionType::ApplicationCommandAutocomplete),
        (5, InteractionType::ModalSubmit),
        (99, InteractionType::Unknown(99)),
    ] {
        assert_eq!(InteractionType::from(number), kind);
        assert_eq!(u8::from(kind), number);
    }
}

#[test]
fn every_button_style_maps_to_its_discord_code() {
    for (style, code) in [
        (ButtonStyle::Primary, 1),
        (ButtonStyle::Secondary, 2),
        (ButtonStyle::Success, 3),
        (ButtonStyle::Danger, 4),
        (ButtonStyle::Link, 5),
    ] {
        assert_eq!(style_code(style), code);
    }
}

#[test]
fn action_rows_use_discords_numeric_type_codes() {
    let rows = to_discord(&[Component::ActionRow(ActionRow::buttons(vec![Button::primary("go", "Go")]))]);
    assert_eq!(rows.len(), 1);
    match &rows[0].components[0] {
        DiscordChild::Button(b) => {
            assert_eq!(b.style, 1);
            assert_eq!(b.label, "Go");
            assert!(!b.disabled);
            assert_eq!(b.custom_id.as_deref(), Some("go"));
        },
        _ => panic!("expected a button"),
    }
}

#[test]
fn link_buttons_carry_a_url_and_no_custom_id() {
    let button = button_json(&Button::link("https://example.com", "Docs"));
    assert_eq!(button.style, 5);
    assert_eq!(button.url.as_deref(), Some("https://example.com"));
    assert!(button.custom_id.is_none());
}

#[test]
fn callback_buttons_carry_a_custom_id_and_no_url() {
    let button = button_json(&Button::danger("delete", "Delete"));
    assert_eq!(button.style, 4);
    assert_eq!(button.custom_id.as_deref(), Some("delete"));
    assert!(button.url.is_none());
}

#[test]
fn loose_buttons_are_wrapped_into_one_row() {
    let rows = to_discord(&[
        Component::Button(Button::primary("a", "A")),
        Component::Button(Button::secondary("b", "B")),
    ]);
    assert_eq!(rows.len(), 1);
    assert_eq!(rows[0].components.len(), 2);
}

#[test]
fn select_menus_get_a_row_of_their_own() {
    let rows = to_discord(&[
        Component::Button(Button::primary("a", "A")),
        Component::SelectMenu(
            SelectMenu::new("pick", vec![SelectOption::new("One", "1").description("first")])
                .placeholder("Choose")
                .min_max(1, 2),
        ),
    ]);
    assert_eq!(rows.len(), 2, "button row then select row");
    match &rows[1].components[0] {
        DiscordChild::Select(s) => {
            assert_eq!(s.custom_id, "pick");
            assert_eq!(s.placeholder.as_deref(), Some("Choose"));
            assert_eq!((s.min_values, s.max_values), (1, 2));
            assert_eq!(s.options[0].value, "1");
            assert_eq!(s.options[0].description.as_deref(), Some("first"));
        },
        _ => panic!("expected a select"),
    }
}

#[test]
fn unicode_and_custom_emoji_are_distinguished() {
    let unicode = emoji_json("🎉");
    assert_eq!((unicode.name.as_str(), unicode.id.as_deref()), ("🎉", None));
    let custom = emoji_json("partyblob:123456789");
    assert_eq!((custom.name.as_str(), custom.id.as_deref()), ("partyblob", Some("123456789")));
    let colon = emoji_json("a:b");
    assert_eq!((colon.name.as_str(), colon.id.as_deref()), ("a:b", None));
}

#[test]
fn nested_action_rows_are_dropped() {
    let rows = to_discord(&[Component::ActionRow(ActionRow::new(vec![
        Component::ActionRow(ActionRow::new(vec![])),
        Component::Button(Button::primary("a", "A")),
    ]))]);
    assert_eq!(rows[0].components.len(), 1);
}

#[test]
fn empty_rows_are_omitted() {
    assert!(to_discord(&[]).is_empty());
    assert!(to_discord(&[Component::ActionRow(ActionRow::new(vec![]))]).is_empty());
}

#[test]
fn slash_commands_expose_name_user_and_options() {
    let data = DiscordContextData::new(slash_command(), client());
    assert_eq!(data.command_name(), Some("greet"));
    assert_eq!(data.channel_id(), "chan");
    assert_eq!(data.user_id(), "u1");
    assert_eq!(data.user_name(), "Ada Lovelace");
    assert_eq!(data.button_id(), None);
    assert_eq!(data.option_raw("who").map(|o| o.value.as_str()), Some(Some("world")));
    assert_eq!(data.option_raw("count").and_then(|o| o.value.as_i64()), Some(3));
    assert_eq!(data.option_raw("ratio").and_then(|o| o.value.as_f64()), Some(1.5));
    assert_eq!(data.option_raw("loud").and_then(|o| o.value.as_bool()), Some(true));
    assert!(data.option_raw("missing").is_none());
    assert!(matches!(interaction_event(data.interaction()), Some(botkit::common::router::Event::Command("greet"))));
}

#[test]
fn users_without_a_global_name_fall_back_to_the_handle() {
    let mut i = interaction(
        2,
        Some(InteractionData::ApplicationCommand {
            id: "c1".to_string(),
            name: "ping".to_string(),
            command_type: None,
            options: vec![],
            resolved: None,
        }),
    );
    i.user = Some(user("u2", "legacy", None));
    let data = DiscordContextData::new(i, client());
    assert_eq!(data.user_name(), "legacy");
    assert_eq!(data.channel_id(), "");
    assert!(data.action_sender().is_none());
}

#[test]
fn component_interactions_expose_their_custom_id() {
    let mut i = interaction(
        3,
        Some(InteractionData::MessageComponent { custom_id: "confirm_yes".to_string(), component_type: 2, values: vec![] }),
    );
    i.channel_id = Some("chan".to_string());
    i.user = Some(user("u1", "ada", None));
    i.message = Some(message("Are you sure?", user("b1", "bot", None)));
    let data = DiscordContextData::new(i, client());
    assert_eq!(data.button_id(), Some("confirm_yes"));
    assert_eq!(data.command_name(), None);
    assert_eq!(data.message_content(), Some("Are you sure?"));
    assert!(data.action_sender().is_some());
    assert!(matches!(
        interaction_event(data.interaction()),
        Some(botkit::common::router::Event::Button("confirm_yes"))
    ));
}

#[test]
fn message_contexts_report_the_author_and_channel() {
    let data = MessageContextData::new(message("hello", user("u1", "ada", Some("Ada"))), client());
    assert_eq!(data.channel_id(), "chan");
    assert_eq!(data.user_id(), "u1");
    assert_eq!(data.user_name(), "Ada");
    assert_eq!(data.message_content(), Some("hello"));
    assert_eq!(data.command_name(), None);
    assert_eq!(data.button_id(), None);
    assert_eq!(data.action_sender().channel_id(), "chan");
    assert!(!data.edited);
}

#[test]
fn cloned_messages_keep_every_field() {
    let mut original = message("reply", user("u1", "ada", Some("Ada")));
    original.referenced_message = Some(Box::new(message("first", user("u2", "bob", None))));
    original.mentions = vec![user("u3", "cy", None)];
    original.guild_id = Some("g1".to_string());
    let copy = original.clone();
    assert_eq!(copy.content, "reply");
    assert_eq!(copy.author.global_name.as_deref(), Some("Ada"));
    assert_eq!(copy.referenced_message.as_ref().map(|m| m.content.as_str()), Some("first"));
    assert_eq!(copy.mentions.len(), 1);
    assert_eq!(copy.mentions[0].id, "u3");
    assert_eq!(copy.guild_id.as_deref(), Some("g1"));
}

#[test]
fn edited_contexts_differ_only_in_the_flag() {
    let m = message("fixed", user("u1", "ada", None));
    let c = client();
    let a = MessageContextData::new_edited(m.clone(), c.clone());
    let b = MessageContextData::new(m, c);
    assert!(a.edited && !b.edited);
    assert_eq!(a.channel_id(), b.channel_id());
    assert_eq!(a.user_id(), b.user_id());
    assert_eq!(a.user_name(), "ada");
    assert_eq!(a.user_name(), b.user_name());
    assert_eq!(a.message_content(), b.message_content());
    assert_eq!(a.command_name(), b.command_name());
    assert_eq!(a.button_id(), b.button_id());
}

#[test]
fn intents_combine_and_contain() {
    let both = GatewayIntents::guilds().union(GatewayIntents::message_content());
    assert!(both.contains(GatewayIntents::guilds()));
    assert!(both.contains(GatewayIntents::message_content()));
    assert!(!both.contains(GatewayIntents::direct_messages()));
    assert_eq!(both.bits(), 1 | 32768);
    assert_eq!(GatewayIntents::from_bits(5).bits(), 5);
    assert!(GatewayIntents::all().contains(GatewayIntents::guild_scheduled_events()));
    assert!(GatewayIntents::all().contains(GatewayIntents::message_content()));
    assert!(GatewayIntents::all().contains(GatewayIntents::auto_moderation_configuration()));
    assert!(GatewayIntents::all().contains(GatewayIntents::auto_moderation_execution()));
    assert_eq!(GatewayIntents::empty().bits(), 0);
}

#[test]
fn intent_operators_match_union() {
    let both = GatewayIntents::guilds() | GatewayIntents::message_content();
    assert_eq!(both, GatewayIntents::guilds().union(GatewayIntents::message_content()));
    let mut acc = GatewayIntents::empty();
    acc |= GatewayIntents::guild_messages();
    acc |= GatewayIntents::direct_messages();
    assert_eq!(acc.bits(), (1 << 9) | (1 << 12));
    assert!(acc.contains(GatewayIntents::guild_messages()));
}

#[test]
fn gateway_sessions_track_the_latest_sequence() {
    let mut state = connection_state(None);
    assert!(matches!(on_payload(&mut state, OP_HELLO, None, None, Some(41250)), GatewayStep::Hello { start_heartbeat_ms: Some(41250), resume: None }));
    assert!(state.heartbeating);
    assert!(matches!(on_payload(&mut state, OP_HELLO, None, None, Some(1)), GatewayStep::Hello { start_heartbeat_ms: None, .. }));
    on_payload(&mut state, 0, Some(7), None, None);
    on_ready(&mut state, "sess".to_string(), None);
    let session = state.session.as_ref().unwrap();
    assert_eq!(session.sequence, 7);
    assert_eq!(session.resume_gateway_url, "wss://gateway.discord.gg");
    assert!(matches!(on_payload(&mut state, OP_INVALID_SESSION, None, Some(true), None), GatewayStep::InvalidSession { resumable: true }));
    assert!(state.session.is_some());
    assert!(matches!(on_payload(&mut state, OP_INVALID_SESSION, None, None, None), GatewayStep::InvalidSession { resumable: false }));
    assert!(state.session.is_none());
    assert_eq!(dispatch_kind("MESSAGE_CREATE"), DispatchKind::MessageCreate);
    assert_eq!(dispatch_kind("TYPING_START"), DispatchKind::Other);
}

#[test]
fn steps_end_connections_by_reconnecting_or_rejecting() {
    let mut state = connection_state(None);
    on_payload(&mut state, 0, Some(9), None, None);
    on_ready(&mut state, "sess".to_string(), Some("wss://resume".to_string()));
    on_payload(&mut state, 0, Some(12), None, None);
    match step_end(&state, &GatewayStep::Reconnect) {
        Some(ConnectionEnd::Reconnect(Some(s))) => {
            assert_eq!((s.id.as_str(), s.resume_gateway_url.as_str(), s.sequence), ("sess", "wss://resume", 12));
        },
        _ => panic!("expected a resuming reconnect"),
    }
    assert!(matches!(step_end(&state, &GatewayStep::InvalidSession { resumable: true }), Some(ConnectionEnd::Reconnect(Some(_)))));
    assert!(matches!(step_end(&state, &GatewayStep::InvalidSession { resumable: false }), Some(ConnectionEnd::Rejected)));
    assert!(step_end(&state, &GatewayStep::Dispatch).is_none());
    assert!(step_end(&state, &GatewayStep::Acknowledged).is_none());
    assert!(matches!(connection_lost(&state), ConnectionEnd::Reconnect(Some(s)) if s.sequence == 12));
    assert!(matches!(connection_lost(&connection_state(None)), ConnectionEnd::Reconnect(None)));
}

#[test]
fn the_third_rejected_session_is_fatal() {
    let mut state = ReconnectState::start();
    assert_eq!(state.rejected().unwrap(), 1);
    assert_eq!(state.rejected().unwrap(), 2);
    assert!(state.rejected().is_err());
    let mut fresh = ReconnectState::start();
    for _ in 0..10 {
        fresh.connect_failed();
    }
    assert_eq!(fresh.backoff_secs, 60);
    fresh.reconnect(None);
    assert_eq!(fresh.backoff_secs, 1);
}

#[test]
fn slash_command_descriptions_fall_back_to_the_name() {
    let builder = BotBuilder::new().command("ping", 1u8).command_with_description("help", "Show help", 2u8);
    let commands = slash_commands(&builder);
    assert_eq!(commands.len(), 2);
    assert_eq!((commands[0].name.as_str(), commands[0].description.as_str()), ("ping", "ping"));
    assert_eq!((commands[1].name.as_str(), commands[1].description.as_str()), ("help", "Show help"));
}

#[test]
fn oversized_downloads_are_refused() {
    assert!(check_download_size(10, 10).is_ok());
    assert_eq!(check_download_size(11, 10).unwrap_err(), "Discord: attachment is 11 bytes, over the 10-byte limit");
}

#[test]
fn an_unacknowledged_heartbeat_closes_the_connection() {
    let mut state = connection_state(None);
    assert_eq!(heartbeat_due(&mut state), HeartbeatTick::Send);
    assert!(matches!(on_payload(&mut state, OP_HEARTBEAT_ACK, None, None, None), GatewayStep::Acknowledged));
    assert_eq!(heartbeat_due(&mut state), HeartbeatTick::Send);
    assert_eq!(heartbeat_due(&mut state), HeartbeatTick::Close);
}
