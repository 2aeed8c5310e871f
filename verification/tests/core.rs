use botkit::common::component::{ActionRow, Button, Component, SelectMenu, SelectOption};
use botkit::common::embed::Embed;
use botkit::common::error::BotError;
use botkit::common::extract::{ButtonId, Channel, CommandArgs, CommandName, MessageContent, User};
use botkit::common::responder::IntoResponse;
use botkit::common::response::{FileSource, Response};
use botkit::common::router::{BotBuilder, Event, HandlerPattern};

fn builder() -> BotBuilder<&'static str> {
    BotBuilder::new()
        .command("ping", "reply")
        .command_with_description("help", "Show help", "reply")
        .button("exact", "reply")
        .button("confirm_*", "reply")
        .message("reply")
}

#[test]
fn routes_commands_by_name() {
    let builder = builder();
    assert!(builder.route(Event::Command("ping")).is_some());
    assert!(builder.route(Event::Command("help")).is_some());
    assert!(builder.route(Event::Command("missing")).is_none());
}

#[test]
fn routes_buttons_exactly_then_by_prefix() {
    let builder = builder();
    assert!(builder.route(Event::Button("exact")).is_some());
    assert!(builder.route(Event::Button("confirm_yes")).is_some());
    assert!(builder.route(Event::Button("confirm_")).is_some());
    assert!(builder.route(Event::Button("cancel")).is_none());
}

#[test]
fn command_and_button_namespaces_do_not_collide() {
    let builder = builder();
    assert!(builder.route(Event::Button("ping")).is_none());
    assert!(builder.route(Event::Command("exact")).is_none());
}

#[test]
fn message_handler_is_a_catch_all() {
    assert!(builder().route(Event::Message).is_some());
    assert!(BotBuilder::<&'static str>::new().route(Event::Message).is_none());
}

#[test]
fn first_registration_wins() {
    let builder = BotBuilder::new().command("dup", "first").command("dup", "second");
    assert_eq!(builder.route(Event::Command("dup")), Some(&"first"));
}

#[test]
fn commands_keep_registration_order_and_descriptions() {
    let commands: Vec<_> = builder()
        .commands()
        .into_iter()
        .map(|c| (c.name.to_string(), c.description.to_string()))
        .collect();
    assert_eq!(
        commands,
        vec![
            ("ping".to_string(), String::new()),
            ("help".to_string(), "Show help".to_string()),
        ]
    );
}

#[test]
fn described_commands_are_listed() {
    let builder = BotBuilder::new().command_with_description("help", "Show help", 1u8);
    assert!(builder.has_commands());
    let commands = builder.commands();
    assert_eq!(commands.len(), 1);
    assert_eq!(commands[0].name, "help");
    assert_eq!(commands[0].description, "Show help");
}

#[test]
fn pattern_matching_mirrors_routing() {
    assert!(HandlerPattern::Command("ping".into()).matches(Event::Command("ping")));
    assert!(!HandlerPattern::Command("ping".into()).matches(Event::Button("ping")));
    assert!(HandlerPattern::Button("confirm_*".into()).matches(Event::Button("confirm_yes")));
    assert!(!HandlerPattern::Button("confirm_*".into()).matches(Event::Button("deny")));
    assert!(HandlerPattern::Message.matches(Event::Message));
}

#[test]
fn prefix_patterns_route_every_matching_id() {
    let builder = BotBuilder::new().button("vote_*", "vote");
    assert_eq!(builder.route(Event::Button("vote_42")), Some(&"vote"));
    assert!(builder.route(Event::Button("vot")).is_none());
}

#[test]
fn a_lone_command_claims_nothing_else() {
    let builder = BotBuilder::new().command("only", 1u8);
    assert!(builder.route(Event::Command("other")).is_none());
    assert!(builder.route(Event::Button("only")).is_none());
    assert!(builder.route(Event::Message).is_none());
}

#[test]
fn exact_buttons_win_over_earlier_prefixes() {
    let builder = BotBuilder::new().button("go_*", "prefix").button("go_now", "exact");
    assert_eq!(builder.route(Event::Button("go_now")), Some(&"exact"));
    assert_eq!(builder.route(Event::Button("go_later")), Some(&"prefix"));
}

#[test]
fn text_carries_content() {
    let response = Response::text("hi");
    assert_eq!(response.content(), Some("hi"));
    assert!(!response.is_empty());
    assert!(!response.is_file());
}

#[test]
fn empty_response_is_empty() {
    assert!(Response::empty().is_empty());
    assert!(Response::text("").is_empty());
    assert!(!Response::acknowledge().is_empty());
}

#[test]
fn builders_promote_empty_instead_of_dropping_values() {
    let response = Response::empty().with_embed(Embed::new().title("t")).ephemeral();
    assert_eq!(response.embeds().len(), 1);
    assert!(response.is_ephemeral());
    assert!(!response.is_empty());
}

#[test]
fn embed_constructor_matches_builder() {
    let response = Response::embed(Embed::new().title("t"));
    assert_eq!(response.embeds().len(), 1);
    assert_eq!(response.embeds()[0].title.as_deref(), Some("t"));
}

#[test]
fn message_builders_leave_file_responses_alone() {
    let response = Response::bytes(b"data".to_vec()).with_embed(Embed::new()).ephemeral();
    assert!(response.is_file());
    assert!(response.embeds().is_empty());
    assert!(!response.is_ephemeral());
}

#[test]
fn path_responses_default_their_filename() {
    let response = Response::path("/tmp/report.pdf");
    let mut response = response;
    let file = response.take_file().unwrap();
    assert_eq!(file.filename.as_deref(), Some("report.pdf"));
}

#[test]
fn take_file_yields_the_payload_once() {
    let mut response = Response::bytes(b"hello".to_vec()).with_caption("cap");
    let file = response.take_file().expect("first take yields the file");
    assert_eq!(file.caption.as_deref(), Some("cap"));
    match file.file {
        FileSource::Bytes(bytes) => assert_eq!(bytes, b"hello"),
        _ => panic!("expected bytes"),
    }
    assert!(response.take_file().is_none());
    assert!(response.is_empty());
}

#[test]
fn take_file_preserves_non_file_responses() {
    let mut response = Response::text("hi");
    assert!(response.take_file().is_none());
    assert_eq!(response.content(), Some("hi"));
}

#[test]
fn acknowledge_is_neither_empty_nor_a_message() {
    let response = Response::acknowledge();
    assert!(response.is_acknowledge());
    assert_eq!(response.content(), None);
    assert!(response.components().is_empty());
}

#[test]
fn components_and_filenames_attach_where_they_belong() {
    let response = Response::text("pick").with_components(vec![Component::Button(Button::primary("a", "A"))]);
    assert_eq!(response.components().len(), 1);
    let mut file = Response::bytes(vec![1, 2, 3]).with_filename("x.bin");
    let taken = file.take_file().unwrap();
    assert_eq!(taken.filename.as_deref(), Some("x.bin"));
}

#[test]
fn strings_become_text_responses() {
    assert_eq!("hi".into_response().content(), Some("hi"));
    assert_eq!(String::from("hi").into_response().content(), Some("hi"));
    assert_eq!(std::borrow::Cow::Borrowed("hi").into_response().content(), Some("hi"));
}

#[test]
fn unit_and_none_are_empty() {
    assert!(().into_response().is_empty());
    assert!(Option::<String>::None.into_response().is_empty());
    assert_eq!(Some("hi").into_response().content(), Some("hi"));
}

#[test]
fn errors_render_their_display() {
    let result: Result<&str, std::fmt::Error> = Err(std::fmt::Error);
    assert_eq!(
        result.into_response().content(),
        Some("Error: an error occurred when formatting an argument")
    );
}

#[test]
fn ok_passes_the_inner_value_through() {
    let result: Result<&str, std::fmt::Error> = Ok("fine");
    assert_eq!(result.into_response().content(), Some("fine"));
}

#[test]
fn captions_attach_to_file_responses() {
    let mut response = (std::path::PathBuf::from("/tmp/a.txt"), "caption").into_response();
    let file = response.take_file().unwrap();
    assert_eq!(file.caption.as_deref(), Some("caption"));
    assert_eq!(file.filename.as_deref(), Some("a.txt"));
}

#[test]
fn paths_become_path_file_responses() {
    let mut response = std::path::PathBuf::from("/tmp/report.pdf").into_response();
    let file = response.take_file().unwrap();
    assert!(matches!(&file.file, FileSource::Path(p) if p == "/tmp/report.pdf"));
    assert_eq!(file.filename.as_deref(), Some("report.pdf"));
    assert_eq!(file.caption, None);
}

#[test]
fn extracts_user_and_channel() {
    let user = User::from_context_values("stub-user", "stub-user");
    assert_eq!((user.id.as_str(), user.name.as_str()), ("stub-user", "stub-user"));
    assert_eq!(Channel::from_context_value("stub-channel").id, "stub-channel");
}

#[test]
fn extracts_command_parts() {
    assert_eq!(CommandName::from_context_value(Some("cmd")).0, "cmd");
    assert_eq!(CommandArgs::from_context_value(Some("args")).0, "args");
    assert_eq!(ButtonId::from_context_value(Some("stub-button")).0, "stub-button");
    assert_eq!(MessageContent::from_context_value(Some("stub message")).0, "stub message");
}

#[test]
fn absent_fields_extract_as_empty_strings() {
    assert_eq!(CommandName::from_context_value(None).0, "");
    assert_eq!(CommandArgs::from_context_value(None).0, "");
    assert_eq!(ButtonId::from_context_value(None).0, "");
    assert_eq!(MessageContent::from_context_value(None).0, "");
}

#[test]
fn component_builders_set_their_fields() {
    let link = Button::link("https://example.com", "Docs");
    assert_eq!(link.url.as_deref(), Some("https://example.com"));
    assert!(link.custom_id.is_none());
    let b = Button::danger("del", "Delete").disabled().with_emoji("🗑");
    assert!(b.disabled);
    assert_eq!(b.emoji.as_deref(), Some("🗑"));
    let menu = SelectMenu::new("pick", vec![SelectOption::new("One", "1").description("first").default()])
        .placeholder("Choose")
        .min_max(1, 2);
    assert_eq!(menu.placeholder.as_deref(), Some("Choose"));
    assert_eq!((menu.min_values, menu.max_values), (1, 2));
    assert_eq!(menu.options[0].description.as_deref(), Some("first"));
    assert!(menu.options[0].default);
    let row = ActionRow::buttons(vec![Button::primary("a", "A"), Button::secondary("b", "B")]);
    assert_eq!(row.components.len(), 2);
}

#[test]
fn embed_builders_fill_every_part() {
    let e = Embed::new()
        .title("T")
        .description("D")
        .url("https://e.x")
        .color(0xff0000)
        .field("K", "V", true)
        .footer("F")
        .image("https://i.x")
        .thumbnail("https://t.x")
        .author("A")
        .timestamp("2024-01-01T00:00:00Z");
    assert_eq!(e.title.as_deref(), Some("T"));
    assert_eq!(e.color, Some(0xff0000));
    assert_eq!(e.fields.len(), 1);
    assert!(e.fields[0].inline);
    assert_eq!(e.footer.as_ref().map(|f| f.text.as_str()), Some("F"));
    assert_eq!(e.author.as_ref().map(|a| a.name.as_str()), Some("A"));
}

#[test]
fn bot_errors_render_their_kind() {
    assert_eq!(BotError::Api("x".to_string()).message(), "API request failed: x");
    assert_eq!(BotError::Auth("y".to_string()).message(), "authentication failed: y");
    assert_eq!(BotError::Connection("z".to_string()).message(), "connection failed: z");
    assert_eq!(BotError::Other("w".to_string()).message(), "w");
}
