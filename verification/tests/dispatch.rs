// Register handlers, route an event, run the handler it lands on, read the
// response: routing, extraction and response conversion together. Handlers
// here are plain functions of the event's context.

use std::sync::atomic::{AtomicUsize, Ordering};
use std::sync::Arc;

use botkit::common::component::{ActionRow, Button, Component};
use botkit::common::embed::Embed;
use botkit::common::extract::{ButtonId, CommandArgs, MessageContent, User};
use botkit::common::responder::IntoResponse;
use botkit::common::response::Response;
use botkit::common::router::{BotBuilder, Event};

/// A context whose fields the test controls.
struct FakeContext {
    user_id: String,
    user_name: String,
    command_args: Option<String>,
    button_id: Option<String>,
    message_content: Option<String>,
}

impl FakeContext {
    fn command(_name: &str, args: &str) -> Self {
        Self { command_args: Some(args.into()), ..Self::base() }
    }

    fn button(id: &str) -> Self {
        Self { button_id: Some(id.into()), ..Self::base() }
    }

    fn message(text: &str) -> Self {
        Self { message_content: Some(text.into()), ..Self::base() }
    }

    fn base() -> Self {
        Self {
            user_id: "u1".into(),
            user_name: "Ada".into(),
            command_args: None,
            button_id: None,
            message_content: None,
        }
    }
}

type Handler = Arc<dyn Fn(&FakeContext) -> Response + Send + Sync>;

/// Route an event and run whatever handler it lands on.
fn dispatch(builder: &BotBuilder<Handler>, event: Event<'_>, data: FakeContext) -> Option<Response> {
    let handler = builder.route(event)?.clone();
    Some(handler(&data))
}

fn ping() -> Handler {
    Arc::new(|_ctx: &FakeContext| "Pong!".into_response())
}

fn greet() -> Handler {
    Arc::new(|ctx: &FakeContext| {
        let user = User::from_context_values(&ctx.user_id, &ctx.user_name);
        format!("Hello, {}!", user.name).into_response()
    })
}

fn echo() -> Handler {
    Arc::new(|ctx: &FakeContext| CommandArgs::from_context_value(ctx.command_args.as_deref()).0.into_response())
}

fn pressed() -> Handler {
    Arc::new(|ctx: &FakeContext| {
        let id = ButtonId::from_context_value(ctx.button_id.as_deref());
        Response::text(&format!("You pressed {}", id.0)).ephemeral()
    })
}

fn heard() -> Handler {
    Arc::new(|ctx: &FakeContext| {
        let content = MessageContent::from_context_value(ctx.message_content.as_deref());
        format!("heard: {}", content.0).into_response()
    })
}

fn bot() -> BotBuilder<Handler> {
    BotBuilder::new()
        .command("ping", ping())
        .command_with_description("greet", "Say hello", greet())
        .command("echo", echo())
        .button("confirm_*", pressed())
        .message(heard())
}

#[test]
fn commands_reach_their_handler() {
    let response = dispatch(&bot(), Event::Command("ping"), FakeContext::command("ping", "")).expect("routed");
    assert_eq!(response.content(), Some("Pong!"));
}

#[test]
fn extractors_read_from_the_dispatched_context() {
    let response = dispatch(&bot(), Event::Command("greet"), FakeContext::command("greet", "")).expect("routed");
    assert_eq!(response.content(), Some("Hello, Ada!"));

    let response =
        dispatch(&bot(), Event::Command("echo"), FakeContext::command("echo", "say this back")).expect("routed");
    assert_eq!(response.content(), Some("say this back"));
}

#[test]
fn wildcard_buttons_reach_their_handler_with_the_full_id() {
    let response =
        dispatch(&bot(), Event::Button("confirm_delete"), FakeContext::button("confirm_delete")).expect("routed");
    assert_eq!(response.content(), Some("You pressed confirm_delete"));
    assert!(response.is_ephemeral());
}

#[test]
fn the_message_handler_catches_everything_else() {
    let response = dispatch(&bot(), Event::Message, FakeContext::message("hi there")).expect("routed");
    assert_eq!(response.content(), Some("heard: hi there"));
}

#[test]
fn unregistered_events_route_nowhere() {
    let bot = bot();
    assert!(bot.route(Event::Command("nope")).is_none());
    assert!(bot.route(Event::Button("nope")).is_none());
}

#[test]
fn handlers_are_shared_not_copied_per_dispatch() {
    let calls = Arc::new(AtomicUsize::new(0));
    let counter = Arc::clone(&calls);
    let count: Handler = Arc::new(move |_ctx: &FakeContext| {
        counter.fetch_add(1, Ordering::Relaxed);
        "counted".into_response()
    });
    let bot = BotBuilder::new().command("count", count);

    for _ in 0..3 {
        dispatch(&bot, Event::Command("count"), FakeContext::command("count", "")).expect("routed");
    }

    assert_eq!(calls.load(Ordering::Relaxed), 3);
}

#[test]
fn rich_responses_survive_the_round_trip() {
    let menu: Handler = Arc::new(|_ctx: &FakeContext| {
        Response::text("Pick one")
            .with_embed(Embed::new().title("Menu").description("Choose wisely"))
            .with_components(vec![Component::ActionRow(ActionRow::buttons(vec![
                Button::primary("yes", "Yes"),
                Button::link("https://example.com", "Docs"),
            ]))])
    });
    let bot = BotBuilder::new().command("menu", menu);

    let response = dispatch(&bot, Event::Command("menu"), FakeContext::command("menu", "")).expect("routed");

    assert_eq!(response.content(), Some("Pick one"));
    assert_eq!(response.embeds().len(), 1);
    assert_eq!(response.embeds()[0].title.as_deref(), Some("Menu"));
    assert_eq!(response.components().len(), 1);
}

#[test]
fn command_descriptions_are_available_for_platform_menus() {
    let commands: Vec<_> = bot()
        .commands()
        .into_iter()
        .map(|c| (c.name.to_string(), c.description.to_string()))
        .collect();

    assert_eq!(
        commands,
        vec![
            ("ping".to_string(), String::new()),
            ("greet".to_string(), "Say hello".to_string()),
            ("echo".to_string(), String::new()),
        ]
    );
}
