use botkit::cli::args::Args;
use botkit::cli::context::{action_line, clear_line};
use botkit::cli::inject::{build_event, unknown_command};
use botkit::cli::outbound::{components_to_buttons, file_outbound, inbound_event, media_kind, media_kind_for, message_outbound};
use botkit::cli::transport::{assign_message_id, MessageIds};
use botkit::cli::wire::{Inbound, InboundButton, InboundCommand, InboundEdited, InboundMessage, InboundReaction, WireUser};
use botkit::common::action::ChatAction;
use botkit::common::component::{ActionRow, Button, Component, SelectMenu, SelectOption};
use botkit::common::response::Response;
use botkit::common::router::Event;

fn user() -> WireUser {
    WireUser { id: "u1".to_string(), name: "alice".to_string() }
}

fn message(message_id: Option<i64>) -> Inbound {
    Inbound::Message(Box::new(InboundMessage {
        chat: "c".to_string(),
        user: user(),
        message_id,
        text: None,
        caption: None,
        thread_id: None,
        reply_to: None,
        files: vec![],
        sticker: None,
        ambient: false,
    }))
}

fn words(list: &[&str]) -> Vec<String> {
    list.iter().map(|s| s.to_string()).collect()
}

#[test]
fn ensure_message_id_fills_missing() {
    let mut event = message(None);
    event.ensure_message_id(|| 42);
    assert_eq!(event.message_id(), Some(42));

    let mut fixed = Inbound::Edited(InboundEdited {
        chat: "c".to_string(),
        user: user(),
        message_id: 5,
        text: None,
        thread_id: None,
    });
    fixed.ensure_message_id(|| 99);
    assert_eq!(fixed.message_id(), Some(5));
}

#[test]
fn inject_assigns_message_ids() {
    let mut ids = MessageIds::new();
    let mut first_event = message(None);
    let mut second_event = message(None);
    let first = assign_message_id(&mut ids, &mut first_event);
    let second = assign_message_id(&mut ids, &mut second_event);
    assert_eq!((first, second), (1, 2));
    assert_eq!(first_event.message_id(), Some(1));
    assert_eq!(second_event.message_id(), Some(2));
}

#[test]
fn given_message_ids_are_kept() {
    let mut event = message(Some(7));
    event.ensure_message_id(|| 100);
    assert_eq!(event.message_id(), Some(7));
    assert_eq!(event.chat(), "c");
    assert_eq!(event.user().map(|u| u.name.as_str()), Some("alice"));
    assert_eq!(event.thread_id(), None);
    assert_eq!(Inbound::Subscribe.chat(), "");
}

#[test]
fn flags_collect_every_value_and_skip_flag_values_for_positionals() {
    let all = words(&["--sock", "s", "message", "--file", "photo:/a", "--file", "doc:/b", "--chat", "c"]);
    let args = Args::new(&all);
    assert_eq!(args.next_positional().as_deref(), Some("message"));
    assert_eq!(args.values("--file"), vec!["photo:/a".to_string(), "doc:/b".to_string()]);
    assert_eq!(args.value("--chat").as_deref(), Some("c"));
    assert_eq!(args.opt_value("--text"), None);
    assert_eq!(Args::new(&words(&["--chat"])).value("--chat"), None);
}

#[test]
fn integer_flags_parse_or_are_absent() {
    let all = words(&["--message-id", "42", "--thread", "x", "--reply-to", "-7"]);
    let args = Args::new(&all);
    assert_eq!(args.i64("--message-id"), Some(42));
    assert_eq!(args.i64("--thread"), None);
    assert_eq!(args.i64("--reply-to"), Some(-7));
    assert_eq!(args.i64("--missing"), None);
    let big = words(&["--n", "9223372036854775808", "--m", "-9223372036854775808"]);
    let args = Args::new(&big);
    assert_eq!(args.i64("--n"), None);
    assert_eq!(args.i64("--m"), Some(i64::MIN));
}

#[test]
fn build_event_requires_chat_then_user() {
    let none = words(&[]);
    assert_eq!(build_event("message", &Args::new(&none)).unwrap_err(), "--chat is required");
    let chat_only = words(&["--chat", "c"]);
    assert_eq!(build_event("message", &Args::new(&chat_only)).unwrap_err(), "--user is required");
}

#[test]
fn build_event_makes_messages_with_files_and_stickers() {
    let all = words(&[
        "--chat", "c", "--user", "u", "--text", "hi", "--file", "photo:/tmp/a.png", "--sticker", "S1", "--ambient", "yes",
        "--reply-to", "3",
    ]);
    match build_event("send", &Args::new(&all)).unwrap() {
        Inbound::Message(m) => {
            assert_eq!(m.chat, "c");
            assert_eq!(m.user.id, "u");
            assert_eq!(m.user.name, "u");
            assert_eq!(m.text.as_deref(), Some("hi"));
            assert_eq!(m.files.len(), 1);
            assert_eq!(m.files[0].kind, "photo");
            assert_eq!(m.files[0].path, "/tmp/a.png");
            let sticker = m.sticker.expect("sticker");
            assert_eq!(sticker.file_id, "S1");
            assert_eq!(sticker.format, "static");
            assert!(m.ambient);
            assert_eq!(m.reply_to.map(|r| r.message_id), Some(3));
        },
        other => panic!("expected a message, got {other:?}"),
    }
    let quiet = words(&["--chat", "c", "--user", "u", "--ambient", "no"]);
    match build_event("message", &Args::new(&quiet)).unwrap() {
        Inbound::Message(m) => assert!(!m.ambient),
        other => panic!("expected a message, got {other:?}"),
    }
}

#[test]
fn build_event_rejects_files_without_a_kind() {
    let all = words(&["--chat", "c", "--user", "u", "--file", "nokind"]);
    assert_eq!(build_event("message", &Args::new(&all)).unwrap_err(), "--file expects KIND:PATH");
}

#[test]
fn build_event_makes_commands_buttons_reactions_and_edits() {
    let all = words(&["--chat", "c", "--user", "u", "--name", "ping", "--args", "a b"]);
    match build_event("command", &Args::new(&all)).unwrap() {
        Inbound::Command(c) => {
            assert_eq!(c.name, "ping");
            assert_eq!(c.args, "a b");
            assert_eq!(c.user.name, "ping");
        },
        other => panic!("expected a command, got {other:?}"),
    }
    let no_name = words(&["--chat", "c", "--user", "u"]);
    assert_eq!(build_event("command", &Args::new(&no_name)).unwrap_err(), "--name is required");
    assert_eq!(build_event("button", &Args::new(&no_name)).unwrap_err(), "--data is required");
    assert_eq!(build_event("react", &Args::new(&no_name)).unwrap_err(), "--message-id is required");
    assert_eq!(build_event("edit", &Args::new(&no_name)).unwrap_err(), "--message-id is required");
    let react = words(&["--chat", "c", "--user", "u", "--message-id", "9", "--add", "👍", "--add", "🎉", "--remove", "👎"]);
    match build_event("react", &Args::new(&react)).unwrap() {
        Inbound::Reaction(r) => {
            assert_eq!(r.message_id, 9);
            assert_eq!(r.added, vec!["👍".to_string(), "🎉".to_string()]);
            assert_eq!(r.removed, vec!["👎".to_string()]);
        },
        other => panic!("expected a reaction, got {other:?}"),
    }
}

#[test]
fn unknown_commands_are_quoted() {
    let all = words(&["--chat", "c", "--user", "u"]);
    assert_eq!(build_event("dance", &Args::new(&all)).unwrap_err(), "unknown command \"dance\"");
    assert_eq!(unknown_command("\"x\""), "unknown command \"x\"");
}

#[test]
fn injected_events_route_by_kind() {
    let command = Inbound::Command(InboundCommand {
        chat: "c1".to_string(),
        user: user(),
        name: "ping".to_string(),
        args: String::new(),
        message_id: None,
        thread_id: None,
    });
    assert!(matches!(inbound_event(&command), Event::Command("ping")));
    let button = Inbound::Button(InboundButton {
        chat: "c1".to_string(),
        user: user(),
        data: "yes".to_string(),
        message_id: Some(3),
        message_text: Some("sure?".to_string()),
        thread_id: None,
    });
    assert!(matches!(inbound_event(&button), Event::Button("yes")));
    assert_eq!(button.button_id(), Some("yes"));
    assert_eq!(button.message_content(), Some("sure?"));
    let reaction = Inbound::Reaction(InboundReaction {
        chat: "c1".to_string(),
        user: user(),
        message_id: 4,
        added: vec!["👍".to_string()],
        removed: vec![],
    });
    assert!(matches!(inbound_event(&reaction), Event::Message));
    assert_eq!(command.command_name(), Some("ping"));
    assert_eq!(command.command_args(), Some(""));
}

#[test]
fn keyboard_rows_keep_only_rows_with_buttons() {
    let components = vec![
        Component::ActionRow(ActionRow::buttons(vec![Button::primary("a", "A"), Button::link("https://x", "X")])),
        Component::Button(Button::primary("loose", "L")),
        Component::ActionRow(ActionRow::new(vec![Component::SelectMenu(SelectMenu::new("m", vec![SelectOption::new("o", "1")]))])),
    ];
    let rows = components_to_buttons(&components);
    assert_eq!(rows.len(), 1);
    assert_eq!(rows[0].len(), 2);
    assert_eq!(rows[0][0].data.as_deref(), Some("a"));
    assert_eq!(rows[0][1].url.as_deref(), Some("https://x"));
}

#[test]
fn media_kinds_follow_the_mime_type() {
    assert_eq!(media_kind("cat.gif"), "animation");
    assert_eq!(media_kind("cat.png"), "photo");
    assert_eq!(media_kind("clip.mp4"), "video");
    assert_eq!(media_kind("note.ogg"), "voice");
    assert_eq!(media_kind("song.mp3"), "audio");
    assert_eq!(media_kind("report.pdf"), "document");
    assert_eq!(media_kind("noextension"), "document");
    assert_eq!(media_kind_for("image", "jpeg"), "photo");
    assert_eq!(media_kind_for("audio", "ogg"), "voice");
}

#[test]
fn responses_become_outbound_messages_and_files() {
    let response = Response::text("echo: hi");
    let out = message_outbound("c1", 5, Some(2), &response, None).expect("a message");
    assert_eq!(out.chat, "c1");
    assert_eq!(out.text, "echo: hi");
    assert_eq!(out.message_id, 5);
    assert_eq!(out.thread_id, Some(2));
    assert!(message_outbound("c1", 5, None, &Response::empty(), None).is_none());

    let mut file = Response::bytes(b"hi".to_vec()).with_filename("a.png");
    let taken = file.take_file().unwrap();
    let out = file_outbound("c1", 6, None, taken, vec![]);
    assert_eq!(out.kind, "photo");
    assert_eq!(out.data.as_deref(), Some("aGk="));
    assert!(out.path.is_none());

    let mut path = Response::path("/tmp/report.pdf");
    let taken = path.take_file().unwrap();
    let out = file_outbound("c1", 7, None, taken, vec![]);
    assert_eq!(out.path.as_deref(), Some("/tmp/report.pdf"));
    assert!(out.data.is_none());
    assert_eq!(out.kind, "document");
}

#[test]
fn typing_lines_name_the_action() {
    let line = action_line("c1", None, ChatAction::UploadPhoto, false);
    assert_eq!(line.action, "upload_photo");
    assert!(!line.clear);
    let clear = clear_line("c1", Some(4));
    assert_eq!(clear.action, "typing");
    assert!(clear.clear);
    assert_eq!(clear.thread_id, Some(4));
}
