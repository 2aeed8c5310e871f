use botkit::matrix::config::{LoginPlan, MatrixAuth, MatrixConfig};
use botkit::common::error::BotError;
use botkit::common::component::{ActionRow, Button, Component};
use botkit::common::embed::Embed;
use botkit::common::response::Response;
use botkit::matrix::event::{
    invite_is_for_me, is_actionable, message_event, message_info, parse_command, plan_reply, reaction_button_id, reaction_info,
    MatrixReply, RoomMembership,
};
use botkit::matrix::html::{component_links, escape_html_into, render_html};

fn escape(s: &str) -> String {
    let mut out = String::new();
    escape_html_into(&mut out, s);
    out
}

fn parse(text: &str, prefix: &str) -> (Option<String>, Option<String>) {
    parse_command(Some(text), prefix)
}

#[test]
fn escaping_covers_every_metacharacter() {
    assert_eq!(escape(r#"<a href="x">&'</a>"#), "&lt;a href=&quot;x&quot;&gt;&amp;&#39;&lt;/a&gt;");
}

#[test]
fn escaping_leaves_ordinary_text_alone() {
    assert_eq!(escape("hello 🎉 world"), "hello 🎉 world");
}

#[test]
fn plain_text_needs_no_html() {
    assert_eq!(render_html("hi", &[], &[]), None);
}

#[test]
fn embeds_render_as_blockquotes() {
    let embed = Embed::new().title("Title").description("Body").field("Key", "Value", false).footer("Footer");
    let html = render_html("Intro", std::slice::from_ref(&embed), &[]).expect("html");
    assert_eq!(
        html,
        "<p>Intro</p><blockquote><strong>Title</strong><br/>Body<br/>\
         <em>Key:</em> Value<br/><small>Footer</small></blockquote>"
    );
}

#[test]
fn embed_content_is_escaped() {
    let embed = Embed::new().description("<script>alert(1)</script>");
    let html = render_html("", std::slice::from_ref(&embed), &[]).expect("html");
    assert!(!html.contains("<script>"));
    assert!(html.contains("&lt;script&gt;"));
}

#[test]
fn link_buttons_become_a_list() {
    let components = vec![Component::ActionRow(ActionRow::buttons(vec![
        Button::link("https://example.com", "Docs"),
        Button::primary("noop", "Press"),
    ]))];
    let html = render_html("See:", &[], &components).expect("html");
    assert_eq!(html, "<p>See:</p><ul><li><a href=\"https://example.com\">Docs</a></li></ul>");
}

#[test]
fn callback_only_components_need_no_html() {
    let components = vec![Component::Button(Button::primary("noop", "Press"))];
    assert_eq!(render_html("hi", &[], &components), None);
}

#[test]
fn reaction_ids_match_button_registration() {
    assert_eq!(reaction_button_id("👍"), "reaction:👍");
}

#[test]
fn nested_rows_still_yield_their_links() {
    let components = vec![Component::ActionRow(ActionRow::new(vec![Component::ActionRow(ActionRow::buttons(vec![
        Button::link("https://a", "A"),
    ]))])), Component::Button(Button::link("https://b", "B"))];
    assert_eq!(component_links(&components), vec![("A", "https://a"), ("B", "https://b")]);
}

#[test]
fn matrix_parses_a_command_with_arguments() {
    let (name, args) = parse("!greet world and beyond", "!");
    assert_eq!(name.as_deref(), Some("greet"));
    assert_eq!(args.as_deref(), Some("world and beyond"));
}

#[test]
fn matrix_parses_a_bare_command() {
    assert_eq!(parse("!ping", "!"), (Some("ping".into()), None));
}

#[test]
fn trailing_whitespace_is_not_an_argument() {
    assert_eq!(parse("!ping   ", "!"), (Some("ping".into()), None));
}

#[test]
fn multi_character_prefixes_work() {
    assert_eq!(parse(">>ping now", ">>"), (Some("ping".into()), Some("now".into())));
}

#[test]
fn messages_without_the_prefix_are_not_commands() {
    assert_eq!(parse("ping", "!"), (None, None));
    assert_eq!(parse("hey !ping", "!"), (None, None));
}

#[test]
fn a_bare_prefix_is_not_a_command() {
    assert_eq!(parse("!", "!"), (None, None));
    assert_eq!(parse("! ping", "!"), (None, None));
}

#[test]
fn an_empty_prefix_does_not_make_everything_a_command() {
    assert_eq!(parse("hello", ""), (None, None));
}

#[test]
fn non_ascii_prefixes_split_on_character_boundaries() {
    assert_eq!(parse("🤖ping now", "🤖"), (Some("ping".into()), Some("now".into())));
}

#[test]
fn absent_text_is_not_a_command() {
    assert_eq!(parse_command(None, "!"), (None, None));
}

#[test]
fn room_events_route_by_command_or_as_messages() {
    let cmd = message_info("!room:x", "@ada:x", "ada", Some("!ping now"), "!");
    assert_eq!(cmd.command_name.as_deref(), Some("ping"));
    assert!(matches!(message_event(&cmd), Some(botkit::common::router::Event::Command("ping"))));
    let chat = message_info("!room:x", "@ada:x", "ada", Some("hello"), "!");
    assert!(matches!(message_event(&chat), Some(botkit::common::router::Event::Message)));
    let image = message_info("!room:x", "@ada:x", "ada", None, "!");
    assert!(message_event(&image).is_none());
    let reaction = reaction_info("!room:x", "@ada:x", "ada", "👍");
    assert_eq!(reaction.button_id.as_deref(), Some("reaction:👍"));
}

#[test]
fn replies_pick_plain_formatted_or_file() {
    let mut plain = Response::text("hi");
    assert!(matches!(plan_reply(&mut plain), MatrixReply::Plain(t) if t == "hi"));
    let mut rich = Response::text("See:").with_components(vec![Component::Button(Button::link("https://x", "X"))]);
    assert!(matches!(plan_reply(&mut rich), MatrixReply::Formatted { .. }));
    let mut file = Response::bytes(vec![1]);
    assert!(matches!(plan_reply(&mut file), MatrixReply::File { filename, .. } if filename == "file"));
    let mut nothing = Response::acknowledge();
    assert!(matches!(plan_reply(&mut nothing), MatrixReply::Nothing));
}

#[test]
fn matrix_config_defaults_and_builder() {
    let config = MatrixConfig::new("https://matrix.org");
    assert_eq!(config.homeserver(), "https://matrix.org");
    assert_eq!(config.prefix(), "!");
    assert!(!config.joins_automatically());
    match config.authentication() {
        MatrixAuth::Password { user_id, password } => {
            assert!(user_id.is_empty());
            assert!(password.is_empty());
        }
        other => panic!("unexpected auth {other:?}"),
    }

    let config = config
        .password_auth("@bot:matrix.org", "secret")
        .command_prefix("?")
        .device_name("botkit")
        .state_store_path("/tmp/store")
        .auto_join_rooms(true);
    assert_eq!(config.prefix(), "?");
    assert!(config.joins_automatically());
    match config.authentication() {
        MatrixAuth::Password { user_id, password } => {
            assert_eq!(user_id, "@bot:matrix.org");
            assert_eq!(password, "secret");
        }
        other => panic!("unexpected auth {other:?}"),
    }

    let config = config.access_token_auth("@bot:matrix.org", "tok", "DEVICE");
    match config.authentication() {
        MatrixAuth::AccessToken { user_id, access_token, device_id } => {
            assert_eq!(user_id, "@bot:matrix.org");
            assert_eq!(access_token, "tok");
            assert_eq!(device_id, "DEVICE");
        }
        other => panic!("unexpected auth {other:?}"),
    }
}

#[test]
fn login_needs_configured_credentials() {
    let config = MatrixConfig::new("https://matrix.org");
    match config.login_plan() {
        Err(BotError::Auth(m)) => assert_eq!(m, "no credentials configured; call password_auth or access_token_auth"),
        other => panic!("unexpected {other:?}"),
    }
    let config = config.password_auth("@bot:matrix.org", "pw").device_name("botkit");
    match config.login_plan() {
        Ok(LoginPlan::Password { user_id, password, device_name }) => {
            assert_eq!(user_id, "@bot:matrix.org");
            assert_eq!(password, "pw");
            assert_eq!(device_name.as_deref(), Some("botkit"));
        }
        other => panic!("unexpected {other:?}"),
    }
    let config = config.access_token_auth("@bot:matrix.org", "tok", "DEV");
    match config.login_plan() {
        Ok(LoginPlan::Restore { user_id, access_token, device_id }) => {
            assert_eq!((user_id.as_str(), access_token.as_str(), device_id.as_str()), ("@bot:matrix.org", "tok", "DEV"));
        }
        other => panic!("unexpected {other:?}"),
    }
}

#[test]
fn only_joined_rooms_and_other_senders_are_actionable() {
    let me = Some("@bot:example.org");
    assert!(is_actionable(RoomMembership::Joined, me, "@alice:example.org"));
    assert!(!is_actionable(RoomMembership::Joined, me, "@bot:example.org"));
    assert!(!is_actionable(RoomMembership::Invited, me, "@alice:example.org"));
    assert!(!is_actionable(RoomMembership::Left, me, "@alice:example.org"));
    assert!(is_actionable(RoomMembership::Joined, None, "@alice:example.org"));
}

#[test]
fn only_invites_addressed_to_the_bot_are_joined() {
    let me = Some("@bot:example.org");
    assert!(invite_is_for_me(RoomMembership::Invited, me, "@bot:example.org"));
    assert!(!invite_is_for_me(RoomMembership::Invited, me, "@alice:example.org"));
    assert!(!invite_is_for_me(RoomMembership::Joined, me, "@bot:example.org"));
    assert!(!invite_is_for_me(RoomMembership::Invited, None, "@bot:example.org"));
}
