//! Building the inbound event that the `botkit-cli` driver injects, from its
//! command word and flags.
use crate::cli::args::{flag_i64, flag_value, flag_values, Args};
use crate::cli::wire::{
    Inbound, InboundButton, InboundCommand, InboundEdited, InboundMessage, InboundReaction,
    WireFile, WireReplyRef, WireSticker, WireUser,
};
use crate::text::{opt_view, split_once, split_once_char, str_eq, push_str};
use crate::cli::args::strings_view;
use vstd::prelude::*;

verus! {

/// What `{:?}` prints for a string: the text in double quotes, with quotes,
/// backslashes and unprintable characters escaped.
pub uninterp spec fn str_debug(s: Seq<char>) -> Seq<char>;

/// `format!("{:?}", s)` for a string slice; the contract claims only that
/// the text is `str_debug` of `s`.
#[verifier::external_body]
fn debug_string(s: &str) -> (r: String)
    ensures
        r@ == str_debug(s@),
{
    format!("{s:?}")
}

/// The value of a flag that the caller has checked is present.
pub open spec fn present(v: Option<Seq<char>>) -> Seq<char> {
    match v {
        Some(x) => x,
        None => Seq::empty(),
    }
}

/// The error `build_event` reports for command `command` and words `w`,
/// checked in the order the driver checks them; `None` when the event is built.
pub open spec fn event_error(command: Seq<char>, w: Seq<Seq<char>>) -> Option<Seq<char>> {
    if flag_value(w, "--chat"@) is None {
        Some("--chat is required"@)
    } else if flag_value(w, "--user"@) is None {
        Some("--user is required"@)
    } else if command == "message"@ || command == "send"@ {
        if exists|i: int|
            0 <= i < flag_values(w, "--file"@).len() && #[trigger] split_once(
                flag_values(w, "--file"@)[i],
                ':',
            ) is None {
            Some("--file expects KIND:PATH"@)
        } else {
            None
        }
    } else if command == "command"@ {
        if flag_value(w, "--name"@) is None {
            Some("--name is required"@)
        } else {
            None
        }
    } else if command == "button"@ {
        if flag_value(w, "--data"@) is None {
            Some("--data is required"@)
        } else {
            None
        }
    } else if command == "react"@ || command == "edit"@ {
        if flag_i64(w, "--message-id"@) is None {
            Some("--message-id is required"@)
        } else {
            None
        }
    } else {
        Some("unknown command "@ + str_debug(command))
    }
}

/// The sender: `--user` as the id, `--name` as the name, falling back to the id.
pub open spec fn user_matches(w: Seq<Seq<char>>, u: WireUser) -> bool {
    &&& u.id@ == present(flag_value(w, "--user"@))
    &&& u.name@ == match flag_value(w, "--name"@) {
        Some(n) => n,
        None => present(flag_value(w, "--user"@)),
    }
}

/// Each `--file KIND:PATH` became one file, in order.
pub open spec fn files_match(w: Seq<Seq<char>>, files: Seq<WireFile>) -> bool {
    let specs = flag_values(w, "--file"@);
    &&& files.len() == specs.len()
    &&& forall|i: int|
        0 <= i < specs.len() ==> #[trigger] split_once(specs[i], ':') == Some(
            (files[i].kind@, files[i].path@),
        ) && files[i].mime is None && files[i].file_id is None
}

/// The sticker, present exactly when `--sticker` is; its format defaults to
/// `static`.
pub open spec fn sticker_matches(w: Seq<Seq<char>>, st: Option<WireSticker>) -> bool {
    match flag_value(w, "--sticker"@) {
        None => st is None,
        Some(id) => match st {
            Some(s) => {
                &&& s.file_id@ == id
                &&& opt_view(s.emoji) == flag_value(w, "--emoji"@)
                &&& opt_view(s.set_name) == flag_value(w, "--set"@)
                &&& s.format@ == match flag_value(w, "--format"@) {
                    Some(f) => f,
                    None => "static"@,
                }
                &&& opt_view(s.path) == flag_value(w, "--sticker-path"@)
            },
            None => false,
        },
    }
}

/// `--ambient` given with any value but `false`, `0` or `no`.
pub open spec fn ambient_flag(w: Seq<Seq<char>>) -> bool {
    match flag_value(w, "--ambient"@) {
        Some(v) => !(v == "false"@ || v == "0"@ || v == "no"@),
        None => false,
    }
}

/// The message event the flags describe.
pub open spec fn message_matches(w: Seq<Seq<char>>, m: InboundMessage) -> bool {
    &&& m.chat@ == present(flag_value(w, "--chat"@))
    &&& user_matches(w, m.user)
    &&& m.message_id == flag_i64(w, "--message-id"@)
    &&& opt_view(m.text) == flag_value(w, "--text"@)
    &&& opt_view(m.caption) == flag_value(w, "--caption"@)
    &&& m.thread_id == flag_i64(w, "--thread"@)
    &&& m.reply_to == match flag_i64(w, "--reply-to"@) {
        Some(id) => Some(WireReplyRef { message_id: id, from: None, text: None }),
        None => None,
    }
    &&& files_match(w, m.files@)
    &&& sticker_matches(w, m.sticker)
    &&& m.ambient == ambient_flag(w)
}

/// The event that command `command` with words `w` describes.
pub open spec fn event_matches(command: Seq<char>, w: Seq<Seq<char>>, e: Inbound) -> bool {
    let chat = present(flag_value(w, "--chat"@));
    if command == "message"@ || command == "send"@ {
        e matches Inbound::Message(m) && message_matches(w, *m)
    } else if command == "command"@ {
        &&& e matches Inbound::Command(c)
        &&& c.chat@ == chat
        &&& user_matches(w, c.user)
        &&& c.name@ == present(flag_value(w, "--name"@))
        &&& c.args@ == present(flag_value(w, "--args"@))
        &&& c.message_id == flag_i64(w, "--message-id"@)
        &&& c.thread_id == flag_i64(w, "--thread"@)
    } else if command == "button"@ {
        &&& e matches Inbound::Button(b)
        &&& b.chat@ == chat
        &&& user_matches(w, b.user)
        &&& b.data@ == present(flag_value(w, "--data"@))
        &&& b.message_id == flag_i64(w, "--message-id"@)
        &&& opt_view(b.message_text) == flag_value(w, "--message-text"@)
        &&& b.thread_id == flag_i64(w, "--thread"@)
    } else if command == "react"@ {
        &&& e matches Inbound::Reaction(r)
        &&& r.chat@ == chat
        &&& user_matches(w, r.user)
        &&& Some(r.message_id) == flag_i64(w, "--message-id"@)
        &&& strings_view(r.added@) == flag_values(w, "--add"@)
        &&& strings_view(r.removed@) == flag_values(w, "--remove"@)
    } else {
        &&& e matches Inbound::Edited(x)
        &&& x.chat@ == chat
        &&& user_matches(w, x.user)
        &&& Some(x.message_id) == flag_i64(w, "--message-id"@)
        &&& opt_view(x.text) == flag_value(w, "--text"@)
        &&& x.thread_id == flag_i64(w, "--thread"@)
    }
}

fn build_files(args: &Args) -> (r: Result<Vec<WireFile>, String>)
    ensures
        match r {
            Ok(files) => files_match(args@, files@),
            Err(e) => e@ == "--file expects KIND:PATH"@ && exists|i: int|
                0 <= i < flag_values(args@, "--file"@).len() && #[trigger] split_once(
                    flag_values(args@, "--file"@)[i],
                    ':',
                ) is None,
        },
{
    let specs = args.values("--file");
    let ghost sv = flag_values(args@, "--file"@);
    let mut files: Vec<WireFile> = Vec::new();
    let mut i: usize = 0;
    while i < specs.len()
        invariant
            i <= specs@.len(),
            strings_view(specs@) == sv,
            sv == flag_values(args@, "--file"@),
            files@.len() == i,
            forall|k: int|
                0 <= k < i ==> #[trigger] split_once(sv[k], ':') == Some(
                    (files@[k].kind@, files@[k].path@),
                ) && files@[k].mime is None && files@[k].file_id is None,
        decreases specs@.len() - i,
    {
        assert(sv[i as int] == specs@[i as int]@);
        match split_once_char(specs[i].as_str(), ':') {
            Some((kind, path)) => {
                files.push(WireFile { kind, path, mime: None, file_id: None });
            },
            None => {
                return Err("--file expects KIND:PATH".to_string());
            },
        }
        i = i + 1;
    }
    Ok(files)
}

fn build_sticker(args: &Args) -> (r: Option<WireSticker>)
    ensures
        sticker_matches(args@, r),
{
    match args.opt_value("--sticker") {
        Some(file_id) => {
            let format = match args.opt_value("--format") {
                Some(f) => f,
                None => "static".to_string(),
            };
            Some(
                WireSticker {
                    file_id,
                    emoji: args.opt_value("--emoji"),
                    set_name: args.opt_value("--set"),
                    format,
                    path: args.opt_value("--sticker-path"),
                },
            )
        },
        None => None,
    }
}

fn ambient(args: &Args) -> (r: bool)
    ensures
        r == ambient_flag(args@),
{
    match args.opt_value("--ambient") {
        Some(v) => !(str_eq(v.as_str(), "false") || str_eq(v.as_str(), "0") || str_eq(
            v.as_str(),
            "no",
        )),
        None => false,
    }
}

/// The message for a command word that names no event, given the word as
/// `{:?}` prints it.
pub fn unknown_command(quoted: &str) -> (r: String)
    ensures
        r@ == "unknown command "@ + quoted@,
{
    let mut msg = "unknown command ".to_string();
    push_str(&mut msg, quoted);
    msg
}

/// The inbound event for an inject subcommand (`message`/`send`, `command`,
/// `button`, `react`, `edit`), or the message explaining what is missing.
pub fn build_event(command: &str, args: &Args) -> (r: Result<Inbound, String>)
    ensures
        match r {
            Ok(e) => event_error(command@, args@) is None && event_matches(command@, args@, e),
            Err(msg) => event_error(command@, args@) == Some(msg@),
        },
{
    let chat = match args.value("--chat") {
        Some(c) => c,
        None => return Err("--chat is required".to_string()),
    };
    let id = match args.value("--user") {
        Some(u) => u,
        None => return Err("--user is required".to_string()),
    };
    let name = match args.value("--name") {
        Some(n) => n,
        None => id.clone(),
    };
    let user = WireUser { id, name };
    if str_eq(command, "message") || str_eq(command, "send") {
        let files = match build_files(args) {
            Ok(f) => f,
            Err(e) => return Err(e),
        };
        let reply_to = match args.i64("--reply-to") {
            Some(message_id) => Some(WireReplyRef { message_id, from: None, text: None }),
            None => None,
        };
        Ok(
            Inbound::Message(
                Box::new(
                    InboundMessage {
                        chat,
                        user,
                        message_id: args.i64("--message-id"),
                        text: args.opt_value("--text"),
                        caption: args.opt_value("--caption"),
                        thread_id: args.i64("--thread"),
                        reply_to,
                        files,
                        sticker: build_sticker(args),
                        ambient: ambient(args),
                    },
                ),
            ),
        )
    } else if str_eq(command, "command") {
        let name = match args.value("--name") {
            Some(n) => n,
            None => return Err("--name is required".to_string()),
        };
        let cmd_args = match args.opt_value("--args") {
            Some(a) => a,
            None => String::new(),
        };
        Ok(
            Inbound::Command(
                InboundCommand {
                    chat,
                    user,
                    name,
                    args: cmd_args,
                    message_id: args.i64("--message-id"),
                    thread_id: args.i64("--thread"),
                },
            ),
        )
    } else if str_eq(command, "button") {
        let data = match args.value("--data") {
            Some(d) => d,
            None => return Err("--data is required".to_string()),
        };
        Ok(
            Inbound::Button(
                InboundButton {
                    chat,
                    user,
                    data,
                    message_id: args.i64("--message-id"),
                    message_text: args.opt_value("--message-text"),
                    thread_id: args.i64("--thread"),
                },
            ),
        )
    } else if str_eq(command, "react") {
        let message_id = match args.i64("--message-id") {
            Some(m) => m,
            None => return Err("--message-id is required".to_string()),
        };
        Ok(
            Inbound::Reaction(
                InboundReaction {
                    chat,
                    user,
                    message_id,
                    added: args.values("--add"),
                    removed: args.values("--remove"),
                },
            ),
        )
    } else if str_eq(command, "edit") {
        let message_id = match args.i64("--message-id") {
            Some(m) => m,
            None => return Err("--message-id is required".to_string()),
        };
        Ok(
            Inbound::Edited(
                InboundEdited {
                    chat,
                    user,
                    message_id,
                    text: args.opt_value("--text"),
                    thread_id: args.i64("--thread"),
                },
            ),
        )
    } else {
        let quoted = debug_string(command);
        Err(unknown_command(quoted.as_str()))
    }
}

/// No word names `flag`, so it has no values from `i` on.
proof fn lemma_no_flag_no_values(words: Seq<Seq<char>>, i: int, flag: Seq<char>)
    requires
        forall|k: int| 0 <= k < words.len() ==> words[k] != flag,
    ensures
        crate::cli::args::values_from(words, i, flag).len() == 0,
    decreases words.len() + 1 - i,
{
    if 0 <= i < words.len() {
        lemma_no_flag_no_values(words, i + 1, flag);
    }
}

/// `edit` is none of the other event words.
proof fn lemma_edit_is_its_own_command()
    ensures
        !("edit"@ == "message"@ || "edit"@ == "send"@),
        "edit"@ != "command"@,
        "edit"@ != "button"@,
        "edit"@ != "react"@,
{
    reveal_strlit("edit");
    reveal_strlit("message");
    reveal_strlit("send");
    reveal_strlit("command");
    reveal_strlit("button");
    reveal_strlit("react");
    assert("edit"@.len() != "message"@.len());
    assert("edit"@[0] != "send"@[0]);
    assert("edit"@.len() != "command"@.len());
    assert("edit"@.len() != "button"@.len());
    assert("edit"@.len() != "react"@.len());
}

/// An injected edit carries the new text it was given: with `--text T`
/// leading the flags, the edit event's text is `T`.
pub proof fn law_edit_carries_the_text_flag(words: Seq<Seq<char>>, t: Seq<char>, e: Inbound)
    requires
        event_matches("edit"@, seq!["--text"@, t] + words, e),
    ensures
        e matches Inbound::Edited(x) && opt_view(x.text) == Some(t),
{
    lemma_edit_is_its_own_command();
    let w = seq!["--text"@, t] + words;
    assert(w[0] == "--text"@ && w[1] == t);
    assert(flag_values(w, "--text"@)[0] == t);
}

/// An edit given no `--text` flag carries no text.
pub proof fn law_edit_without_text_flag_has_no_text(words: Seq<Seq<char>>, e: Inbound)
    requires
        forall|k: int| 0 <= k < words.len() ==> words[k] != "--text"@,
        event_matches("edit"@, words, e),
    ensures
        e matches Inbound::Edited(x) && x.text is None,
{
    lemma_edit_is_its_own_command();
    lemma_no_flag_no_values(words, 0, "--text"@);
}

/// An injected message carries the text it was given: with `--text T`
/// leading the flags, the message's text is `T`; without any `--text`, it
/// has none.
pub proof fn law_message_carries_the_text_flag(words: Seq<Seq<char>>, t: Seq<char>, e: Inbound, f: Inbound)
    requires
        event_matches("message"@, seq!["--text"@, t] + words, e),
        forall|k: int| 0 <= k < words.len() ==> words[k] != "--text"@,
        event_matches("message"@, words, f),
    ensures
        e matches Inbound::Message(m) && opt_view(m.text) == Some(t),
        f matches Inbound::Message(m) && m.text is None,
{
    let w = seq!["--text"@, t] + words;
    assert(w[0] == "--text"@ && w[1] == t);
    assert(flag_values(w, "--text"@)[0] == t);
    lemma_no_flag_no_values(words, 0, "--text"@);
}

} // verus!
