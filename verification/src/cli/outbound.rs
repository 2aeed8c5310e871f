//! How the CLI platform routes injected events and turns handler responses
//! into outbound wire actions.
use base64::Engine;
use crate::cli::wire::{Inbound, OutboundFile, OutboundMessage, WireButton};
use crate::common::component::{Button, Component};
use crate::common::response::{FileResponse, FileSource, Response, ResponseModel};
use crate::common::router::{Event, EventModel};
use crate::text::{opt_view, push_str, to_owned};
use vstd::prelude::*;

verus! {

/// The router key for an injected event: commands by name, button presses by
/// their data, everything else as a message.
pub open spec fn inbound_route(e: Inbound) -> EventModel {
    match e {
        Inbound::Command(c) => EventModel::Command(c.name@),
        Inbound::Button(b) => EventModel::Button(b.data@),
        _ => EventModel::Message,
    }
}

/// The router event for an injected event.
pub fn inbound_event(inbound: &Inbound) -> (r: Event<'_>)
    ensures
        r@ == inbound_route(*inbound),
{
    match inbound {
        Inbound::Command(command) => Event::Command(command.name.as_str()),
        Inbound::Button(button) => Event::Button(button.data.as_str()),
        _ => Event::Message,
    }
}

/// A keyboard button by its label, callback data and link.
pub open spec fn wire_button_view(w: WireButton) -> (Seq<char>, Option<Seq<char>>, Option<Seq<char>>) {
    (w.text@, opt_view(w.data), opt_view(w.url))
}

/// The keyboard button a component button becomes.
pub open spec fn button_as_wire(b: Button) -> (Seq<char>, Option<Seq<char>>, Option<Seq<char>>) {
    (b.label@, opt_view(b.custom_id), opt_view(b.url))
}

/// The buttons of one row, in order; other components are left out.
pub open spec fn row_buttons(cs: Seq<Component>) -> Seq<(Seq<char>, Option<Seq<char>>, Option<Seq<char>>)>
    decreases cs.len(),
{
    if cs.len() == 0 {
        Seq::empty()
    } else {
        let rest = row_buttons(cs.drop_last());
        match cs.last() {
            Component::Button(b) => rest.push(button_as_wire(b)),
            _ => rest,
        }
    }
}

/// One keyboard row per action row that holds at least one button, in order;
/// top-level buttons and select menus are left out.
pub open spec fn keyboard_rows(cs: Seq<Component>) -> Seq<Seq<(Seq<char>, Option<Seq<char>>, Option<Seq<char>>)>>
    decreases cs.len(),
{
    if cs.len() == 0 {
        Seq::empty()
    } else {
        let rest = keyboard_rows(cs.drop_last());
        match cs.last() {
            Component::ActionRow(row) => {
                let buttons = row_buttons(row.components@);
                if buttons.len() > 0 {
                    rest.push(buttons)
                } else {
                    rest
                }
            },
            _ => rest,
        }
    }
}

/// The keyboard rows, by their buttons' views.
pub open spec fn rows_view(rows: Seq<Vec<WireButton>>) -> Seq<Seq<(Seq<char>, Option<Seq<char>>, Option<Seq<char>>)>> {
    rows.map_values(|r: Vec<WireButton>| r@.map_values(|w: WireButton| wire_button_view(w)))
}

fn clone_opt(s: &Option<String>) -> (r: Option<String>)
    ensures
        opt_view(r) == opt_view(*s),
{
    match s {
        Some(v) => Some(v.clone()),
        None => None,
    }
}

fn row_to_buttons(cs: &[Component]) -> (r: Vec<WireButton>)
    ensures
        r@.map_values(|w: WireButton| wire_button_view(w)) == row_buttons(cs@),
{
    let mut out: Vec<WireButton> = Vec::new();
    let mut i: usize = 0;
    while i < cs.len()
        invariant
            i <= cs@.len(),
            out@.map_values(|w: WireButton| wire_button_view(w)) == row_buttons(cs@.subrange(0, i as int)),
        decreases cs@.len() - i,
    {
        let ghost before = out@;
        assert(cs@.subrange(0, i + 1).drop_last() == cs@.subrange(0, i as int));
        match &cs[i] {
            Component::Button(button) => {
                out.push(
                    WireButton {
                        text: button.label.clone(),
                        data: clone_opt(&button.custom_id),
                        url: clone_opt(&button.url),
                    },
                );
                assert(out@.map_values(|w: WireButton| wire_button_view(w)) == before.map_values(
                    |w: WireButton| wire_button_view(w),
                ).push(button_as_wire(*button)));
            },
            _ => {},
        }
        i = i + 1;
    }
    assert(cs@.subrange(0, cs@.len() as int) == cs@);
    out
}

/// Flatten components into keyboard rows: each action row with buttons
/// becomes one row of its buttons; anything else is skipped.
pub fn components_to_buttons(components: &[Component]) -> (r: Vec<Vec<WireButton>>)
    ensures
        rows_view(r@) == keyboard_rows(components@),
{
    let mut rows: Vec<Vec<WireButton>> = Vec::new();
    let mut i: usize = 0;
    while i < components.len()
        invariant
            i <= components@.len(),
            rows_view(rows@) == keyboard_rows(components@.subrange(0, i as int)),
        decreases components@.len() - i,
    {
        let ghost before = rows@;
        assert(components@.subrange(0, i + 1).drop_last() == components@.subrange(0, i as int));
        match &components[i] {
            Component::ActionRow(row) => {
                let buttons = row_to_buttons(row.components.as_slice());
                if buttons.len() > 0 {
                    rows.push(buttons);
                    assert(rows_view(rows@) == rows_view(before).push(
                        buttons@.map_values(|w: WireButton| wire_button_view(w)),
                    ));
                }
            },
            _ => {},
        }
        i = i + 1;
    }
    assert(components@.subrange(0, components@.len() as int) == components@);
    rows
}

/// The MIME type that `mime_guess` gives a path, as (type, subtype).
pub uninterp spec fn guessed_mime(path: Seq<char>) -> (Seq<char>, Seq<char>);

/// `mime_guess::from_path(name).first_or_octet_stream()`, split into its
/// type and subtype; the contract claims only that the pair is
/// `guessed_mime` of the name's characters.
#[verifier::external_body]
fn guess_mime(name: &str) -> (r: (String, String))
    ensures
        (r.0@, r.1@) == guessed_mime(name@),
{
    let mime = mime_guess::from_path(name).first_or_octet_stream();
    (mime.type_().as_str().to_string(), mime.subtype().as_str().to_string())
}

/// The MIME type `mime_guess` gives a file name, as `type/subtype` (an
/// unknown extension gives `application/octet-stream`).
pub fn mime_of(name: &str) -> (r: String)
    ensures
        r@ == guessed_mime(name@).0 + "/"@ + guessed_mime(name@).1,
{
    let (t, sub) = guess_mime(name);
    let mut m = t;
    push_str(&mut m, "/");
    push_str(&mut m, sub.as_str());
    m
}

/// The media kind for a MIME type.
pub open spec fn mime_media_kind(mime_type: Seq<char>, subtype: Seq<char>) -> Seq<char> {
    if mime_type == "image"@ {
        if subtype == "gif"@ {
            "animation"@
        } else {
            "photo"@
        }
    } else if mime_type == "video"@ {
        "video"@
    } else if mime_type == "audio"@ {
        if subtype == "ogg"@ {
            "voice"@
        } else {
            "audio"@
        }
    } else {
        "document"@
    }
}

/// The media kind for a MIME type (GIFs animate, Ogg audio is a voice note).
pub fn media_kind_for(mime_type: &str, subtype: &str) -> (r: &'static str)
    ensures
        r@ == mime_media_kind(mime_type@, subtype@),
{
    if crate::text::str_eq(mime_type, "image") {
        if crate::text::str_eq(subtype, "gif") {
            "animation"
        } else {
            "photo"
        }
    } else if crate::text::str_eq(mime_type, "video") {
        "video"
    } else if crate::text::str_eq(mime_type, "audio") {
        if crate::text::str_eq(subtype, "ogg") {
            "voice"
        } else {
            "audio"
        }
    } else {
        "document"
    }
}

/// The media kind of a file, from the MIME type its name suggests.
pub open spec fn path_media_kind(name: Seq<char>) -> Seq<char> {
    mime_media_kind(guessed_mime(name).0, guessed_mime(name).1)
}

/// MIME-derived media kind for a filename or path.
pub fn media_kind(name: &str) -> (r: &'static str)
    ensures
        r@ == path_media_kind(name@),
{
    let (t, s) = guess_mime(name);
    media_kind_for(t.as_str(), s.as_str())
}

/// The standard base64 alphabet (RFC 4648): `A`–`Z`, `a`–`z`, `0`–`9`, `+`, `/`.
pub open spec fn base64_alphabet() -> Seq<char> {
    "ABCDEFGHIJKLMNOPQRSTUVWXYZabcdefghijklmnopqrstuvwxyz0123456789+/"@
}

/// The four characters for a 24-bit group `n` of which `kept` (2 to 4)
/// characters carry data; the rest are `=` padding.
pub open spec fn base64_group(n: int, kept: int) -> Seq<char> {
    let a = base64_alphabet();
    seq![
        a[(n / 262144) % 64],
        a[(n / 4096) % 64],
        if kept >= 3 { a[(n / 64) % 64] } else { '=' },
        if kept >= 4 { a[n % 64] } else { '=' },
    ]
}

/// The standard, padded base64 text of some bytes (RFC 4648): each three
/// bytes become four characters, a final one or two bytes are padded.
pub open spec fn base64_text(bytes: Seq<u8>) -> Seq<char>
    decreases bytes.len(),
{
    if bytes.len() == 0 {
        Seq::empty()
    } else if bytes.len() == 1 {
        base64_group(bytes[0] * 65536, 2)
    } else if bytes.len() == 2 {
        base64_group(bytes[0] * 65536 + bytes[1] * 256, 3)
    } else {
        base64_group(bytes[0] * 65536 + bytes[1] * 256 + bytes[2], 4) + base64_text(
            bytes.subrange(3, bytes.len() as int),
        )
    }
}

/// `base64::engine::general_purpose::STANDARD.encode`: the standard alphabet
/// with `=` padding, as `base64_text` states it.
#[verifier::external_body]
fn encode_base64(bytes: &[u8]) -> (r: String)
    ensures
        r@ == base64_text(bytes@),
{
    base64::engine::general_purpose::STANDARD.encode(bytes)
}

/// The outbound message for a response that has text, addressed to `chat`
/// (and its topic) under `message_id`; `None` for any other response.
pub fn message_outbound(
    chat: &str,
    message_id: i64,
    thread_id: Option<i64>,
    response: &Response,
    extras: Option<serde_json::Value>,
) -> (r: Option<OutboundMessage>)
    ensures
        match response@ {
            ResponseModel::Message(m) => r matches Some(o) && {
                &&& o.chat@ == chat@
                &&& o.message_id == message_id
                &&& o.text@ == m.content
                &&& rows_view(o.buttons@) == keyboard_rows(m.components)
                &&& o.reply_to is None
                &&& o.thread_id == thread_id
                &&& o.extras == extras
            },
            _ => r is None,
        },
{
    match response.content() {
        Some(text) => Some(
            OutboundMessage {
                chat: to_owned(chat),
                message_id,
                text: to_owned(text),
                buttons: components_to_buttons(response.components()),
                reply_to: None,
                thread_id,
                extras,
            },
        ),
        None => None,
    }
}

/// The media kind an uploaded file is announced as: from its filename, else
/// from its path, else `document`.
pub open spec fn upload_kind(filename: Option<Seq<char>>, path: Option<Seq<char>>) -> Seq<char> {
    match filename {
        Some(n) => path_media_kind(n),
        None => match path {
            Some(p) => path_media_kind(p),
            None => "document"@,
        },
    }
}

/// The path a file response names, if its bytes come from a path.
pub open spec fn source_path(source: FileSource) -> Option<Seq<char>> {
    match source {
        FileSource::Path(p) => Some(p@),
        _ => None,
    }
}

/// The outbound file action for a file response: a path is passed on as is;
/// in-memory bytes travel inline as base64, and so do the bytes of an open
/// file, which the caller reads into `bytes` (empty when the read failed).
pub fn file_outbound(
    chat: &str,
    message_id: i64,
    thread_id: Option<i64>,
    file: FileResponse,
    bytes: Vec<u8>,
) -> (r: OutboundFile)
    ensures
        r.chat@ == chat@,
        r.message_id == message_id,
        opt_view(r.path) == source_path(file.file),
        opt_view(r.data) == match file.file {
            FileSource::Path(_) => None,
            FileSource::Bytes(b) => Some(base64_text(b@)),
            FileSource::File(_) => Some(base64_text(bytes@)),
        },
        r.kind@ == upload_kind(opt_view(file.filename), source_path(file.file)),
        opt_view(r.filename) == opt_view(file.filename),
        opt_view(r.caption) == opt_view(file.caption),
        r.thread_id == thread_id,
{
    let FileResponse { file: source, filename, caption } = file;
    let (path, data) = match source {
        FileSource::Path(p) => (Some(p), None),
        FileSource::Bytes(b) => (None, Some(encode_base64(b.as_slice()))),
        FileSource::File(_) => (None, Some(encode_base64(bytes.as_slice()))),
    };
    let kind: &str = match &filename {
        Some(n) => media_kind(n.as_str()),
        None => match &path {
            Some(p) => media_kind(p.as_str()),
            None => "document",
        },
    };
    OutboundFile {
        chat: to_owned(chat),
        message_id,
        kind: to_owned(kind),
        path,
        data,
        filename,
        caption,
        thread_id,
    }
}

} // verus!
