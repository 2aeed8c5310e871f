//! The platform-neutral reply a handler produces.
use vstd::prelude::*;

use crate::common::component::Component;
use crate::common::embed::Embed;
use crate::common::path::{file_name, path_file_name};
use crate::text::{opt_view, to_chars, to_owned};

verus! {

/// `async_fs::File`, carried opaquely: an open file a response uploads.
#[verifier::external_type_specification]
#[verifier::external_body]
pub struct ExAsyncFile(async_fs::File);

/// Unified bot response builder
///
/// Represents a response that can be sent back to any platform.
/// Each platform adapter converts this to platform-specific format.
///
/// The builder methods (`with_embed`, `ephemeral`, `with_caption`, ...) apply
/// to whichever kind of response they make sense for. Calling a message builder
/// on an empty response promotes it to a message rather than silently dropping
/// the value, so `Response::empty().with_embed(e)` sends the embed.
pub struct Response {
    kind: ResponseKind,
}

enum ResponseKind {
    Empty,
    Message(Message),
    Acknowledge,
    File(FileResponse),
}

struct Message {
    content: String,
    embeds: Vec<Embed>,
    components: Vec<Component>,
    ephemeral: bool,
}

/// Bytes to upload, plus how to present them
pub struct FileResponse {
    /// The file contents
    pub file: FileSource,
    /// Optional filename (used for content-disposition)
    pub filename: Option<String>,
    /// Optional caption to accompany the file
    pub caption: Option<String>,
}

/// Where a file response's bytes come from
///
/// Adapters read this to completion before upload, so a `Path` is opened lazily
/// and only once.
pub enum FileSource {
    /// An already-open file handle
    File(async_fs::File),
    /// Bytes held in memory
    Bytes(Vec<u8>),
    /// A path to read at send time
    Path(String),
}

/// The message parts of a response.
pub struct MessageModel {
    pub content: Seq<char>,
    pub embeds: Seq<Embed>,
    pub components: Seq<Component>,
    pub ephemeral: bool,
}

/// What a [`Response`] carries.
pub enum ResponseModel {
    Empty,
    Message(MessageModel),
    Acknowledge,
    File(FileResponse),
}

/// A message with no content, embeds or components.
pub open spec fn blank_message() -> MessageModel {
    MessageModel { content: Seq::empty(), embeds: Seq::empty(), components: Seq::empty(), ephemeral: false }
}

/// `m`, with `Empty` promoted to a blank message.
pub open spec fn promoted(m: ResponseModel) -> ResponseModel {
    match m {
        ResponseModel::Empty => ResponseModel::Message(blank_message()),
        other => other,
    }
}

/// Apply `f` to the message parts of `m` after promotion; other kinds are unchanged.
pub open spec fn map_message(m: ResponseModel, f: spec_fn(MessageModel) -> MessageModel) -> ResponseModel {
    match promoted(m) {
        ResponseModel::Message(msg) => ResponseModel::Message(f(msg)),
        other => other,
    }
}

/// Whether a response carries nothing to send.
pub open spec fn model_is_empty(m: ResponseModel) -> bool {
    match m {
        ResponseModel::Empty => true,
        ResponseModel::Message(msg) => msg.content.len() == 0 && msg.embeds.len() == 0
            && msg.components.len() == 0,
        _ => false,
    }
}

/// The filename implied by a source: a path's final component.
pub open spec fn implied_filename(source: FileSource) -> Option<Seq<char>> {
    match source {
        FileSource::Path(p) => file_name(p@),
        _ => None,
    }
}

impl View for Response {
    type V = ResponseModel;

    closed spec fn view(&self) -> ResponseModel {
        match self.kind {
            ResponseKind::Empty => ResponseModel::Empty,
            ResponseKind::Message(m) => ResponseModel::Message(
                MessageModel {
                    content: m.content@,
                    embeds: m.embeds@,
                    components: m.components@,
                    ephemeral: m.ephemeral,
                },
            ),
            ResponseKind::Acknowledge => ResponseModel::Acknowledge,
            ResponseKind::File(f) => ResponseModel::File(f),
        }
    }
}

impl FileSource {
    /// The filename implied by the source, if it has one
    pub fn implied_filename(&self) -> (r: Option<String>)
        ensures
            opt_view(r) == implied_filename(*self),
    {
        match self {
            FileSource::Path(path) => {
                let cs = to_chars(path.as_str());
                path_file_name(cs.as_slice())
            },
            _ => None,
        }
    }
}

impl FileResponse {
    /// The name an upload goes out under: the response's filename, else
    /// `file`.
    pub fn upload_name(&self) -> (r: &str)
        ensures
            r@ == match opt_view(self.filename) {
                Some(n) => n,
                None => "file"@,
            },
    {
        match &self.filename {
            Some(n) => n.as_str(),
            None => "file",
        }
    }
}

impl Message {
    fn blank() -> (r: Self)
        ensures
            r.content@ == Seq::<char>::empty(),
            r.embeds@ == Seq::<Embed>::empty(),
            r.components@ == Seq::<Component>::empty(),
            !r.ephemeral,
    {
        Message { content: String::new(), embeds: Vec::new(), components: Vec::new(), ephemeral: false }
    }
}

impl Response {
    /// Create an empty response (no reply)
    pub fn empty() -> (r: Self)
        ensures
            r@ == ResponseModel::Empty,
    {
        Response { kind: ResponseKind::Empty }
    }

    /// Create a text response
    pub fn text(content: &str) -> (r: Self)
        ensures
            r@ == ResponseModel::Message(MessageModel { content: content@, ..blank_message() }),
    {
        let mut m = Message::blank();
        m.content = to_owned(content);
        Response { kind: ResponseKind::Message(m) }
    }

    /// Create an acknowledgement response (deferred)
    pub fn acknowledge() -> (r: Self)
        ensures
            r@ == ResponseModel::Acknowledge,
    {
        Response { kind: ResponseKind::Acknowledge }
    }

    /// Create a response with an embed
    pub fn embed(embed: Embed) -> (r: Self)
        ensures
            r@ == ResponseModel::Message(MessageModel { embeds: seq![embed], ..blank_message() }),
    {
        Self::empty().with_embed(embed)
    }

    /// Create a file response from an open file handle
    pub fn file(file: async_fs::File) -> (r: Self)
        ensures
            r@ matches ResponseModel::File(f) && f.file == FileSource::File(file) && f.filename is None
                && f.caption is None,
    {
        Self::from_source(FileSource::File(file))
    }

    /// Create a file response from bytes already in memory
    pub fn bytes(bytes: Vec<u8>) -> (r: Self)
        ensures
            r@ matches ResponseModel::File(f) && f.file == FileSource::Bytes(bytes) && f.filename is None
                && f.caption is None,
    {
        Self::from_source(FileSource::Bytes(bytes))
    }

    /// Create a file response that reads `path` when the response is sent
    ///
    /// The filename defaults to the path's final component.
    pub fn path(path: &str) -> (r: Self)
        ensures
            r@ matches ResponseModel::File(f) && (f.file matches FileSource::Path(p) && p@ == path@)
                && opt_view(f.filename) == file_name(path@) && f.caption is None,
    {
        Self::from_source(FileSource::Path(to_owned(path)))
    }

    fn from_source(file: FileSource) -> (r: Self)
        ensures
            r@ matches ResponseModel::File(f) && f.file == file && opt_view(f.filename)
                == implied_filename(file) && f.caption is None,
    {
        let filename = file.implied_filename();
        Response { kind: ResponseKind::File(FileResponse { filename, file, caption: None }) }
    }

    /// Promote `Empty` to a blank message.
    fn message_mut(&mut self)
        ensures
            final(self)@ == promoted(old(self)@),
    {
        if let ResponseKind::Empty = self.kind {
            self.kind = ResponseKind::Message(Message::blank());
        }
    }

    /// Add an embed to this response
    pub fn with_embed(self, embed: Embed) -> (r: Self)
        ensures
            r@ == map_message(self@, |m: MessageModel| MessageModel { embeds: m.embeds.push(embed), ..m }),
    {
        let mut this = self;
        this.message_mut();
        if let ResponseKind::Message(message) = &mut this.kind {
            message.embeds.push(embed);
        }
        this
    }

    /// Add components (buttons, select menus) to this response
    pub fn with_components(self, components: Vec<Component>) -> (r: Self)
        ensures
            r@ == map_message(self@, |m: MessageModel| MessageModel { components: components@, ..m }),
    {
        let mut this = self;
        this.message_mut();
        if let ResponseKind::Message(message) = &mut this.kind {
            message.components = components;
        }
        this
    }

    /// Make this response ephemeral (only visible to the user)
    ///
    /// Platforms without ephemeral messages (Telegram, Matrix) ignore this.
    pub fn ephemeral(self) -> (r: Self)
        ensures
            r@ == map_message(self@, |m: MessageModel| MessageModel { ephemeral: true, ..m }),
    {
        let mut this = self;
        this.message_mut();
        if let ResponseKind::Message(message) = &mut this.kind {
            message.ephemeral = true;
        }
        this
    }

    /// Set the filename for a file response
    pub fn with_filename(self, name: &str) -> (r: Self)
        ensures
            match self@ {
                ResponseModel::File(f) => r@ matches ResponseModel::File(g) && g.file == f.file
                    && g.caption == f.caption && opt_view(g.filename) == Some(name@),
                other => r@ == other,
            },
    {
        let mut this = self;
        if let ResponseKind::File(file) = &mut this.kind {
            file.filename = Some(to_owned(name));
        }
        this
    }

    /// Set the caption for a file response
    pub fn with_caption(self, caption: &str) -> (r: Self)
        ensures
            match self@ {
                ResponseModel::File(f) => r@ matches ResponseModel::File(g) && g.file == f.file
                    && g.filename == f.filename && opt_view(g.caption) == Some(caption@),
                other => r@ == other,
            },
    {
        let mut this = self;
        if let ResponseKind::File(file) = &mut this.kind {
            file.caption = Some(to_owned(caption));
        }
        this
    }

    /// Check if this response carries nothing to send
    pub fn is_empty(&self) -> (r: bool)
        ensures
            r == model_is_empty(self@),
    {
        match &self.kind {
            ResponseKind::Empty => true,
            ResponseKind::Message(message) => {
                message.content.as_str().is_empty() && message.embeds.len() == 0
                    && message.components.len() == 0
            },
            _ => false,
        }
    }

    /// Check if this is an acknowledge response
    pub fn is_acknowledge(&self) -> (r: bool)
        ensures
            r == (self@ is Acknowledge),
    {
        match &self.kind {
            ResponseKind::Acknowledge => true,
            _ => false,
        }
    }

    /// Get response content if this is a message response
    pub fn content(&self) -> (r: Option<&str>)
        ensures
            match self@ {
                ResponseModel::Message(m) => r matches Some(c) && c@ == m.content,
                _ => r is None,
            },
    {
        match &self.kind {
            ResponseKind::Message(message) => Some(message.content.as_str()),
            _ => None,
        }
    }

    /// Get embeds if this is a message response
    pub fn embeds(&self) -> (r: &[Embed])
        ensures
            match self@ {
                ResponseModel::Message(m) => r@ == m.embeds,
                _ => r@.len() == 0,
            },
    {
        match &self.kind {
            ResponseKind::Message(message) => message.embeds.as_slice(),
            _ => &[],
        }
    }

    /// Get components if this is a message response
    pub fn components(&self) -> (r: &[Component])
        ensures
            match self@ {
                ResponseModel::Message(m) => r@ == m.components,
                _ => r@.len() == 0,
            },
    {
        match &self.kind {
            ResponseKind::Message(message) => message.components.as_slice(),
            _ => &[],
        }
    }

    /// Check if this response is ephemeral
    pub fn is_ephemeral(&self) -> (r: bool)
        ensures
            r == (self@ matches ResponseModel::Message(m) && m.ephemeral),
    {
        match &self.kind {
            ResponseKind::Message(message) => message.ephemeral,
            _ => false,
        }
    }

    /// Check if this is a file response
    pub fn is_file(&self) -> (r: bool)
        ensures
            r == (self@ is File),
    {
        match &self.kind {
            ResponseKind::File(_) => true,
            _ => false,
        }
    }

    /// Take the file response data, leaving an empty response in its place
    ///
    /// This consumes the file data, so it can only be called once.
    pub fn take_file(&mut self) -> (r: Option<FileResponse>)
        ensures
            match old(self)@ {
                ResponseModel::File(f) => r == Some(f) && final(self)@ == ResponseModel::Empty,
                other => r is None && final(self)@ == other,
            },
    {
        let mut kind = ResponseKind::Empty;
        std::mem::swap(&mut kind, &mut self.kind);
        match kind {
            ResponseKind::File(file) => Some(file),
            other => {
                self.kind = other;
                None
            },
        }
    }
}

} // verus!
