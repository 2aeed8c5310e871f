//! The Telegram Bot API client's own logic: endpoint names, request URLs,
//! error redaction and the reply envelope.
use crate::common::error::BotError;
use crate::common::tls::install_crypto_provider;
use crate::common::response::FileSource;
use crate::text::{chars_starts_with, has_prefix, opt_view, push_char, push_chars, push_str, to_chars, to_owned};
use vstd::prelude::*;

verus! {

broadcast use vstd::string::group_string_axioms;

/// Which `sendX` endpoint a media payload goes through — the endpoint name
/// and the form field Telegram expects the file under.
#[derive(Debug, Clone, Copy, PartialEq, Eq)]
pub enum MediaKind {
    /// `sendPhoto` — images rendered inline.
    Photo,
    /// `sendAnimation` — GIFs and looping video without sound.
    Animation,
    /// `sendVideo` — video files.
    Video,
    /// `sendAudio` — music/podcast files with player UI.
    Audio,
    /// `sendVoice` — voice-note bubble (`.ogg` OPUS).
    Voice,
    /// `sendDocument` — everything else, as a file attachment.
    Document,
    /// `sendSticker` — native sticker formats or a sticker `file_id`.
    Sticker,
}

/// The Bot API method and form field for each media kind.
pub open spec fn media_endpoint(kind: MediaKind) -> (Seq<char>, Seq<char>) {
    match kind {
        MediaKind::Photo => ("sendPhoto"@, "photo"@),
        MediaKind::Animation => ("sendAnimation"@, "animation"@),
        MediaKind::Video => ("sendVideo"@, "video"@),
        MediaKind::Audio => ("sendAudio"@, "audio"@),
        MediaKind::Voice => ("sendVoice"@, "voice"@),
        MediaKind::Document => ("sendDocument"@, "document"@),
        MediaKind::Sticker => ("sendSticker"@, "sticker"@),
    }
}

impl MediaKind {
    /// The Bot API method and its file/form field name.
    pub fn spec(self) -> (r: (&'static str, &'static str))
        ensures
            (r.0@, r.1@) == media_endpoint(self),
    {
        match self {
            Self::Photo => ("sendPhoto", "photo"),
            Self::Animation => ("sendAnimation", "animation"),
            Self::Video => ("sendVideo", "video"),
            Self::Audio => ("sendAudio", "audio"),
            Self::Voice => ("sendVoice", "voice"),
            Self::Document => ("sendDocument", "document"),
            Self::Sticker => ("sendSticker", "sticker"),
        }
    }
}

/// A sticker being added to a set — the file plus its `InputSticker`
/// metadata.
pub struct NewSticker {
    /// The sticker image/animation bytes (`.png`/`.webp` static, `.tgs`
    /// animated, `.webm` video).
    pub file: FileSource,
    /// File name hint for the upload part.
    pub filename: String,
    /// Telegram sticker format: `static`, `animated`, or `video`.
    pub format: &'static str,
    /// The emoji the sticker is associated with.
    pub emoji: String,
    /// `replaceStickerInSet` only: `file_id` of the sticker being replaced.
    old_file_id: Option<String>,
}

impl NewSticker {
    /// The sticker's file, filename, format, emoji and the `file_id` it
    /// replaces, if any.
    pub closed spec fn parts(&self) -> (FileSource, Seq<char>, &'static str, Seq<char>, Option<Seq<char>>) {
        (self.file, self.filename@, self.format, self.emoji@, opt_view(self.old_file_id))
    }

    /// A sticker file with its set metadata.
    pub fn new(file: FileSource, filename: &str, format: &'static str, emoji: &str) -> (r: Self)
        ensures
            r.parts() == (file, filename@, format, emoji@, None::<Seq<char>>),
    {
        Self { file, filename: to_owned(filename), format, emoji: to_owned(emoji), old_file_id: None }
    }

    /// Mark this as replacing `file_id` (for `replaceStickerInSet`).
    pub fn with_old_file_id(self, file_id: &str) -> (r: Self)
        ensures
            r.parts() == (self.parts().0, self.parts().1, self.parts().2, self.parts().3, Some(file_id@)),
    {
        Self { old_file_id: Some(to_owned(file_id)), ..self }
    }

    /// The `file_id` this sticker replaces, if any.
    pub fn old_file_id(&self) -> (r: Option<&str>)
        ensures
            match r {
                Some(s) => self.parts().4 == Some(s@),
                None => self.parts().4 is None,
            },
    {
        match &self.old_file_id {
            Some(s) => Some(s.as_str()),
            None => None,
        }
    }
}

/// A chat the Bot API can address: a numeric id or a public `@username`
/// — the API accepts either form wherever a `chat_id` goes.
#[derive(Debug, Clone)]
pub enum ChatRef {
    /// Numeric chat id (`-100…` for channels and supergroups).
    Id(i64),
    /// Public username, with the `@` prefix the API expects.
    Username(String),
}

impl From<i64> for ChatRef {
    fn from(id: i64) -> (r: Self) {
        Self::Id(id)
    }
}

impl vstd::std_specs::convert::FromSpecImpl<i64> for ChatRef {
    open spec fn obeys_from_spec() -> bool {
        true
    }

    open spec fn from_spec(v: i64) -> Self {
        ChatRef::Id(v)
    }
}

impl From<String> for ChatRef {
    fn from(username: String) -> (r: Self) {
        Self::Username(username)
    }
}

impl vstd::std_specs::convert::FromSpecImpl<String> for ChatRef {
    open spec fn obeys_from_spec() -> bool {
        true
    }

    open spec fn from_spec(v: String) -> Self {
        ChatRef::Username(v)
    }
}

/// Where the Bot API lives.
pub const API_BASE: &'static str = "https://api.telegram.org";

/// `s` with every occurrence of `pat` replaced by `rep`, scanning left to
/// right without overlap (`str::replace`); an empty pattern matches before
/// every character and at the end.
pub open spec fn replace_all(s: Seq<char>, pat: Seq<char>, rep: Seq<char>) -> Seq<char>
    decreases s.len(),
{
    if pat.len() == 0 {
        if s.len() == 0 {
            rep
        } else {
            rep + seq![s[0]] + replace_all(s.drop_first(), pat, rep)
        }
    } else if s.len() == 0 {
        Seq::empty()
    } else if has_prefix(s, pat) {
        rep + replace_all(s.subrange(pat.len() as int, s.len() as int), pat, rep)
    } else {
        seq![s[0]] + replace_all(s.drop_first(), pat, rep)
    }
}

proof fn lemma_replace_step(s: Seq<char>, i: int, pat: Seq<char>, rep: Seq<char>)
    requires
        0 <= i < s.len(),
        pat.len() > 0,
    ensures
        has_prefix(s.subrange(i, s.len() as int), pat) ==> replace_all(
            s.subrange(i, s.len() as int),
            pat,
            rep,
        ) == rep + replace_all(s.subrange(i + pat.len(), s.len() as int), pat, rep),
        !has_prefix(s.subrange(i, s.len() as int), pat) ==> replace_all(
            s.subrange(i, s.len() as int),
            pat,
            rep,
        ) == seq![s[i]] + replace_all(s.subrange(i + 1, s.len() as int), pat, rep),
{
    let t = s.subrange(i, s.len() as int);
    assert(t.drop_first() == s.subrange(i + 1, s.len() as int));
    if has_prefix(t, pat) {
        assert(t.subrange(pat.len() as int, t.len() as int) == s.subrange(i + pat.len(), s.len() as int));
    }
}

/// Whether `p` occurs in `s` at index `i`.
fn matches_at(s: &[char], i: usize, p: &[char]) -> (r: bool)
    requires
        i <= s@.len(),
    ensures
        r == has_prefix(s@.subrange(i as int, s@.len() as int), p@),
{
    if p.len() > s.len() - i {
        return false;
    }
    let mut k: usize = 0;
    while k < p.len()
        invariant
            i + p@.len() <= s@.len(),
            s@.len() == s.len(),
            k <= p@.len(),
            forall|j: int| 0 <= j < k ==> s@[i + j] == p@[j],
        decreases p@.len() - k,
    {
        if s[i + k] != p[k] {
            assert(s@.subrange(i as int, s@.len() as int).subrange(0, p@.len() as int)[k as int] != p@[k as int]);
            return false;
        }
        k = k + 1;
    }
    assert(s@.subrange(i as int, s@.len() as int).subrange(0, p@.len() as int) =~= p@);
    true
}

/// `str::replace`: every occurrence of `pat` in `s` replaced by `rep`.
pub fn replace_str(s: &str, pat: &str, rep: &str) -> (r: String)
    ensures
        r@ == replace_all(s@, pat@, rep@),
{
    let cs = to_chars(s);
    let ps = to_chars(pat);
    let mut out = String::new();
    let mut i: usize = 0;
    assert(cs@.subrange(0, cs@.len() as int) == cs@);
    assert(Seq::<char>::empty() + s@ == s@);
    assert(Seq::<char>::empty() + replace_all(s@, pat@, rep@) == replace_all(s@, pat@, rep@));
    if ps.len() == 0 {
        while i < cs.len()
            invariant
                cs@ == s@,
                ps@ == pat@,
                pat@.len() == 0,
                i <= cs@.len(),
                out@ + replace_all(cs@.subrange(i as int, cs@.len() as int), pat@, rep@)
                    == replace_all(s@, pat@, rep@),
            decreases cs@.len() - i,
        {
            let ghost before = out@;
            let ghost t = cs@.subrange(i as int, cs@.len() as int);
            let ghost rest = cs@.subrange(i + 1, cs@.len() as int);
            assert(t.drop_first() == rest);
            assert(replace_all(t, pat@, rep@) == rep@ + seq![cs@[i as int]] + replace_all(rest, pat@, rep@));
            push_str(&mut out, rep);
            push_char(&mut out, cs[i]);
            assert(out@ == before + rep@ + seq![cs@[i as int]]);
            assert(out@ + replace_all(rest, pat@, rep@) == before + (rep@ + seq![cs@[i as int]] + replace_all(rest, pat@, rep@)));
            i = i + 1;
        }
        assert(cs@.subrange(i as int, cs@.len() as int).len() == 0);
        push_str(&mut out, rep);
        return out;
    }
    while i < cs.len()
        invariant
            cs@ == s@,
            ps@ == pat@,
            pat@.len() > 0,
            i <= cs@.len(),
            out@ + replace_all(cs@.subrange(i as int, cs@.len() as int), pat@, rep@) == replace_all(
                s@,
                pat@,
                rep@,
            ),
        decreases cs@.len() - i,
    {
        let ghost before = out@;
        proof {
            lemma_replace_step(cs@, i as int, pat@, rep@);
        }
        if matches_at(cs.as_slice(), i, ps.as_slice()) {
            push_str(&mut out, rep);
            let ghost rest = cs@.subrange(i + pat@.len(), cs@.len() as int);
            assert(out@ + replace_all(rest, pat@, rep@) == before + (rep@ + replace_all(rest, pat@, rep@)));
            i = i + ps.len();
        } else {
            push_char(&mut out, cs[i]);
            let ghost rest = cs@.subrange(i + 1, cs@.len() as int);
            assert(out@ + replace_all(rest, pat@, rep@) == before + (seq![cs@[i as int]] + replace_all(rest, pat@, rep@)));
            i = i + 1;
        }
    }
    assert(cs@.subrange(i as int, cs@.len() as int).len() == 0);
    assert(out@ + Seq::<char>::empty() == out@);
    out
}

/// Telegram REST API client
pub struct TelegramClient {
    token: String,
}

impl Clone for TelegramClient {
    fn clone(&self) -> (r: Self)
        ensures
            r@ == self@,
    {
        TelegramClient { token: self.token.clone() }
    }
}

/// The URL of Bot API method `method` for `token`.
pub open spec fn method_url(token: Seq<char>, method: Seq<char>) -> Seq<char> {
    API_BASE@ + "/bot"@ + token + "/"@ + method
}

/// The text reported for a failed request: `error` with the token redacted.
/// The download URL of a file Telegram hosts at `file_path` (as `getFile`
/// reports it): file content is served from its own `/file/bot<token>/` tree.
pub open spec fn file_download_url(token: Seq<char>, file_path: Seq<char>) -> Seq<char> {
    API_BASE@ + "/file/bot"@ + token + "/"@ + file_path
}

pub open spec fn redacted(error: Seq<char>, token: Seq<char>) -> Seq<char> {
    replace_all(error, token, "<token>"@)
}

impl View for TelegramClient {
    type V = Seq<char>;

    /// The bot token.
    closed spec fn view(&self) -> Seq<char> {
        self.token@
    }
}

impl TelegramClient {
    /// Create a new Telegram client, installing a TLS crypto provider for the
    /// process if none is installed yet.
    pub fn new(token: &str) -> (r: Self)
        ensures
            r@ == token@,
    {
        install_crypto_provider();
        Self { token: to_owned(token) }
    }

    /// Get the bot token
    pub fn token(&self) -> (r: &str)
        ensures
            r@ == self@,
    {
        self.token.as_str()
    }

    /// The request URL for Bot API method `method`.
    pub fn api_url(&self, method: &str) -> (r: String)
        ensures
            r@ == method_url(self@, method@),
    {
        let mut url = to_owned(API_BASE);
        push_str(&mut url, "/bot");
        push_str(&mut url, self.token.as_str());
        push_str(&mut url, "/");
        push_str(&mut url, method);
        url
    }

    /// The URL a file's bytes download from, given the `file_path` that
    /// `getFile` returned.
    pub fn file_url(&self, file_path: &str) -> (r: String)
        ensures
            r@ == file_download_url(self@, file_path@),
    {
        let mut url = to_owned(API_BASE);
        push_str(&mut url, "/file/bot");
        push_str(&mut url, self.token.as_str());
        push_str(&mut url, "/");
        push_str(&mut url, file_path);
        url
    }

    /// Map a transport error's text to an API error, keeping the bot token out
    /// of the message: Telegram authenticates by putting the token in the
    /// request path, so any error that echoes the URL would leak it.
    pub fn api_error(&self, error: &str) -> (r: BotError)
        ensures
            r matches BotError::Api(m) && m@ == redacted(error@, self@),
    {
        BotError::Api(replace_str(error, self.token.as_str(), "<token>"))
    }
}

/// The error for a Bot API reply that failed without saying why, or
/// succeeded without a result.
pub open spec fn envelope_error(method: Seq<char>, ok: bool) -> Seq<char> {
    if ok {
        "Telegram "@ + method + " succeeded without result"@
    } else {
        "Telegram "@ + method + " failed without description"@
    }
}

fn method_message(method: &str, tail: &str) -> (r: String)
    ensures
        r@ == "Telegram "@ + method@ + tail@,
{
    let mut m = to_owned("Telegram ");
    push_str(&mut m, method);
    push_str(&mut m, tail);
    m
}

/// Read the Bot API reply envelope `{ok, result, description}` of method
/// `method`: a failure reports its description, a success its result.
pub fn api_result<T>(method: &str, ok: bool, result: Option<T>, description: Option<String>) -> (r: Result<T, BotError>)
    ensures
        !ok ==> (r matches Err(BotError::Api(d)) && d@ == match description {
            Some(x) => x@,
            None => envelope_error(method@, false),
        }),
        ok ==> match result {
            Some(v) => r == Ok::<T, BotError>(v),
            None => (r matches Err(BotError::Api(d)) && d@ == envelope_error(method@, true)),
        },
{
    if !ok {
        let d = match description {
            Some(x) => x,
            None => method_message(method, " failed without description"),
        };
        return Err(BotError::Api(d));
    }
    match result {
        Some(v) => Ok(v),
        None => Err(BotError::Api(method_message(method, " succeeded without result"))),
    }
}

} // verus!
