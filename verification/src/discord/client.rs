//! The Discord REST client's own logic: authorization, routes and the
//! reaction-route emoji encoding.
use crate::common::tls::install_crypto_provider;
use crate::text::{digits, push_char, push_str, to_owned, u64_to_string};
use vstd::prelude::*;
use vstd::string::StringSliceAdditionalSpecFns;

verus! {

broadcast use vstd::string::group_string_axioms;

/// Where the REST API lives.
pub const API_BASE: &'static str = "https://discord.com/api/v10";

/// `PONG`, the only valid reply to a `PING` interaction.
pub const INTERACTION_PONG: u8 = 1;
/// Reply immediately with a visible message.
pub const CHANNEL_MESSAGE_WITH_SOURCE: u8 = 4;
/// Acknowledge now, send the real message as a follow-up.
pub const DEFERRED_CHANNEL_MESSAGE_WITH_SOURCE: u8 = 5;
/// Acknowledge a component interaction without changing anything.
pub const DEFERRED_UPDATE_MESSAGE: u8 = 6;
/// Message flag marking a response as visible only to the invoking user.
pub const EPHEMERAL_FLAG: u32 = 64;

/// Discord REST API client
pub struct DiscordClient {
    /// Pre-rendered `Bot <token>` header value, so it isn't rebuilt per request.
    auth_header: String,
    token: String,
    application_id: String,
}

/// A client by its authorization header, token and application id.
pub struct DiscordClientView {
    pub auth_header: Seq<char>,
    pub token: Seq<char>,
    pub application_id: Seq<char>,
}

impl View for DiscordClient {
    type V = DiscordClientView;

    closed spec fn view(&self) -> DiscordClientView {
        DiscordClientView {
            auth_header: self.auth_header@,
            token: self.token@,
            application_id: self.application_id@,
        }
    }
}

impl Clone for DiscordClient {
    fn clone(&self) -> (r: Self)
        ensures
            r@ == self@,
    {
        DiscordClient {
            auth_header: self.auth_header.clone(),
            token: self.token.clone(),
            application_id: self.application_id.clone(),
        }
    }
}

impl DiscordClient {
    /// Create a new Discord client, installing a TLS crypto provider for the
    /// process if none is installed yet. Bot tokens use Discord's own `Bot`
    /// scheme, not `Bearer`.
    pub fn new(token: &str, application_id: &str) -> (r: Self)
        ensures
            r@.auth_header == "Bot "@ + token@,
            r@.token == token@,
            r@.application_id == application_id@,
    {
        install_crypto_provider();
        let mut auth_header = to_owned("Bot ");
        push_str(&mut auth_header, token);
        Self { auth_header, token: to_owned(token), application_id: to_owned(application_id) }
    }

    /// Get the bot token
    pub fn token(&self) -> (r: &str)
        ensures
            r@ == self@.token,
    {
        self.token.as_str()
    }

    /// Get the application ID
    pub fn application_id(&self) -> (r: &str)
        ensures
            r@ == self@.application_id,
    {
        self.application_id.as_str()
    }

    /// The `Authorization` header value sent with REST requests.
    pub fn auth_header(&self) -> (r: &str)
        ensures
            r@ == self@.auth_header,
    {
        self.auth_header.as_str()
    }
}

/// Bytes that travel unencoded in a reaction route: unreserved characters
/// plus `:` (custom emoji travel as `name:id`).
pub open spec fn route_safe(b: u8) -> bool {
    (65 <= b <= 90) || (97 <= b <= 122) || (48 <= b <= 57) || b == 45 || b == 95 || b == 46 || b
        == 126 || b == 58
}

/// An uppercase hexadecimal digit.
pub open spec fn hex_digit(n: u8) -> char {
    if n < 10 {
        ((n + 48) as u8) as char
    } else {
        ((n + 55) as u8) as char
    }
}

/// One byte in a route: itself when safe, else `%XX`.
pub open spec fn encode_byte(b: u8) -> Seq<char> {
    if route_safe(b) {
        seq![b as char]
    } else {
        seq!['%', hex_digit(b / 16), hex_digit(b % 16)]
    }
}

/// A byte string percent-encoded for a route segment.
pub open spec fn percent_encoded(bs: Seq<u8>) -> Seq<char>
    decreases bs.len(),
{
    if bs.len() == 0 {
        Seq::empty()
    } else {
        percent_encoded(bs.drop_last()) + encode_byte(bs.last())
    }
}

/// A character that may appear in an encoded route segment.
pub open spec fn route_char(c: char) -> bool {
    ('A' <= c <= 'Z') || ('a' <= c <= 'z') || ('0' <= c <= '9') || c == '-' || c == '_' || c
        == '.' || c == '~' || c == ':' || c == '%'
}

fn hex_char(n: u8) -> (r: char)
    requires
        n < 16,
    ensures
        r == hex_digit(n),
{
    if n < 10 {
        (n + 48) as char
    } else {
        (n + 55) as char
    }
}

/// Percent-encode an emoji for the reactions route: unreserved characters
/// plus `:` pass through, everything else — including every byte of a
/// Unicode emoji — is UTF-8 encoded as `%XX`.
pub fn encode_emoji(emoji: &str) -> (r: String)
    ensures
        r@ == percent_encoded(emoji.spec_bytes()),
{
    let bytes = emoji.as_bytes();
    let mut out = String::new();
    let mut i: usize = 0;
    while i < bytes.len()
        invariant
            i <= bytes@.len(),
            bytes@ == emoji.spec_bytes(),
            out@ == percent_encoded(bytes@.take(i as int)),
        decreases bytes@.len() - i,
    {
        let b = bytes[i];
        let ghost before = out@;
        assert(bytes@.take(i + 1).drop_last() == bytes@.take(i as int));
        if (65 <= b && b <= 90) || (97 <= b && b <= 122) || (48 <= b && b <= 57) || b == 45 || b
            == 95 || b == 46 || b == 126 || b == 58 {
            push_char(&mut out, b as char);
        } else {
            push_char(&mut out, '%');
            push_char(&mut out, hex_char(b / 16));
            push_char(&mut out, hex_char(b % 16));
            assert(out@ == before + seq!['%', hex_digit(b / 16), hex_digit(b % 16)]);
        }
        i = i + 1;
    }
    assert(bytes@.take(bytes@.len() as int) == bytes@);
    out
}

/// An encoded emoji holds only unreserved characters, `:` and `%`: it can
/// never break out of its route segment.
pub proof fn law_encoded_emoji_stays_in_its_segment(bs: Seq<u8>)
    ensures
        forall|i: int| 0 <= i < percent_encoded(bs).len() ==> route_char(#[trigger] percent_encoded(bs)[i]),
    decreases bs.len(),
{
    if bs.len() > 0 {
        law_encoded_emoji_stays_in_its_segment(bs.drop_last());
        let b = bs.last();
        let prev = percent_encoded(bs.drop_last());
        let e = encode_byte(b);
        assert forall|i: int| 0 <= i < e.len() implies route_char(#[trigger] e[i]) by {
            if route_safe(b) {
                assert(e[i] == b as char);
            } else {
                assert(b / 16 < 16);
                assert(b % 16 < 16);
            }
        }
        assert forall|i: int| 0 <= i < percent_encoded(bs).len() implies route_char(
            #[trigger] percent_encoded(bs)[i],
        ) by {
            if i < prev.len() {
                assert(percent_encoded(bs)[i] == prev[i]);
            } else {
                assert(percent_encoded(bs)[i] == e[i - prev.len()]);
            }
        }
    }
}

/// `/channels/{channel}/messages`
pub fn channel_messages_route(channel_id: &str) -> (r: String)
    ensures
        r@ == "/channels/"@ + channel_id@ + "/messages"@,
{
    let mut r = to_owned("/channels/");
    push_str(&mut r, channel_id);
    push_str(&mut r, "/messages");
    r
}

/// `/channels/{channel}/messages/{message}`
pub fn message_route(channel_id: &str, message_id: &str) -> (r: String)
    ensures
        r@ == "/channels/"@ + channel_id@ + "/messages/"@ + message_id@,
{
    let mut r = to_owned("/channels/");
    push_str(&mut r, channel_id);
    push_str(&mut r, "/messages/");
    push_str(&mut r, message_id);
    r
}

/// `/channels/{channel}/messages/{message}/reactions/{emoji}/@me`, with the
/// emoji percent-encoded.
pub fn own_reaction_route(channel_id: &str, message_id: &str, emoji: &str) -> (r: String)
    ensures
        r@ == "/channels/"@ + channel_id@ + "/messages/"@ + message_id@ + "/reactions/"@
            + percent_encoded(emoji.spec_bytes()) + "/@me"@,
{
    let mut r = message_route(channel_id, message_id);
    push_str(&mut r, "/reactions/");
    let e = encode_emoji(emoji);
    push_str(&mut r, e.as_str());
    push_str(&mut r, "/@me");
    r
}

/// `/channels/{channel}/pins/{message}`
pub fn pin_route(channel_id: &str, message_id: &str) -> (r: String)
    ensures
        r@ == "/channels/"@ + channel_id@ + "/pins/"@ + message_id@,
{
    let mut r = to_owned("/channels/");
    push_str(&mut r, channel_id);
    push_str(&mut r, "/pins/");
    push_str(&mut r, message_id);
    r
}

/// `/channels/{channel}/typing`
pub fn typing_route(channel_id: &str) -> (r: String)
    ensures
        r@ == "/channels/"@ + channel_id@ + "/typing"@,
{
    let mut r = to_owned("/channels/");
    push_str(&mut r, channel_id);
    push_str(&mut r, "/typing");
    r
}

/// `/applications/{application}/commands`
pub fn commands_route(application_id: &str) -> (r: String)
    ensures
        r@ == "/applications/"@ + application_id@ + "/commands"@,
{
    let mut r = to_owned("/applications/");
    push_str(&mut r, application_id);
    push_str(&mut r, "/commands");
    r
}

/// The full URL of an API route.
pub fn api_url(route: &str) -> (r: String)
    ensures
        r@ == API_BASE@ + route@,
{
    let mut r = to_owned(API_BASE);
    push_str(&mut r, route);
    r
}

/// The callback URL of an interaction, authorized by its own token.
pub fn interaction_callback_url(interaction_id: &str, interaction_token: &str) -> (r: String)
    ensures
        r@ == API_BASE@ + "/interactions/"@ + interaction_id@ + "/"@ + interaction_token@ + "/callback"@,
{
    let mut r = to_owned(API_BASE);
    push_str(&mut r, "/interactions/");
    push_str(&mut r, interaction_id);
    push_str(&mut r, "/");
    push_str(&mut r, interaction_token);
    push_str(&mut r, "/callback");
    r
}

/// The follow-up webhook URL of an interaction.
pub fn followup_url(application_id: &str, interaction_token: &str) -> (r: String)
    ensures
        r@ == API_BASE@ + "/webhooks/"@ + application_id@ + "/"@ + interaction_token@,
{
    let mut r = to_owned(API_BASE);
    push_str(&mut r, "/webhooks/");
    push_str(&mut r, application_id);
    push_str(&mut r, "/");
    push_str(&mut r, interaction_token);
    r
}

/// The URL of an interaction's original response.
pub fn original_response_url(application_id: &str, interaction_token: &str) -> (r: String)
    ensures
        r@ == API_BASE@ + "/webhooks/"@ + application_id@ + "/"@ + interaction_token@
            + "/messages/@original"@,
{
    let mut r = followup_url(application_id, interaction_token);
    push_str(&mut r, "/messages/@original");
    r
}

/// A downloaded attachment of `len` bytes against the `limit`: over it, the
/// error Discord's client reports instead of truncating.
pub fn check_download_size(len: u64, limit: u64) -> (r: Result<(), String>)
    ensures
        match r {
            Ok(()) => len <= limit,
            Err(m) => len > limit && m@ == "Discord: attachment is "@ + digits(len as nat)
                + " bytes, over the "@ + digits(limit as nat) + "-byte limit"@,
        },
{
    if len <= limit {
        return Ok(());
    }
    let mut m = to_owned("Discord: attachment is ");
    let n = u64_to_string(len);
    push_str(&mut m, n.as_str());
    push_str(&mut m, " bytes, over the ");
    let l = u64_to_string(limit);
    push_str(&mut m, l.as_str());
    push_str(&mut m, "-byte limit");
    Err(m)
}

} // verus!
