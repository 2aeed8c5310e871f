//! Discord gateway intents: the event groups a connection subscribes to.
use vstd::prelude::*;

verus! {

/// Discord Gateway intents; each flag is a constructor named after it (`guilds()`,
/// `message_content()`, …)
#[derive(Debug, Clone, Copy, PartialEq, Eq, Structural)]
pub struct GatewayIntents(pub u32);

impl GatewayIntents {
    /// Guilds intent
    pub fn guilds() -> (r: Self)
        ensures
            r.0 == 1,
    {
        Self(1)
    }
    /// Guild members intent (privileged)
    pub fn guild_members() -> (r: Self)
        ensures
            r.0 == 2,
    {
        Self(2)
    }
    /// Guild moderation intent
    pub fn guild_moderation() -> (r: Self)
        ensures
            r.0 == 4,
    {
        Self(4)
    }
    /// Guild expressions intent
    pub fn guild_expressions() -> (r: Self)
        ensures
            r.0 == 8,
    {
        Self(8)
    }
    /// Guild integrations intent
    pub fn guild_integrations() -> (r: Self)
        ensures
            r.0 == 16,
    {
        Self(16)
    }
    /// Guild webhooks intent
    pub fn guild_webhooks() -> (r: Self)
        ensures
            r.0 == 32,
    {
        Self(32)
    }
    /// Guild invites intent
    pub fn guild_invites() -> (r: Self)
        ensures
            r.0 == 64,
    {
        Self(64)
    }
    /// Guild voice states intent
    pub fn guild_voice_states() -> (r: Self)
        ensures
            r.0 == 128,
    {
        Self(128)
    }
    /// Guild presences intent (privileged)
    pub fn guild_presences() -> (r: Self)
        ensures
            r.0 == 256,
    {
        Self(256)
    }
    /// Guild messages intent
    pub fn guild_messages() -> (r: Self)
        ensures
            r.0 == 512,
    {
        Self(512)
    }
    /// Guild message reactions intent
    pub fn guild_message_reactions() -> (r: Self)
        ensures
            r.0 == 1024,
    {
        Self(1024)
    }
    /// Guild message typing intent
    pub fn guild_message_typing() -> (r: Self)
        ensures
            r.0 == 2048,
    {
        Self(2048)
    }
    /// Direct messages intent
    pub fn direct_messages() -> (r: Self)
        ensures
            r.0 == 4096,
    {
        Self(4096)
    }
    /// Direct message reactions intent
    pub fn direct_message_reactions() -> (r: Self)
        ensures
            r.0 == 8192,
    {
        Self(8192)
    }
    /// Direct message typing intent
    pub fn direct_message_typing() -> (r: Self)
        ensures
            r.0 == 16384,
    {
        Self(16384)
    }
    /// Message content intent (privileged)
    pub fn message_content() -> (r: Self)
        ensures
            r.0 == 32768,
    {
        Self(32768)
    }
    /// Guild scheduled events intent
    pub fn guild_scheduled_events() -> (r: Self)
        ensures
            r.0 == 65536,
    {
        Self(65536)
    }
    /// Auto moderation configuration intent
    pub fn auto_moderation_configuration() -> (r: Self)
        ensures
            r.0 == 1048576,
    {
        Self(1048576)
    }
    /// Auto moderation execution intent
    pub fn auto_moderation_execution() -> (r: Self)
        ensures
            r.0 == 2097152,
    {
        Self(2097152)
    }

    /// No intents
    pub fn empty() -> (r: Self)
        ensures
            r.0 == 0,
    {
        Self(0)
    }

    /// All intents: every flag defined above, bits 0 to 16, 20 and 21.
    pub fn all() -> (r: Self)
        ensures
            r.0 == 0x31FFFF,
    {
        Self(0x31FFFF)
    }

    /// Get the raw bits value
    pub fn bits(&self) -> (r: u32)
        ensures
            r == self.0,
    {
        self.0
    }

    /// Create from raw bits
    pub fn from_bits(bits: u32) -> (r: Self)
        ensures
            r.0 == bits,
    {
        Self(bits)
    }

    /// Check if this contains another intent
    pub fn contains(&self, other: Self) -> (r: bool)
        ensures
            r == (self.0 & other.0 == other.0),
    {
        (self.0 & other.0) == other.0
    }

    /// Combine with another intent
    pub fn union(self, other: Self) -> (r: Self)
        ensures
            r.0 == self.0 | other.0,
    {
        Self(self.0 | other.0)
    }
}

/// `a | b` is the union of two intent sets.
impl core::ops::BitOr for GatewayIntents {
    type Output = Self;

    fn bitor(self, rhs: Self) -> (r: Self) {
        self.union(rhs)
    }
}

impl vstd::std_specs::ops::BitOrSpecImpl for GatewayIntents {
    open spec fn obeys_bitor_spec() -> bool {
        true
    }

    open spec fn bitor_req(self, rhs: Self) -> bool {
        true
    }

    open spec fn bitor_spec(self, rhs: Self) -> Self {
        GatewayIntents(self.0 | rhs.0)
    }
}

/// `a |= b` adds the intents of `b` to `a`.
impl core::ops::BitOrAssign for GatewayIntents {
    fn bitor_assign(&mut self, rhs: Self)
        ensures
            final(self).0 == old(self).0 | rhs.0,
    {
        *self = self.union(rhs);
    }
}

/// A union holds both of its parts, and holds exactly what one of them holds.
pub proof fn law_union_contains_both(a: u32, b: u32, c: u32)
    ensures
        (a | b) & a == a,
        (a | b) & b == b,
        ((a | b) & c == c) <== (a & c == c),
        ((a | b) & c == c) <== (b & c == c),
{
    assert((a | b) & a == a) by (bit_vector);
    assert((a | b) & b == b) by (bit_vector);
    assert((a & c == c) ==> ((a | b) & c == c)) by (bit_vector);
    assert((b & c == c) ==> ((a | b) & c == c)) by (bit_vector);
}

/// Union is commutative, associative and idempotent, and the empty set is
/// its identity.
pub proof fn law_union_algebra(a: u32, b: u32, c: u32)
    ensures
        a | b == b | a,
        (a | b) | c == a | (b | c),
        a | a == a,
        a | 0 == a,
{
    assert(a | b == b | a) by (bit_vector);
    assert((a | b) | c == a | (b | c)) by (bit_vector);
    assert(a | a == a) by (bit_vector);
    assert(a | 0 == a) by (bit_vector);
}

/// `all()` holds exactly the defined intents: bits 0 to 16, 20 and 21.
pub proof fn law_all_holds_exactly_the_defined_intents(b: u32)
    requires
        b < 32,
    ensures
        (0x31FFFFu32 & (1u32 << b) == (1u32 << b)) <==> (b <= 16 || b == 20 || b == 21),
{
    assert((0x31FFFFu32 & (1u32 << b) == (1u32 << b)) <==> (b <= 16 || b == 20 || b == 21)) by (bit_vector)
        requires
            b < 32,
    ;
}

/// Every set contains the empty set and itself.
pub proof fn law_contains_empty_and_self(a: u32)
    ensures
        a & 0 == 0,
        a & a == a,
{
    assert(a & 0 == 0) by (bit_vector);
    assert(a & a == a) by (bit_vector);
}

} // verus!
