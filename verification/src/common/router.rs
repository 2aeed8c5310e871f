//! Handler registration and event routing.
use vstd::prelude::*;

use crate::text::{chars_eq, chars_starts_with, has_prefix, slice_string, str_eq, to_chars, to_owned};

verus! {

broadcast use vstd::string::group_string_axioms;

/// An incoming event, resolved to the shape the router dispatches on
///
/// Adapters translate their platform payload into one of these and hand it to
/// [`BotBuilder::route`].
#[derive(Debug, Clone, Copy)]
pub enum Event<'a> {
    /// A command invocation, by command name (without any prefix or slash)
    Command(&'a str),
    /// A button press / callback, by its custom id
    Button(&'a str),
    /// A plain message that is not a command
    Message,
}

/// An [`Event`], by the characters it carries.
pub enum EventModel {
    Command(Seq<char>),
    Button(Seq<char>),
    Message,
}

impl<'a> View for Event<'a> {
    type V = EventModel;

    open spec fn view(&self) -> EventModel {
        match *self {
            Event::Command(n) => EventModel::Command(n@),
            Event::Button(b) => EventModel::Button(b@),
            Event::Message => EventModel::Message,
        }
    }
}

/// How a handler was registered
///
/// Mostly useful for introspection; routing itself goes through
/// [`BotBuilder::route`].
#[derive(Debug, Clone)]
pub enum HandlerPattern {
    /// Matches a command by exact name
    Command(String),
    /// Matches a button id exactly, or by prefix when it ends with `*`
    Button(String),
    /// Matches any non-command message
    Message,
}

/// A button pattern ends with `*` and then matches by prefix.
pub open spec fn is_wildcard(pattern: Seq<char>) -> bool {
    pattern.len() > 0 && pattern.last() == '*'
}

/// Whether a button `pattern` claims the button id `id`.
pub open spec fn button_pattern_matches(pattern: Seq<char>, id: Seq<char>) -> bool {
    if is_wildcard(pattern) {
        has_prefix(id, pattern.drop_last())
    } else {
        pattern == id
    }
}

/// Whether a registration pattern claims an event.
pub open spec fn pattern_matches(p: HandlerPattern, e: EventModel) -> bool {
    match (p, e) {
        (HandlerPattern::Command(name), EventModel::Command(value)) => name@ == value,
        (HandlerPattern::Button(pattern), EventModel::Button(value)) => button_pattern_matches(pattern@, value),
        (HandlerPattern::Message, EventModel::Message) => true,
        _ => false,
    }
}

impl HandlerPattern {
    /// Check whether this pattern matches an event
    pub fn matches(&self, event: Event<'_>) -> (r: bool)
        ensures
            r == pattern_matches(*self, event@),
    {
        match (self, event) {
            (HandlerPattern::Command(name), Event::Command(value)) => str_eq(name.as_str(), value),
            (HandlerPattern::Button(pattern), Event::Button(value)) => {
                let p = to_chars(pattern.as_str());
                let v = to_chars(value);
                if p.len() > 0 && p[p.len() - 1] == '*' {
                    let prefix = to_chars(slice_string(p.as_slice(), 0, p.len() - 1).as_str());
                    assert(prefix@ == p@.drop_last());
                    chars_starts_with(v.as_slice(), prefix.as_slice())
                } else {
                    chars_eq(p.as_slice(), v.as_slice())
                }
            },
            (HandlerPattern::Message, Event::Message) => true,
            _ => false,
        }
    }
}

/// A registered command and the description shown in platform command menus
#[derive(Debug, Clone, Copy)]
pub struct CommandInfo<'a> {
    /// Command name, without any prefix or slash
    pub name: &'a str,
    /// Description, or an empty string when none was given
    pub description: &'a str,
}

struct CommandEntry<H> {
    name: String,
    handler: H,
    description: Option<String>,
}

/// Builder for constructing bots with handlers
///
/// When two handlers claim the same command or button id, the first one
/// registered wins. Exact button ids take priority over prefix patterns, which
/// are tried in registration order.
pub struct BotBuilder<H> {
    /// Commands in registration order, names distinct.
    commands: Vec<CommandEntry<H>>,
    /// Button ids without a wildcard, distinct.
    buttons: Vec<(String, H)>,
    /// Button patterns ending in `*`, stored without the `*`, in registration order.
    button_prefixes: Vec<(String, H)>,
    /// Catch-all message handler.
    message: Option<H>,
}

/// What a [`BotBuilder`] has registered.
pub struct BuilderModel<H> {
    /// Command names and handlers, in registration order.
    pub commands: Seq<(Seq<char>, H)>,
    /// Each command's description, aligned with `commands`.
    pub descriptions: Seq<Option<Seq<char>>>,
    /// Exact button ids and handlers.
    pub buttons: Seq<(Seq<char>, H)>,
    /// Prefixes of wildcard button patterns and handlers, in registration order.
    pub prefixes: Seq<(Seq<char>, H)>,
    /// The catch-all message handler.
    pub message: Option<H>,
}

/// The predicate "the key equals `key`".
pub open spec fn key_is(key: Seq<char>) -> spec_fn(Seq<char>) -> bool {
    |k: Seq<char>| k == key
}

/// The predicate "the key is a prefix of `id`".
pub open spec fn prefix_of(id: Seq<char>) -> spec_fn(Seq<char>) -> bool {
    |k: Seq<char>| has_prefix(id, k)
}

/// `s[i]` is the first entry whose key satisfies `p`.
pub open spec fn is_first<H>(s: Seq<(Seq<char>, H)>, p: spec_fn(Seq<char>) -> bool, i: int) -> bool {
    &&& 0 <= i < s.len()
    &&& p(s[i].0)
    &&& forall|k: int| 0 <= k < i ==> !p(#[trigger] s[k].0)
}

/// The handler of the first entry whose key satisfies `p`.
pub open spec fn first_handler<H>(s: Seq<(Seq<char>, H)>, p: spec_fn(Seq<char>) -> bool) -> Option<H> {
    if exists|i: int| is_first(s, p, i) {
        Some(s[choose|i: int| is_first(s, p, i)].1)
    } else {
        None
    }
}

/// Some entry's key is `key`.
pub open spec fn has_key<H>(s: Seq<(Seq<char>, H)>, key: Seq<char>) -> bool {
    exists|i: int| 0 <= i < s.len() && #[trigger] s[i].0 == key
}

/// Keys are pairwise distinct.
pub open spec fn keys_distinct<H>(s: Seq<(Seq<char>, H)>) -> bool {
    forall|i: int, j: int| 0 <= i < j < s.len() ==> #[trigger] s[i].0 != #[trigger] s[j].0
}

impl<H> BuilderModel<H> {
    /// Invariants every builder keeps.
    pub open spec fn wf(self) -> bool {
        &&& keys_distinct(self.commands)
        &&& keys_distinct(self.buttons)
        &&& self.descriptions.len() == self.commands.len()
    }

    /// Register a command; an existing registration of `name` wins.
    pub open spec fn add_command(self, name: Seq<char>, description: Option<Seq<char>>, handler: H) -> Self {
        if has_key(self.commands, name) {
            self
        } else {
            BuilderModel {
                commands: self.commands.push((name, handler)),
                descriptions: self.descriptions.push(description),
                ..self
            }
        }
    }

    /// Register a button pattern.
    pub open spec fn add_button(self, pattern: Seq<char>, handler: H) -> Self {
        if is_wildcard(pattern) {
            BuilderModel { prefixes: self.prefixes.push((pattern.drop_last(), handler)), ..self }
        } else if has_key(self.buttons, pattern) {
            self
        } else {
            BuilderModel { buttons: self.buttons.push((pattern, handler)), ..self }
        }
    }

    /// Register the message handler; an earlier one wins.
    pub open spec fn add_message(self, handler: H) -> Self {
        if self.message is Some {
            self
        } else {
            BuilderModel { message: Some(handler), ..self }
        }
    }

    /// The handler an event is routed to.
    pub open spec fn routes(self, e: EventModel) -> Option<H> {
        match e {
            EventModel::Command(name) => first_handler(self.commands, key_is(name)),
            EventModel::Button(id) => {
                if has_key(self.buttons, id) {
                    first_handler(self.buttons, key_is(id))
                } else {
                    first_handler(self.prefixes, prefix_of(id))
                }
            },
            EventModel::Message => self.message,
        }
    }
}

/// The builder with nothing registered.
pub open spec fn empty_model<H>() -> BuilderModel<H> {
    BuilderModel {
        commands: Seq::empty(),
        descriptions: Seq::empty(),
        buttons: Seq::empty(),
        prefixes: Seq::empty(),
        message: None,
    }
}

/// Two first matches are the same entry.
pub proof fn lemma_first_unique<H>(s: Seq<(Seq<char>, H)>, p: spec_fn(Seq<char>) -> bool, i: int, j: int)
    requires
        is_first(s, p, i),
        is_first(s, p, j),
    ensures
        i == j,
{
    if i < j {
        assert(!p(s[i].0));
    } else if j < i {
        assert(!p(s[j].0));
    }
}

/// Any match implies a first match.
pub proof fn lemma_first_exists<H>(s: Seq<(Seq<char>, H)>, p: spec_fn(Seq<char>) -> bool, i: int)
    requires
        0 <= i < s.len(),
        p(s[i].0),
    ensures
        exists|j: int| is_first(s, p, j),
    decreases i,
{
    if forall|k: int| 0 <= k < i ==> !p(#[trigger] s[k].0) {
        assert(is_first(s, p, i));
    } else {
        let k = choose|k: int| 0 <= k < i && p(#[trigger] s[k].0);
        lemma_first_exists(s, p, k);
    }
}

/// The handler found at the first match is what `first_handler` names.
pub proof fn lemma_first_handler<H>(s: Seq<(Seq<char>, H)>, p: spec_fn(Seq<char>) -> bool, i: int)
    requires
        is_first(s, p, i),
    ensures
        first_handler(s, p) == Some(s[i].1),
{
    let j = choose|j: int| is_first(s, p, j);
    lemma_first_unique(s, p, i, j);
}

/// No entry matches, so there is no handler.
pub proof fn lemma_first_none<H>(s: Seq<(Seq<char>, H)>, p: spec_fn(Seq<char>) -> bool)
    requires
        forall|k: int| 0 <= k < s.len() ==> !p(#[trigger] s[k].0),
    ensures
        first_handler(s, p) is None,
{
}

/// An `Option<&H>` seen as an `Option<H>`.
pub open spec fn deref_opt<H>(o: Option<&H>) -> Option<H> {
    match o {
        Some(h) => Some(*h),
        None => None,
    }
}

impl<H> View for BotBuilder<H> {
    type V = BuilderModel<H>;

    closed spec fn view(&self) -> BuilderModel<H> {
        model_of(self.commands@, self.buttons@, self.button_prefixes@, self.message)
    }
}

/// The model of a builder's registrations.
spec fn model_of<H>(
    commands: Seq<CommandEntry<H>>,
    buttons: Seq<(String, H)>,
    prefixes: Seq<(String, H)>,
    message: Option<H>,
) -> BuilderModel<H> {
    BuilderModel {
        commands: commands.map_values(|e: CommandEntry<H>| (e.name@, e.handler)),
        descriptions: commands.map_values(|e: CommandEntry<H>| opt_str(e.description)),
        buttons: buttons.map_values(|e: (String, H)| (e.0@, e.1)),
        prefixes: prefixes.map_values(|e: (String, H)| (e.0@, e.1)),
        message,
    }
}

/// An optional string, by its characters.
pub open spec fn opt_str(o: Option<String>) -> Option<Seq<char>> {
    crate::text::opt_view(o)
}

/// Index of the entry whose key equals `key`, scanning front to back.
fn find_exact<H>(entries: &Vec<(String, H)>, key: &[char]) -> (r: Option<usize>)
    ensures
        ({
            let s = entries@.map_values(|e: (String, H)| (e.0@, e.1));
            match r {
                Some(i) => is_first(s, key_is(key@), i as int),
                None => forall|k: int| 0 <= k < s.len() ==> s[k].0 != key@,
            }
        }),
{
    let ghost s = entries@.map_values(|e: (String, H)| (e.0@, e.1));
    let mut i: usize = 0;
    while i < entries.len()
        invariant
            i <= entries@.len(),
            s == entries@.map_values(|e: (String, H)| (e.0@, e.1)),
            forall|k: int| 0 <= k < i ==> s[k].0 != key@,
        decreases entries@.len() - i,
    {
        let name = to_chars(entries[i].0.as_str());
        if chars_eq(name.as_slice(), key) {
            return Some(i);
        }
        i = i + 1;
    }
    None
}

impl<H> BotBuilder<H> {
    /// Every builder keeps its model's invariants: command names and exact
    /// button ids distinct, one description per command.
    #[verifier::type_invariant]
    spec fn well_formed(self) -> bool {
        self@.wf()
    }

    /// Create a new bot builder
    pub fn new() -> (r: Self)
        ensures
            r@ == empty_model::<H>(),
    {
        let r = BotBuilder {
            commands: Vec::new(),
            buttons: Vec::new(),
            button_prefixes: Vec::new(),
            message: None,
        };
        assert(r@.commands =~= Seq::<(Seq<char>, H)>::empty());
        assert(r@.descriptions =~= Seq::<Option<Seq<char>>>::empty());
        assert(r@.buttons =~= Seq::<(Seq<char>, H)>::empty());
        assert(r@.prefixes =~= Seq::<(Seq<char>, H)>::empty());
        r
    }

    /// Index of the command named `name`.
    fn find_command(&self, name: &[char]) -> (r: Option<usize>)
        ensures
            match r {
                Some(i) => is_first(self@.commands, key_is(name@), i as int),
                None => forall|k: int| 0 <= k < self@.commands.len() ==> self@.commands[k].0 != name@,
            },
    {
        let ghost s = self@.commands;
        let mut i: usize = 0;
        while i < self.commands.len()
            invariant
                i <= self.commands@.len(),
                s == self@.commands,
                s.len() == self.commands@.len(),
                forall|k: int| 0 <= k < i ==> s[k].0 != name@,
            decreases self.commands@.len() - i,
        {
            let n = to_chars(self.commands[i].name.as_str());
            assert(s[i as int].0 == self.commands@[i as int].name@);
            if chars_eq(n.as_slice(), name) {
                return Some(i);
            }
            i = i + 1;
        }
        None
    }

    fn insert_command(self, name: &str, description: Option<String>, handler: H) -> (r: Self)
        ensures
            r@ == self@.add_command(name@, opt_str(description), handler),
    {
        proof {
            use_type_invariant(&self);
        }
        let key = to_chars(name);
        match self.find_command(key.as_slice()) {
            Some(i) => {
                assert(has_key(self@.commands, name@)) by {
                    assert(self@.commands[i as int].0 == name@);
                }
                self
            },
            None => {
                let ghost old_model = self@;
                assert(!has_key(self@.commands, name@));
                let BotBuilder { mut commands, buttons, button_prefixes, message } = self;
                commands.push(CommandEntry { name: to_owned(name), handler, description });
                let ghost m = model_of(commands@, buttons@, button_prefixes@, message);
                proof {
                    assert(m.commands =~= old_model.commands.push((name@, handler)));
                    assert(m.descriptions =~= old_model.descriptions.push(opt_str(description)));
                    assert(m.buttons =~= old_model.buttons);
                    assert(m.prefixes =~= old_model.prefixes);
                }
                BotBuilder { commands, buttons, button_prefixes, message }
            },
        }
    }

    /// Register a command handler
    pub fn command(self, name: &str, handler: H) -> (r: Self)
        ensures
            r@ == self@.add_command(name@, None, handler),
    {
        self.insert_command(name, None, handler)
    }

    /// Register a command handler with a description
    ///
    /// The description is used for slash command menus (e.g., Telegram's /command list).
    pub fn command_with_description(self, name: &str, description: &str, handler: H) -> (r: Self)
        ensures
            r@ == self@.add_command(name@, Some(description@), handler),
    {
        self.insert_command(name, Some(to_owned(description)), handler)
    }

    /// Register a button handler with pattern matching
    ///
    /// Pattern can end with `*` for prefix matching (e.g., "confirm_*").
    /// Exact ids take priority over prefix patterns.
    pub fn button(self, pattern: &str, handler: H) -> (r: Self)
        ensures
            r@ == self@.add_button(pattern@, handler),
    {
        proof {
            use_type_invariant(&self);
        }
        let ghost old_model = self@;
        let p = to_chars(pattern);
        if p.len() > 0 && p[p.len() - 1] == '*' {
            let prefix = slice_string(p.as_slice(), 0, p.len() - 1);
            assert(prefix@ == pattern@.drop_last());
            let BotBuilder { commands, buttons, mut button_prefixes, message } = self;
            button_prefixes.push((prefix, handler));
            let ghost m = model_of(commands@, buttons@, button_prefixes@, message);
            proof {
                assert(m.prefixes =~= old_model.prefixes.push((pattern@.drop_last(), handler)));
                assert(m.commands =~= old_model.commands);
                assert(m.descriptions =~= old_model.descriptions);
                assert(m.buttons =~= old_model.buttons);
            }
            BotBuilder { commands, buttons, button_prefixes, message }
        } else {
            match find_exact(&self.buttons, p.as_slice()) {
                Some(i) => {
                    assert(has_key(self@.buttons, pattern@)) by {
                        assert(self@.buttons[i as int].0 == pattern@);
                    }
                    self
                },
                None => {
                    assert(!has_key(self@.buttons, pattern@));
                    let BotBuilder { commands, mut buttons, button_prefixes, message } = self;
                    buttons.push((to_owned(pattern), handler));
                    let ghost m = model_of(commands@, buttons@, button_prefixes@, message);
                    proof {
                        assert(m.buttons =~= old_model.buttons.push((pattern@, handler)));
                        assert(m.commands =~= old_model.commands);
                        assert(m.descriptions =~= old_model.descriptions);
                        assert(m.prefixes =~= old_model.prefixes);
                    }
                    BotBuilder { commands, buttons, button_prefixes, message }
                },
            }
        }
    }

    /// Register a catch-all message handler
    ///
    /// Only one message handler is used; later registrations are ignored.
    pub fn message(self, handler: H) -> (r: Self)
        ensures
            r@ == self@.add_message(handler),
    {
        proof {
            use_type_invariant(&self);
        }
        if self.message.is_some() {
            return self;
        }
        let ghost old_model = self@;
        let BotBuilder { commands, buttons, button_prefixes, message: _ } = self;
        let ghost m = model_of(commands@, buttons@, button_prefixes@, Some(handler));
        proof {
            assert(m.commands =~= old_model.commands);
            assert(m.descriptions =~= old_model.descriptions);
            assert(m.buttons =~= old_model.buttons);
            assert(m.prefixes =~= old_model.prefixes);
        }
        BotBuilder { commands, buttons, button_prefixes, message: Some(handler) }
    }

    /// Get all registered commands with their descriptions, in registration order
    pub fn commands(&self) -> (r: Vec<CommandInfo<'_>>)
        ensures
            r@.len() == self@.commands.len(),
            forall|i: int|
                0 <= i < r@.len() ==> (#[trigger] r@[i]).name@ == self@.commands[i].0
                    && r@[i].description@ == match self@.descriptions[i] {
                    Some(d) => d,
                    None => Seq::<char>::empty(),
                },
    {
        let mut out: Vec<CommandInfo<'_>> = Vec::new();
        let mut i: usize = 0;
        while i < self.commands.len()
            invariant
                i <= self.commands@.len(),
                out@.len() == i,
                forall|k: int|
                    0 <= k < i ==> (#[trigger] out@[k]).name@ == self@.commands[k].0
                        && out@[k].description@ == match self@.descriptions[k] {
                        Some(d) => d,
                        None => Seq::<char>::empty(),
                    },
            decreases self.commands@.len() - i,
        {
            let entry = &self.commands[i];
            let description: &str = match &entry.description {
                Some(d) => d.as_str(),
                None => "",
            };
            proof {
                reveal_strlit("");
            }
            out.push(CommandInfo { name: entry.name.as_str(), description });
            i = i + 1;
        }
        out
    }

    /// Whether any command handler is registered
    pub fn has_commands(&self) -> (r: bool)
        ensures
            r == (self@.commands.len() > 0),
    {
        self.commands.len() > 0
    }

    /// Find the handler that should serve an event
    pub fn route(&self, event: Event<'_>) -> (r: Option<&H>)
        ensures
            deref_opt(r) == self@.routes(event@),
    {
        proof {
            use_type_invariant(self);
        }
        match event {
            Event::Command(name) => {
                let key = to_chars(name);
                match self.find_command(key.as_slice()) {
                    Some(i) => {
                        proof {
                            lemma_first_handler(self@.commands, key_is(name@), i as int);
                        }
                        Some(&self.commands[i].handler)
                    },
                    None => {
                        proof {
                            lemma_first_none(self@.commands, key_is(name@));
                        }
                        None
                    },
                }
            },
            Event::Button(id) => {
                let key = to_chars(id);
                let ghost pe = key_is(id@);
                match find_exact(&self.buttons, key.as_slice()) {
                    Some(i) => {
                        proof {
                            lemma_first_handler(self@.buttons, pe, i as int);
                            assert(self@.buttons[i as int].0 == id@);
                        }
                        Some(&self.buttons[i].1)
                    },
                    None => {
                        assert(!has_key(self@.buttons, id@));
                        let ghost pp = prefix_of(id@);
                        let ghost s = self@.prefixes;
                        let mut i: usize = 0;
                        while i < self.button_prefixes.len()
                            invariant
                                i <= self.button_prefixes@.len(),
                                s == self@.prefixes,
                                s.len() == self.button_prefixes@.len(),
                                key@ == id@,
                                pp == prefix_of(id@),
                                !has_key(self@.buttons, id@),
                                event@ == EventModel::Button(id@),
                                forall|k: int| 0 <= k < i ==> !pp(#[trigger] s[k].0),
                            decreases self.button_prefixes@.len() - i,
                        {
                            let prefix = to_chars(self.button_prefixes[i].0.as_str());
                            assert(s[i as int].0 == self.button_prefixes@[i as int].0@);
                            if chars_starts_with(key.as_slice(), prefix.as_slice()) {
                                proof {
                                    assert(is_first(s, pp, i as int));
                                    lemma_first_handler(s, pp, i as int);
                                }
                                return Some(&self.button_prefixes[i].1);
                            }
                            i = i + 1;
                        }
                        proof {
                            lemma_first_none(s, pp);
                        }
                        None
                    },
                }
            },
            Event::Message => match &self.message {
                Some(h) => Some(h),
                None => None,
            },
        }
    }
}

/// The builder with exactly one registration, made from `pattern`.
pub open spec fn register_pattern<H>(m: BuilderModel<H>, pattern: HandlerPattern, handler: H) -> BuilderModel<H> {
    match pattern {
        HandlerPattern::Command(name) => m.add_command(name@, None, handler),
        HandlerPattern::Button(p) => m.add_button(p@, handler),
        HandlerPattern::Message => m.add_message(handler),
    }
}

/// Registering a command name a second time changes nothing: the first
/// registration keeps serving it.
pub proof fn law_first_command_registration_wins<H>(
    m: BuilderModel<H>,
    name: Seq<char>,
    d1: Option<Seq<char>>,
    d2: Option<Seq<char>>,
    h1: H,
    h2: H,
)
    ensures
        m.add_command(name, d1, h1).add_command(name, d2, h2) == m.add_command(name, d1, h1),
{
    let m1 = m.add_command(name, d1, h1);
    if !has_key(m.commands, name) {
        assert(m1.commands[m.commands.len() as int].0 == name);
    }
    assert(has_key(m1.commands, name));
}

/// A newly registered command serves its name, unless the name was already taken.
pub proof fn law_command_routes_to_first_registration<H>(
    m: BuilderModel<H>,
    name: Seq<char>,
    d: Option<Seq<char>>,
    h: H,
)
    requires
        m.wf(),
    ensures
        m.add_command(name, d, h).routes(EventModel::Command(name)) == if has_key(m.commands, name) {
            m.routes(EventModel::Command(name))
        } else {
            Some(h)
        },
{
    if !has_key(m.commands, name) {
        let m1 = m.add_command(name, d, h);
        let i = m.commands.len() as int;
        assert(is_first(m1.commands, key_is(name), i)) by {
            assert forall|k: int| 0 <= k < i implies !key_is(name)(#[trigger] m1.commands[k].0) by {
                assert(m1.commands[k] == m.commands[k]);
            }
        }
        lemma_first_handler(m1.commands, key_is(name), i);
    }
}

/// Registering the same exact button id twice keeps the first handler, and the
/// message handler likewise keeps its first registration.
pub proof fn law_first_button_and_message_registration_wins<H>(
    m: BuilderModel<H>,
    id: Seq<char>,
    h1: H,
    h2: H,
)
    requires
        !is_wildcard(id),
    ensures
        m.add_button(id, h1).add_button(id, h2) == m.add_button(id, h1),
        m.add_message(h1).add_message(h2) == m.add_message(h1),
{
    let m1 = m.add_button(id, h1);
    if !has_key(m.buttons, id) {
        assert(m1.buttons[m.buttons.len() as int].0 == id);
    }
    assert(has_key(m1.buttons, id));
}

/// Commands, buttons and messages are separate namespaces: registering in one
/// never changes how events of another kind route.
pub proof fn law_namespaces_do_not_collide<H>(
    m: BuilderModel<H>,
    name: Seq<char>,
    d: Option<Seq<char>>,
    pattern: Seq<char>,
    h: H,
    e: EventModel,
)
    ensures
        !(e is Command) ==> m.add_command(name, d, h).routes(e) == m.routes(e),
        !(e is Button) ==> m.add_button(pattern, h).routes(e) == m.routes(e),
        !(e is Message) ==> m.add_message(h).routes(e) == m.routes(e),
{
}

/// An exact button id wins over every wildcard pattern, whenever either was registered.
pub proof fn law_exact_button_beats_prefix<H>(
    m: BuilderModel<H>,
    id: Seq<char>,
    pattern: Seq<char>,
    h: H,
)
    requires
        has_key(m.buttons, id),
        is_wildcard(pattern),
    ensures
        m.add_button(pattern, h).routes(EventModel::Button(id)) == m.routes(EventModel::Button(id)),
{
}

/// A builder holding one registration routes an event to it exactly when the
/// registration's pattern matches the event.
pub proof fn law_routing_mirrors_pattern_matching<H>(pattern: HandlerPattern, h: H, e: EventModel)
    ensures
        register_pattern(empty_model::<H>(), pattern, h).routes(e) == if pattern_matches(pattern, e) {
            Some(h)
        } else {
            None
        },
{
    let m = register_pattern(empty_model::<H>(), pattern, h);
    match (pattern, e) {
        (HandlerPattern::Command(name), EventModel::Command(v)) => {
            assert(!has_key(empty_model::<H>().commands, name@));
            if name@ == v {
                assert(is_first(m.commands, key_is(v), 0));
                lemma_first_handler(m.commands, key_is(v), 0);
            } else {
                lemma_first_none(m.commands, key_is(v));
            }
        },
        (HandlerPattern::Button(p), EventModel::Button(v)) => {
            if is_wildcard(p@) {
                assert(!has_key(m.buttons, v));
                if has_prefix(v, p@.drop_last()) {
                    assert(is_first(m.prefixes, prefix_of(v), 0));
                    lemma_first_handler(m.prefixes, prefix_of(v), 0);
                } else {
                    lemma_first_none(m.prefixes, prefix_of(v));
                }
            } else {
                assert(!has_key(empty_model::<H>().buttons, p@));
                if p@ == v {
                    assert(m.buttons[0].0 == v);
                    assert(is_first(m.buttons, key_is(v), 0));
                    lemma_first_handler(m.buttons, key_is(v), 0);
                } else {
                    assert(!has_key(m.buttons, v));
                    lemma_first_none(m.prefixes, prefix_of(v));
                }
            }
        },
        (HandlerPattern::Command(name), EventModel::Button(v)) => {
            assert(!has_key(m.buttons, v));
            lemma_first_none(m.prefixes, prefix_of(v));
        },
        (HandlerPattern::Message, EventModel::Button(v)) => {
            assert(!has_key(m.buttons, v));
            lemma_first_none(m.prefixes, prefix_of(v));
        },
        (HandlerPattern::Button(p), EventModel::Command(v)) => {
            lemma_first_none(m.commands, key_is(v));
        },
        (HandlerPattern::Message, EventModel::Command(v)) => {
            lemma_first_none(m.commands, key_is(v));
        },
        _ => {},
    }
}

} // verus!
