//! Markdown → Telegram entities.
//!
//! Bots speak markdown; Telegram wants `(text, entities)` — a plain string
//! plus formatting ranges whose offsets are UTF-16 code-unit indices. The
//! renderer here consumes CommonMark parse events and emits that pair
//! directly, so no `parse_mode` escaping is ever involved.
//!
//! Supported: `**bold**`, `*italic*`/`_x_`, `~~strike~~`, `` `code` ``,
//! fenced blocks (language → `pre`), `[label](url)`, `![alt](img)`, `>`
//! quotes (→ `blockquote`), headings (→ bold), ordered and bullet lists
//! (literal `- `/`n.` markers), task-list markers, rules. Anything else
//! passes through as literal text.
use crate::telegram::types::{EntityType, Formatted, MessageEntity};
use crate::telegram::utf16::{char_utf16_len, char_utf16_units, utf16_len};
use crate::text::{digits, from_chars, is_whitespace, is_ws, to_chars, u64_to_string};
use pulldown_cmark::{CodeBlockKind, Event as Cmark, Options, Parser, Tag as CmarkTag, TagEnd as CmarkEnd};
use vstd::prelude::*;

verus! {

/// Owned counterpart of [`Formatted`]: the plain text plus its entity list.
#[derive(Debug, Clone)]
pub struct Rendered {
    /// The message text with markdown syntax resolved away.
    pub text: String,
    /// Entities covering `text`; offsets are UTF-16 code units.
    pub entities: Vec<MessageEntity>,
}

impl Rendered {
    /// Borrow this render in the shape send/edit/caption methods take.
    pub fn formatted(&self) -> (r: Formatted<'_>)
        ensures
            r.text@ == self.text@,
            r.entities@ == self.entities@,
    {
        Formatted { text: self.text.as_str(), entities: self.entities.as_slice() }
    }
}

/// A span opened by a start tag and closed by its end tag, which becomes one
/// [`MessageEntity`] covering the text emitted in between.
#[derive(Debug)]
pub struct Open {
    pub kind: EntityType,
    pub url: Option<String>,
    pub language: Option<String>,
    /// Character offset into the output where the covered text begins.
    pub start: usize,
    /// UTF-16 counterpart of `start`.
    pub start16: u128,
    /// Text emitted inside the span if it is empty when closed — images with
    /// no alt text fall back to showing the destination URL.
    pub empty_fill: Option<String>,
}

impl Open {
    pub fn new(kind: EntityType, url: Option<String>, start: usize, start16: u128) -> (r: Self)
        ensures
            r == (Open { kind, url, language: None, start, start16, empty_fill: None }),
    {
        Self { kind, url, language: None, start, start16, empty_fill: None }
    }
}

/// An open list: ordered lists count their items.
#[derive(Debug, Clone, Copy)]
pub struct ListCtx {
    pub ordered: bool,
    pub next: u64,
}

/// What the renderer has produced so far.
pub struct RenderModel {
    pub out: Seq<char>,
    pub entities: Seq<MessageEntity>,
    pub stack: Seq<Open>,
    pub lists: Seq<ListCtx>,
    pub item_depth: nat,
}

/// Turns parse events into text plus entities.
pub struct Renderer {
    out: Vec<char>,
    /// UTF-16 length of `out` — entity offsets count UTF-16 units, not
    /// characters (an emoji is two).
    len16: u128,
    entities: Vec<MessageEntity>,
    stack: Vec<Open>,
    lists: Vec<ListCtx>,
    /// Open item count — paragraphs inside list items are tight list
    /// content and get no blank-line separation.
    item_depth: usize,
    /// The character range each entity covers.
    spans: Ghost<Seq<(int, int)>>,
}

/// `e` covers characters `a..b` of `out`: its UTF-16 offset and length are
/// those of that range, which neither starts nor ends with whitespace.
pub open spec fn span_ok(out: Seq<char>, a: int, b: int, e: MessageEntity) -> bool {
    &&& 0 <= a < b <= out.len()
    &&& e.offset == utf16_len(out.take(a)) as i64
    &&& e.length == (utf16_len(out.take(b)) - utf16_len(out.take(a))) as i64
    &&& !is_ws(out[a])
    &&& !is_ws(out[b - 1])
}

/// Some non-empty range of `text` without whitespace at its edges is what `e`
/// covers.
pub open spec fn entity_covers(text: Seq<char>, e: MessageEntity) -> bool {
    exists|a: int, b: int| span_ok(text, a, b, e)
}

/// The first index from `lo` on that is not whitespace (or `hi`).
pub open spec fn skip_ws_from(s: Seq<char>, lo: int, hi: int) -> int
    decreases hi - lo,
{
    if lo < hi && is_ws(s[lo]) {
        skip_ws_from(s, lo + 1, hi)
    } else {
        lo
    }
}

/// The end of `s[lo..hi]` once trailing whitespace is dropped.
pub open spec fn back_ws_to(s: Seq<char>, lo: int, hi: int) -> int
    decreases hi - lo,
{
    if lo < hi && is_ws(s[hi - 1]) {
        back_ws_to(s, lo, hi - 1)
    } else {
        hi
    }
}

proof fn lemma_skip_ws(s: Seq<char>, lo: int, hi: int)
    requires
        0 <= lo <= hi <= s.len(),
    ensures
        lo <= skip_ws_from(s, lo, hi) <= hi,
        skip_ws_from(s, lo, hi) < hi ==> !is_ws(s[skip_ws_from(s, lo, hi)]),
    decreases hi - lo,
{
    if lo < hi && is_ws(s[lo]) {
        lemma_skip_ws(s, lo + 1, hi);
    }
}

proof fn lemma_back_ws(s: Seq<char>, lo: int, hi: int)
    requires
        0 <= lo <= hi <= s.len(),
    ensures
        lo <= back_ws_to(s, lo, hi) <= hi,
        back_ws_to(s, lo, hi) > lo ==> !is_ws(s[back_ws_to(s, lo, hi) - 1]),
    decreases hi - lo,
{
    if lo < hi && is_ws(s[hi - 1]) {
        lemma_back_ws(s, lo, hi - 1);
    }
}

/// The entity a closed span yields over `out`, covering `a..b`.
pub open spec fn span_entity(o: Open, out: Seq<char>, a: int, b: int) -> MessageEntity {
    MessageEntity {
        entity_type: o.kind,
        offset: utf16_len(out.take(a)) as i64,
        length: (utf16_len(out.take(b)) - utf16_len(out.take(a))) as i64,
        user: None,
        url: o.url,
        language: o.language,
        custom_emoji_id: None,
    }
}

/// Append `t`.
pub open spec fn m_push(m: RenderModel, t: Seq<char>) -> RenderModel {
    RenderModel { out: m.out + t, ..m }
}

/// End the output with a newline when it has content.
pub open spec fn m_newline(m: RenderModel) -> RenderModel {
    if m.out.len() > 0 && m.out.last() != '\n' {
        m_push(m, seq!['\n'])
    } else {
        m
    }
}

/// End the output with a blank line when it has content.
pub open spec fn m_blank_line(m: RenderModel) -> RenderModel {
    if m.out.len() > 0 {
        if m.out.last() == '\n' {
            m_push(m, seq!['\n'])
        } else {
            m_push(m, seq!['\n', '\n'])
        }
    } else {
        m
    }
}

/// The span a start tag opens at the current end of the output.
pub open spec fn open_here(m: RenderModel, kind: EntityType, url: Option<String>, language: Option<String>, fill: Option<String>) -> Open {
    Open {
        kind,
        url,
        language,
        start: m.out.len() as usize,
        start16: utf16_len(m.out) as u128,
        empty_fill: fill,
    }
}

/// Open a span at the current end of the output.
pub open spec fn m_open(m: RenderModel, kind: EntityType, url: Option<String>, language: Option<String>) -> RenderModel {
    RenderModel { stack: m.stack.push(open_here(m, kind, url, language, None)), ..m }
}

/// Close the innermost span: an empty image span shows its fill text, and
/// the entity covers the span's text without edge whitespace, if any is left.
pub open spec fn m_close(m: RenderModel) -> RenderModel {
    if m.stack.len() == 0 {
        m
    } else {
        let o = m.stack.last();
        let out = if o.start == m.out.len() && o.empty_fill is Some {
            m.out + o.empty_fill.unwrap()@
        } else {
            m.out
        };
        let a = skip_ws_from(out, o.start as int, out.len() as int);
        let b = back_ws_to(out, a, out.len() as int);
        RenderModel {
            out,
            entities: if b > a {
                m.entities.push(span_entity(o, out, a, b))
            } else {
                m.entities
            },
            stack: m.stack.drop_last(),
            ..m
        }
    }
}

impl Renderer {
    /// The model of what has been rendered.
    pub closed spec fn model(&self) -> RenderModel {
        RenderModel {
            out: self.out@,
            entities: self.entities@,
            stack: self.stack@,
            lists: self.lists@,
            item_depth: self.item_depth as nat,
        }
    }

    /// The counters match the output, every open span starts inside it, and
    /// every entity covers a range of it with no whitespace at the edges.
    pub closed spec fn wf(&self) -> bool {
        &&& self.len16 == utf16_len(self.out@)
        &&& self.len16 <= 2 * self.out@.len()
        &&& forall|i: int|
            0 <= i < self.stack@.len() ==> #[trigger] self.stack@[i].start <= self.out@.len()
                && self.stack@[i].start16 == utf16_len(self.out@.take(self.stack@[i].start as int))
        &&& self.spans@.len() == self.entities@.len()
        &&& forall|i: int|
            0 <= i < self.entities@.len() ==> span_ok(
                self.out@,
                #[trigger] self.spans@[i].0,
                self.spans@[i].1,
                self.entities@[i],
            )
    }

    /// An empty renderer.
    pub fn new() -> (r: Self)
        ensures
            r.wf(),
            r.model() == (RenderModel {
                out: Seq::empty(),
                entities: Seq::empty(),
                stack: Seq::empty(),
                lists: Seq::empty(),
                item_depth: 0,
            }),
    {
        Renderer {
            out: Vec::new(),
            len16: 0,
            entities: Vec::new(),
            stack: Vec::new(),
            lists: Vec::new(),
            item_depth: 0,
            spans: Ghost(Seq::empty()),
        }
    }

    proof fn lemma_extend_keeps(&self, old_out: Seq<char>)
        requires
            old_out.len() <= self.out@.len(),
            self.out@.take(old_out.len() as int) == old_out,
            self.spans@.len() == self.entities@.len(),
            forall|i: int|
                0 <= i < self.entities@.len() ==> span_ok(
                    old_out,
                    #[trigger] self.spans@[i].0,
                    self.spans@[i].1,
                    self.entities@[i],
                ),
            forall|i: int|
                0 <= i < self.stack@.len() ==> #[trigger] self.stack@[i].start <= old_out.len()
                    && self.stack@[i].start16 == utf16_len(old_out.take(self.stack@[i].start as int)),
        ensures
            forall|i: int|
                0 <= i < self.entities@.len() ==> span_ok(
                    self.out@,
                    #[trigger] self.spans@[i].0,
                    self.spans@[i].1,
                    self.entities@[i],
                ),
            forall|i: int|
                0 <= i < self.stack@.len() ==> #[trigger] self.stack@[i].start <= self.out@.len()
                    && self.stack@[i].start16 == utf16_len(self.out@.take(self.stack@[i].start as int)),
    {
        assert forall|i: int| 0 <= i < self.entities@.len() implies span_ok(
            self.out@,
            #[trigger] self.spans@[i].0,
            self.spans@[i].1,
            self.entities@[i],
        ) by {
            let a = self.spans@[i].0;
            let b = self.spans@[i].1;
            assert(span_ok(old_out, a, b, self.entities@[i]));
            assert(self.out@.take(a) == old_out.take(a));
            assert(self.out@.take(b) == old_out.take(b));
            assert(self.out@[a] == old_out[a]);
            assert(self.out@[b - 1] == old_out[b - 1]);
        }
        assert forall|i: int| 0 <= i < self.stack@.len() implies #[trigger] self.stack@[i].start
            <= self.out@.len() && self.stack@[i].start16 == utf16_len(
            self.out@.take(self.stack@[i].start as int),
        ) by {
            let s = self.stack@[i].start as int;
            assert(self.out@.take(s) == old_out.take(s));
        }
    }

    /// Append one character.
    fn push_char(&mut self, c: char)
        requires
            old(self).wf(),
        ensures
            final(self).wf(),
            final(self).model() == m_push(old(self).model(), seq![c]),
    {
        let ghost old_out = self.out@;
        let n = self.out.len();
        self.out.push(c);
        self.len16 = self.len16 + char_utf16_units(c) as u128;
        proof {
            assert(self.out@.drop_last() == old_out);
            assert(self.out@.take(old_out.len() as int) == old_out);
            self.lemma_extend_keeps(old_out);
            assert(self.out@ == old_out + seq![c]);
        }
    }

    /// Append `text`.
    pub fn push(&mut self, text: &str)
        requires
            old(self).wf(),
        ensures
            final(self).wf(),
            final(self).model() == m_push(old(self).model(), text@),
    {
        let cs = to_chars(text);
        let ghost start = self.model();
        let mut i: usize = 0;
        while i < cs.len()
            invariant
                self.wf(),
                i <= cs@.len(),
                cs@ == text@,
                self.model() == m_push(start, cs@.take(i as int)),
            decreases cs@.len() - i,
        {
            self.push_char(cs[i]);
            assert(cs@.take(i + 1) == cs@.take(i as int).push(cs@[i as int]));
            assert(start.out + cs@.take(i as int) + seq![cs@[i as int]] == start.out + cs@.take(i + 1));
            i = i + 1;
        }
        assert(cs@.take(cs@.len() as int) == cs@);
    }

    /// Whether the output ends with a newline.
    fn ends_with_newline(&self) -> (r: bool)
        ensures
            r == (self.out@.len() > 0 && self.out@.last() == '\n'),
    {
        let n = self.out.len();
        n > 0 && self.out[n - 1] == '\n'
    }

    /// Ensure the output ends with a single newline when it has content.
    pub fn newline(&mut self)
        requires
            old(self).wf(),
        ensures
            final(self).wf(),
            final(self).model() == m_newline(old(self).model()),
    {
        if self.out.len() > 0 && !self.ends_with_newline() {
            self.push_char('\n');
        }
    }

    /// Ensure the output ends with a blank line when it has content.
    pub fn blank_line(&mut self)
        requires
            old(self).wf(),
        ensures
            final(self).wf(),
            final(self).model() == m_blank_line(old(self).model()),
    {
        if self.out.len() > 0 {
            if self.ends_with_newline() {
                self.push_char('\n');
            } else {
                let ghost m0 = self.model();
                self.push_char('\n');
                self.push_char('\n');
                assert(m0.out + seq!['\n'] + seq!['\n'] == m0.out + seq!['\n', '\n']);
            }
        }
    }

    /// Open a span of `kind` at the current end of the output.
    pub fn open(&mut self, kind: EntityType, url: Option<String>, language: Option<String>)
        requires
            old(self).wf(),
        ensures
            final(self).wf(),
            final(self).model() == m_open(old(self).model(), kind, url, language),
    {
        let mut open = Open::new(kind, url, self.out.len(), self.len16);
        open.language = language;
        self.push_open(open);
    }

    fn push_open(&mut self, open: Open)
        requires
            old(self).wf(),
            open.start == old(self).out@.len(),
            open.start16 == utf16_len(old(self).out@),
        ensures
            final(self).wf(),
            final(self).model() == (RenderModel { stack: old(self).model().stack.push(open), ..old(self).model() }),
    {
        let ghost old_stack = self.stack@;
        self.stack.push(open);
        proof {
            assert(self.out@.take(self.out@.len() as int) == self.out@);
            assert forall|i: int| 0 <= i < self.stack@.len() implies #[trigger] self.stack@[i].start
                <= self.out@.len() && self.stack@[i].start16 == utf16_len(
                self.out@.take(self.stack@[i].start as int),
            ) by {
                if i < old_stack.len() {
                    assert(self.stack@[i] == old_stack[i]);
                }
            }
        }
    }

    /// UTF-16 length of the first `k` characters of the output.
    fn utf16_prefix(&self, k: usize) -> (r: u128)
        requires
            k <= self.out@.len(),
        ensures
            r == utf16_len(self.out@.take(k as int)),
    {
        let mut n: u128 = 0;
        let mut i: usize = 0;
        while i < k
            invariant
                k <= self.out@.len(),
                i <= k,
                n == utf16_len(self.out@.take(i as int)),
                n <= 2 * i,
            decreases k - i,
        {
            assert(self.out@.take(i + 1).drop_last() == self.out@.take(i as int));
            n = n + char_utf16_units(self.out[i]) as u128;
            i = i + 1;
        }
        n
    }

    /// Pop the innermost span and emit its entity. Whitespace at the edges is
    /// excluded from the range — Telegram ignores entities that cover stray
    /// whitespace, and an empty range drops the entity entirely.
    pub fn close(&mut self)
        requires
            old(self).wf(),
        ensures
            final(self).wf(),
            final(self).model() == m_close(old(self).model()),
    {
        let ghost m0 = self.model();
        let open = match self.stack.pop() {
            Some(o) => o,
            None => return,
        };
        proof {
            assert(self.stack@ == m0.stack.drop_last());
            assert(open == m0.stack.last());
        }
        if open.start == self.out.len() {
            match &open.empty_fill {
                Some(fill) => {
                    self.push(fill.as_str());
                },
                None => {},
            }
        }
        let ghost out = self.out@;
        let n = self.out.len();
        let mut start = open.start;
        while start < n && is_whitespace(self.out[start])
            invariant
                open.start <= start <= n,
                n == self.out@.len(),
                self.out@ == out,
                skip_ws_from(out, open.start as int, n as int) == skip_ws_from(out, start as int, n as int),
            decreases n - start,
        {
            start = start + 1;
        }
        let mut end = n;
        while end > start && is_whitespace(self.out[end - 1])
            invariant
                start <= end <= n,
                n == self.out@.len(),
                self.out@ == out,
                back_ws_to(out, start as int, n as int) == back_ws_to(out, start as int, end as int),
            decreases end,
        {
            end = end - 1;
        }
        proof {
            lemma_skip_ws(out, open.start as int, n as int);
            lemma_back_ws(out, start as int, n as int);
        }
        if end > start {
            let start16 = self.utf16_prefix(start);
            let end16 = self.utf16_prefix(end);
            proof {
                if start < end {
                    crate::telegram::utf16::lemma_utf16_len_strictly_grows(out, start as int, end as int);
                }
            }
            let entity = MessageEntity {
                entity_type: open.kind,
                offset: start16 as i64,
                length: (end16 - start16) as i64,
                user: None,
                url: open.url,
                language: open.language,
                custom_emoji_id: None,
            };
            let ghost old_spans = self.spans@;
            let ghost old_entities = self.entities@;
            self.entities.push(entity);
            proof {
                self.spans@ = old_spans.push((start as int, end as int));
                assert forall|i: int| 0 <= i < self.entities@.len() implies span_ok(
                    self.out@,
                    #[trigger] self.spans@[i].0,
                    self.spans@[i].1,
                    self.entities@[i],
                ) by {
                    if i < old_entities.len() {
                        assert(self.entities@[i] == old_entities[i]);
                        assert(self.spans@[i] == old_spans[i]);
                    }
                }
            }
        }
    }

    /// The text and entities rendered so far.
    pub fn finish(self) -> (r: Rendered)
        requires
            self.wf(),
        ensures
            r.text@ == self.model().out,
            r.entities@ == self.model().entities,
            forall|i: int| 0 <= i < r.entities@.len() ==> entity_covers(r.text@, #[trigger] r.entities@[i]),
    {
        let text = from_chars(self.out.as_slice());
        proof {
            assert forall|i: int| 0 <= i < self.entities@.len() implies entity_covers(
                text@,
                #[trigger] self.entities@[i],
            ) by {
                assert(span_ok(self.out@, self.spans@[i].0, self.spans@[i].1, self.entities@[i]));
            }
        }
        Rendered { text, entities: self.entities }
    }
}

/// A block or inline construct opening, as the CommonMark parser reports it.
#[derive(Debug)]
pub enum MdTag {
    Paragraph,
    Heading,
    BlockQuote,
    /// A code block; fenced blocks carry their info string.
    CodeBlock(Option<String>),
    /// A list; ordered lists carry their first number.
    List(Option<u64>),
    Item,
    Emphasis,
    Strong,
    Strikethrough,
    /// A link to the destination URL.
    Link(String),
    /// An image at the destination URL.
    Image(String),
    /// Anything the renderer does not format (tables, footnote definitions, …).
    Other,
}

/// A construct closing.
#[derive(Debug, Clone, Copy, PartialEq, Eq)]
pub enum MdTagEnd {
    Paragraph,
    Heading,
    BlockQuote,
    CodeBlock,
    List,
    Item,
    Emphasis,
    Strong,
    Strikethrough,
    Link,
    Image,
    Other,
}

/// One CommonMark parse event.
#[derive(Debug)]
pub enum MdEvent {
    Start(MdTag),
    End(MdTagEnd),
    Text(String),
    Code(String),
    InlineMath(String),
    DisplayMath(String),
    Html(String),
    InlineHtml(String),
    FootnoteReference(String),
    SoftBreak,
    HardBreak,
    Rule,
    TaskListMarker(bool),
}

/// `n` copies of two spaces.
pub open spec fn indent(n: nat) -> Seq<char>
    decreases n,
{
    if n == 0 {
        Seq::empty()
    } else {
        indent((n - 1) as nat) + seq![' ', ' ']
    }
}

/// A fenced block's info string names its language; an empty one or an
/// indented block names none.
pub open spec fn code_language(info: Option<String>) -> Option<String> {
    match info {
        Some(l) => if l@.len() > 0 {
            Some(l)
        } else {
            None
        },
        None => None,
    }
}

/// A list item: nested lists indent by two spaces per level, ordered lists
/// number their items, others use `- `.
pub open spec fn m_item(m: RenderModel) -> RenderModel {
    let m1 = m_newline(RenderModel { item_depth: m.item_depth + 1, ..m });
    let pad = if m1.lists.len() > 1 {
        indent((m1.lists.len() - 1) as nat)
    } else {
        Seq::empty()
    };
    let m2 = m_push(m1, pad);
    if m2.lists.len() > 0 && m2.lists.last().ordered {
        let ctx = m2.lists.last();
        let m3 = RenderModel {
            lists: m2.lists.update(
                m2.lists.len() - 1,
                ListCtx { ordered: true, next: ctx.next.wrapping_add(1) },
            ),
            ..m2
        };
        m_push(m3, digits(ctx.next as nat) + seq!['.', ' '])
    } else {
        m_push(m2, seq!['-', ' '])
    }
}

/// What a start tag does.
pub open spec fn m_start(m: RenderModel, tag: MdTag) -> RenderModel {
    match tag {
        MdTag::Paragraph => if m.item_depth == 0 {
            m_blank_line(m)
        } else {
            m
        },
        MdTag::Heading => m_open(m_newline(m), EntityType::Bold, None, None),
        MdTag::BlockQuote => m_open(m_newline(m), EntityType::Blockquote, None, None),
        MdTag::CodeBlock(info) => m_open(m_newline(m), EntityType::Pre, None, code_language(info)),
        MdTag::List(first) => {
            let m1 = m_newline(m);
            RenderModel {
                lists: m1.lists.push(
                    ListCtx {
                        ordered: first is Some,
                        next: match first {
                            Some(n) => n,
                            None => 1,
                        },
                    },
                ),
                ..m1
            }
        },
        MdTag::Item => m_item(m),
        MdTag::Emphasis => m_open(m, EntityType::Italic, None, None),
        MdTag::Strong => m_open(m, EntityType::Bold, None, None),
        MdTag::Strikethrough => m_open(m, EntityType::Strikethrough, None, None),
        MdTag::Link(url) => m_open(m, EntityType::TextLink, Some(url), None),
        MdTag::Image(url) => RenderModel {
            stack: m.stack.push(open_here(m, EntityType::TextLink, Some(url), None, Some(url))),
            ..m
        },
        MdTag::Other => m,
    }
}

/// Tags whose end closes a span.
pub open spec fn closes_span(tag: MdTagEnd) -> bool {
    tag == MdTagEnd::Emphasis || tag == MdTagEnd::Strong || tag == MdTagEnd::Strikethrough || tag
        == MdTagEnd::Link || tag == MdTagEnd::Image || tag == MdTagEnd::Heading || tag
        == MdTagEnd::BlockQuote || tag == MdTagEnd::CodeBlock
}

/// Block-level containers separate what follows.
pub open spec fn ends_block(tag: MdTagEnd) -> bool {
    tag == MdTagEnd::Heading || tag == MdTagEnd::BlockQuote || tag == MdTagEnd::CodeBlock || tag
        == MdTagEnd::Item
}

/// What an end tag does.
pub open spec fn m_end(m: RenderModel, tag: MdTagEnd) -> RenderModel {
    let m1 = if closes_span(tag) {
        m_close(m)
    } else if tag == MdTagEnd::Item {
        RenderModel {
            item_depth: if m.item_depth > 0 {
                (m.item_depth - 1) as nat
            } else {
                0
            },
            ..m
        }
    } else {
        m
    };
    if ends_block(tag) {
        m_newline(m1)
    } else {
        m1
    }
}

/// What one parse event does.
pub open spec fn m_event(m: RenderModel, e: MdEvent) -> RenderModel {
    match e {
        MdEvent::Start(tag) => m_start(m, tag),
        MdEvent::End(tag) => m_end(m, tag),
        MdEvent::Text(t) => m_push(m, t@),
        MdEvent::Code(c) => m_close(m_push(m_open(m, EntityType::Code, None, None), c@)),
        MdEvent::InlineMath(t) => m_push(m, t@),
        MdEvent::DisplayMath(t) => m_push(m, t@),
        MdEvent::Html(t) => m_push(m, t@),
        MdEvent::InlineHtml(t) => m_push(m, t@),
        MdEvent::FootnoteReference(name) => m_push(m, seq!['[', '^'] + name@ + seq![']']),
        MdEvent::SoftBreak => m_push(m, seq!['\n']),
        MdEvent::HardBreak => m_push(m, seq!['\n']),
        MdEvent::Rule => m_push(m_blank_line(m), "———"@),
        MdEvent::TaskListMarker(checked) => m_push(
            m,
            if checked {
                "[x] "@
            } else {
                "[ ] "@
            },
        ),
    }
}

/// The render of a whole event stream, from an empty renderer.
pub open spec fn m_events(events: Seq<MdEvent>) -> RenderModel
    decreases events.len(),
{
    if events.len() == 0 {
        RenderModel {
            out: Seq::empty(),
            entities: Seq::empty(),
            stack: Seq::empty(),
            lists: Seq::empty(),
            item_depth: 0,
        }
    } else {
        m_event(m_events(events.drop_last()), events.last())
    }
}

/// The UTF-16 length of joined text is the sum of the parts' lengths.
proof fn lemma_utf16_len_concat(a: Seq<char>, b: Seq<char>)
    ensures
        utf16_len(a + b) == utf16_len(a) + utf16_len(b),
    decreases b.len(),
{
    if b.len() == 0 {
        assert(a + b =~= a);
    } else {
        lemma_utf16_len_concat(a, b.drop_last());
        assert((a + b).drop_last() =~= a + b.drop_last());
        assert((a + b).last() == b.last());
    }
}

/// What rendering `text` between a start tag and its end tag does after `m`.
pub open spec fn render_span(m: RenderModel, tag: MdTag, end: MdTagEnd, text: String) -> RenderModel {
    m_event(m_event(m_event(m, MdEvent::Start(tag)), MdEvent::Text(text)), MdEvent::End(end))
}

/// `r` is `m` with `text` appended and one entity of `kind` (linking to `url`,
/// if any) covering exactly that text, with nothing left open.
pub open spec fn adds_styled_text(
    m: RenderModel,
    r: RenderModel,
    text: Seq<char>,
    kind: EntityType,
    url: Option<String>,
) -> bool {
    &&& r.out == m.out + text
    &&& r.stack == m.stack
    &&& r.entities == m.entities.push(
        MessageEntity {
            entity_type: kind,
            offset: utf16_len(m.out) as i64,
            length: utf16_len(text) as i64,
            user: None,
            url,
            language: None,
            custom_emoji_id: None,
        },
    )
}

proof fn lemma_plain_span(m: RenderModel, kind: EntityType, url: Option<String>, text: Seq<char>)
    requires
        m.out.len() <= usize::MAX,
        text.len() > 0,
        !is_ws(text[0]),
        !is_ws(text.last()),
    ensures
        adds_styled_text(m, m_close(m_push(m_open(m, kind, url, None), text)), text, kind, url),
{
    let m1 = m_push(m_open(m, kind, url, None), text);
    let out = m.out + text;
    let a = m.out.len() as int;
    assert(m1.out == out);
    assert(m1.stack.last() == open_here(m, kind, url, None, None));
    assert(out[a] == text[0]);
    assert(out[out.len() - 1] == text.last());
    assert(skip_ws_from(out, a, out.len() as int) == a);
    assert(back_ws_to(out, a, out.len() as int) == out.len());
    assert(out.take(a) =~= m.out);
    assert(out.take(out.len() as int) =~= out);
    lemma_utf16_len_concat(m.out, text);
    assert(m1.stack.drop_last() =~= m.stack);
}

/// The kind of an inline span is fixed by its markdown tag: emphasis becomes
/// an italic entity, strong text a bold one, struck-through text a
/// strikethrough one and a link a text link to its destination, each covering
/// exactly the text between the tags, in UTF-16 units from where the text
/// starts, whatever was rendered before.
pub proof fn law_inline_spans_take_their_tags_kind(m: RenderModel, text: String, url: String)
    requires
        m.out.len() <= usize::MAX,
        text@.len() > 0,
        !is_ws(text@[0]),
        !is_ws(text@.last()),
    ensures
        adds_styled_text(
            m,
            render_span(m, MdTag::Emphasis, MdTagEnd::Emphasis, text),
            text@,
            EntityType::Italic,
            None,
        ),
        adds_styled_text(m, render_span(m, MdTag::Strong, MdTagEnd::Strong, text), text@, EntityType::Bold, None),
        adds_styled_text(
            m,
            render_span(m, MdTag::Strikethrough, MdTagEnd::Strikethrough, text),
            text@,
            EntityType::Strikethrough,
            None,
        ),
        adds_styled_text(
            m,
            render_span(m, MdTag::Link(url), MdTagEnd::Link, text),
            text@,
            EntityType::TextLink,
            Some(url),
        ),
{
    lemma_plain_span(m, EntityType::Italic, None, text@);
    lemma_plain_span(m, EntityType::Bold, None, text@);
    lemma_plain_span(m, EntityType::Strikethrough, None, text@);
    lemma_plain_span(m, EntityType::TextLink, Some(url), text@);
}

impl Renderer {
    fn push_seq(&mut self, cs: &[char])
        requires
            old(self).wf(),
        ensures
            final(self).wf(),
            final(self).model() == m_push(old(self).model(), cs@),
    {
        let ghost start = self.model();
        let mut i: usize = 0;
        while i < cs.len()
            invariant
                self.wf(),
                i <= cs@.len(),
                self.model() == m_push(start, cs@.take(i as int)),
            decreases cs@.len() - i,
        {
            self.push_char(cs[i]);
            assert(cs@.take(i + 1) == cs@.take(i as int).push(cs@[i as int]));
            assert(start.out + cs@.take(i as int) + seq![cs@[i as int]] == start.out + cs@.take(i + 1));
            i = i + 1;
        }
        assert(cs@.take(cs@.len() as int) == cs@);
    }

    fn item(&mut self)
        requires
            old(self).wf(),
            old(self).model().item_depth < usize::MAX,
        ensures
            final(self).wf(),
            final(self).model() == m_item(old(self).model()),
    {
        let ghost m0 = self.model();
        self.item_depth = self.item_depth + 1;
        self.newline();
        let ghost m1 = self.model();
        let n = self.lists.len();
        let mut k: usize = 1;
        while k < n
            invariant
                self.wf(),
                1 <= k,
                k <= n || k == 1,
                n == self.lists@.len(),
                self.lists@ == m1.lists,
                self.model() == m_push(m1, indent((k - 1) as nat)),
            decreases n - k,
        {
            let ghost before = self.model();
            self.push_seq(&[' ', ' ']);
            assert(m1.out + indent((k - 1) as nat) + seq![' ', ' '] == m1.out + indent(k as nat));
            k = k + 1;
        }
        let ghost pad = if m1.lists.len() > 1 {
            indent((m1.lists.len() - 1) as nat)
        } else {
            Seq::<char>::empty()
        };
        proof {
            if n <= 1 {
                assert(indent(0) == Seq::<char>::empty());
                assert(indent((k - 1) as nat) == pad);
            }
        }
        let ghost m2 = self.model();
        assert(m2 == m_push(m1, pad));
        let last = self.lists.len();
        if last > 0 && self.lists[last - 1].ordered {
            let ctx = self.lists[last - 1];
            self.lists.set(last - 1, ListCtx { ordered: true, next: ctx.next.wrapping_add(1) });
            let number = u64_to_string(ctx.next);
            let mut marker = to_chars(number.as_str());
            marker.push('.');
            marker.push(' ');
            assert(marker@ == digits(ctx.next as nat) + seq!['.', ' ']);
            assert(ctx == m2.lists.last());
            self.push_seq(marker.as_slice());
        } else {
            self.push_seq(&['-', ' ']);
        }
    }

    /// Handle a start tag.
    pub fn start(&mut self, tag: MdTag)
        requires
            old(self).wf(),
            old(self).model().item_depth < usize::MAX,
        ensures
            final(self).wf(),
            final(self).model() == m_start(old(self).model(), tag),
    {
        match tag {
            MdTag::Paragraph => {
                if self.item_depth == 0 {
                    self.blank_line();
                }
            },
            MdTag::Heading => {
                self.newline();
                self.open(EntityType::Bold, None, None);
            },
            MdTag::BlockQuote => {
                self.newline();
                self.open(EntityType::Blockquote, None, None);
            },
            MdTag::CodeBlock(info) => {
                self.newline();
                let language = match info {
                    Some(l) => if l.as_str().is_empty() {
                        None
                    } else {
                        Some(l)
                    },
                    None => None,
                };
                self.open(EntityType::Pre, None, language);
            },
            MdTag::List(first) => {
                self.newline();
                let next: u64 = match first {
                    Some(n) => n,
                    None => 1,
                };
                self.lists.push(ListCtx { ordered: first.is_some(), next });
            },
            MdTag::Item => self.item(),
            MdTag::Emphasis => self.open(EntityType::Italic, None, None),
            MdTag::Strong => self.open(EntityType::Bold, None, None),
            MdTag::Strikethrough => self.open(EntityType::Strikethrough, None, None),
            MdTag::Link(url) => self.open(EntityType::TextLink, Some(url), None),
            MdTag::Image(url) => {
                let fill = url.clone();
                let mut open = Open::new(EntityType::TextLink, Some(url), self.out.len(), self.len16);
                open.empty_fill = Some(fill);
                self.push_open(open);
            },
            MdTag::Other => {},
        }
    }

    /// Handle an end tag.
    pub fn end(&mut self, tag: MdTagEnd)
        requires
            old(self).wf(),
        ensures
            final(self).wf(),
            final(self).model() == m_end(old(self).model(), tag),
    {
        match tag {
            MdTagEnd::Emphasis | MdTagEnd::Strong | MdTagEnd::Strikethrough | MdTagEnd::Link
            | MdTagEnd::Image | MdTagEnd::Heading | MdTagEnd::BlockQuote | MdTagEnd::CodeBlock => {
                self.close()
            },
            MdTagEnd::Item => {
                if self.item_depth > 0 {
                    self.item_depth = self.item_depth - 1;
                }
            },
            _ => {},
        }
        match tag {
            MdTagEnd::Heading | MdTagEnd::BlockQuote | MdTagEnd::CodeBlock | MdTagEnd::Item => {
                self.newline();
            },
            _ => {},
        }
    }

    /// Handle one parse event.
    pub fn event(&mut self, event: MdEvent)
        requires
            old(self).wf(),
            old(self).model().item_depth < usize::MAX,
        ensures
            final(self).wf(),
            final(self).model() == m_event(old(self).model(), event),
    {
        let ghost e0 = event;
        let ghost m0 = self.model();
        let e = event;
        match e {
            MdEvent::Start(tag) => {
                self.start(tag);
                assert(self.model() == m_event(m0, e0));
            },
            MdEvent::End(tag) => {
                self.end(tag);
                assert(self.model() == m_event(m0, e0));
            },
            MdEvent::Text(text) => {
                self.push(text.as_str());
                assert(self.model() == m_event(m0, e0));
            },
            MdEvent::Code(code) => {
                self.open(EntityType::Code, None, None);
                self.push(code.as_str());
                self.close();
                assert(self.model() == m_event(m0, e0));
            },
            MdEvent::InlineMath(math) => {
                self.push(math.as_str());
                assert(self.model() == m_event(m0, e0));
            },
            MdEvent::DisplayMath(math) => {
                self.push(math.as_str());
                assert(self.model() == m_event(m0, e0));
            },
            MdEvent::Html(html) => {
                self.push(html.as_str());
                assert(self.model() == m_event(m0, e0));
            },
            MdEvent::InlineHtml(html) => {
                self.push(html.as_str());
                assert(self.model() == m_event(m0, e0));
            },
            MdEvent::FootnoteReference(name) => {
                self.push_char('[');
                self.push_char('^');
                self.push(name.as_str());
                self.push_char(']');
                assert(m0.out + seq!['['] + seq!['^'] + name@ + seq![']'] == m0.out + (seq!['[', '^'] + name@ + seq![']']));
                assert(self.model() == m_event(m0, e0));
            },
            MdEvent::SoftBreak => {
                self.push_char('\n');
            },
            MdEvent::HardBreak => {
                self.push_char('\n');
            },
            MdEvent::Rule => {
                self.blank_line();
                self.push("———");
                assert(self.model() == m_event(m0, e0));
            },
            MdEvent::TaskListMarker(checked) => {
                self.push(if checked {
                    "[x] "
                } else {
                    "[ ] "
                });
                assert(self.model() == m_event(m0, e0));
            },
        }
    }
}

/// Render a CommonMark event stream to the text/entity pair Telegram accepts.
/// Every entity covers a non-empty range of the text without whitespace at
/// its edges, with UTF-16 offsets.
pub fn render_events(events: Vec<MdEvent>) -> (r: Rendered)
    ensures
        r.text@ == m_events(events@).out,
        r.entities@ == m_events(events@).entities,
        forall|i: int| 0 <= i < r.entities@.len() ==> entity_covers(r.text@, #[trigger] r.entities@[i]),
{
    let mut renderer = Renderer::new();
    let ghost all = events@;
    let total = events.len();
    let mut seen: usize = 0;
    for event in it: events
        invariant
            renderer.wf(),
            it.seq() == all,
            seen == it.index(),
            renderer.model() == m_events(all.take(it.index() as int)),
            renderer.model().item_depth <= it.index(),
            it.index() <= all.len(),
            all.len() <= usize::MAX,
    {
        proof {
            assert(all.take(it.index() + 1).drop_last() == all.take(it.index() as int));
            assert(all.take(it.index() + 1).last() == event);
        }
        renderer.event(event);
        seen = seen + 1;
    }
    assert(all.take(all.len() as int) == all);
    renderer.finish()
}

/// The events pulldown-cmark reports for `markdown` with strikethrough and
/// task lists enabled, in order.
pub uninterp spec fn markdown_events(markdown: Seq<char>) -> Seq<MdEvent>;

/// A CommonMark parse event as pulldown-cmark reports it, carried opaquely.
#[verifier::external_type_specification]
#[verifier::external_body]
pub struct ExEvent<'a>(Cmark<'a>);

/// A construct opening, as pulldown-cmark reports it, carried opaquely.
#[verifier::external_type_specification]
#[verifier::external_body]
pub struct ExTag<'a>(CmarkTag<'a>);

/// A construct closing, as pulldown-cmark reports it, carried opaquely.
#[verifier::external_type_specification]
#[verifier::external_body]
pub struct ExTagEnd(CmarkEnd);

/// Converts a pulldown-cmark start event's tag variant for variant (fenced code
/// keeps its info string, links and images their destination); nothing is
/// stated, since the tag is opaque here.
#[verifier::external_body]
fn md_start(tag: CmarkTag<'_>) -> MdEvent {
    MdEvent::Start(match tag {
        CmarkTag::Paragraph => MdTag::Paragraph, CmarkTag::Heading { .. } => MdTag::Heading,
        CmarkTag::BlockQuote(_) => MdTag::BlockQuote, CmarkTag::Item => MdTag::Item,
        CmarkTag::CodeBlock(CodeBlockKind::Fenced(i)) => MdTag::CodeBlock(Some(i.to_string())),
        CmarkTag::CodeBlock(_) => MdTag::CodeBlock(None), CmarkTag::List(n) => MdTag::List(n),
        CmarkTag::Emphasis => MdTag::Emphasis, CmarkTag::Strong => MdTag::Strong,
        CmarkTag::Strikethrough => MdTag::Strikethrough, CmarkTag::Link { dest_url: u, .. } => MdTag::Link(u.to_string()),
        CmarkTag::Image { dest_url: u, .. } => MdTag::Image(u.to_string()), _ => MdTag::Other,
    })
}

/// Converts a pulldown-cmark end event's tag variant for variant; nothing is
/// stated, since the tag is opaque here.
#[verifier::external_body]
fn md_end(tag: CmarkEnd) -> MdEvent {
    MdEvent::End(match tag {
        CmarkEnd::Paragraph => MdTagEnd::Paragraph, CmarkEnd::Heading(_) => MdTagEnd::Heading,
        CmarkEnd::BlockQuote(_) => MdTagEnd::BlockQuote, CmarkEnd::CodeBlock => MdTagEnd::CodeBlock,
        CmarkEnd::List(_) => MdTagEnd::List, CmarkEnd::Item => MdTagEnd::Item, CmarkEnd::Emphasis => MdTagEnd::Emphasis,
        CmarkEnd::Strong => MdTagEnd::Strong, CmarkEnd::Strikethrough => MdTagEnd::Strikethrough,
        CmarkEnd::Link => MdTagEnd::Link, CmarkEnd::Image => MdTagEnd::Image, _ => MdTagEnd::Other,
    })
}

/// Converts a pulldown-cmark event variant for variant, moving its text;
/// nothing is stated, since the event is opaque here.
#[verifier::external_body]
fn md_event(e: Cmark<'_>) -> MdEvent {
    match e {
        Cmark::Start(t) => md_start(t), Cmark::End(t) => md_end(t),
        Cmark::Text(s) => MdEvent::Text(s.to_string()), Cmark::Code(s) => MdEvent::Code(s.to_string()),
        Cmark::InlineMath(s) => MdEvent::InlineMath(s.to_string()),
        Cmark::DisplayMath(s) => MdEvent::DisplayMath(s.to_string()),
        Cmark::Html(s) => MdEvent::Html(s.to_string()), Cmark::InlineHtml(s) => MdEvent::InlineHtml(s.to_string()),
        Cmark::FootnoteReference(s) => MdEvent::FootnoteReference(s.to_string()),
        Cmark::SoftBreak => MdEvent::SoftBreak, Cmark::HardBreak => MdEvent::HardBreak, Cmark::Rule => MdEvent::Rule,
        Cmark::TaskListMarker(c) => MdEvent::TaskListMarker(c),
    }
}

/// `pulldown_cmark::Parser::new_ext` over `markdown`, strikethrough and task
/// lists on, each event converted; the contract claims only that the result
/// is `markdown_events` of the text.
#[verifier::external_body]
fn parse_markdown(markdown: &str) -> (r: Vec<MdEvent>)
    ensures
        r@ == markdown_events(markdown@),
{
    Parser::new_ext(markdown, Options::ENABLE_STRIKETHROUGH | Options::ENABLE_TASKLISTS).map(md_event).collect()
}

/// Parse `markdown` and render it to the text/entity pair Telegram accepts:
/// the rendering of pulldown-cmark's events for the text, every entity
/// covering a non-empty range of it without whitespace at its edges.
pub fn render(markdown: &str) -> (r: Rendered)
    ensures
        r.text@ == m_events(markdown_events(markdown@)).out,
        r.entities@ == m_events(markdown_events(markdown@)).entities,
        forall|i: int| 0 <= i < r.entities@.len() ==> entity_covers(r.text@, #[trigger] r.entities@[i]),
{
    render_events(parse_markdown(markdown))
}

} // verus!
