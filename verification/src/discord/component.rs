//! Conversion from the unified components to Discord's wire shape: numeric
//! component and style codes, rows only at the top level.
use crate::common::component::{ActionRow, Button, ButtonStyle, Component, SelectMenu, SelectOption};
use crate::text::{opt_view, slice_string, to_chars, to_owned};
use vstd::prelude::*;

verus! {

/// Discord component type codes.
pub const ACTION_ROW: u8 = 1;
pub const BUTTON: u8 = 2;
pub const STRING_SELECT: u8 = 3;

/// An emoji as Discord takes it: a Unicode emoji by name, or a custom one by
/// name and id.
#[derive(Debug, Clone)]
pub struct DiscordEmoji {
    pub name: String,
    pub id: Option<String>,
}

/// A button in Discord's shape (component type 2).
#[derive(Debug, Clone)]
pub struct DiscordButton {
    pub style: u8,
    pub label: String,
    pub disabled: bool,
    /// Link buttons only.
    pub url: Option<String>,
    /// Every other style.
    pub custom_id: Option<String>,
    pub emoji: Option<DiscordEmoji>,
}

/// A select menu option in Discord's shape.
#[derive(Debug, Clone)]
pub struct DiscordSelectOption {
    pub label: String,
    pub value: String,
    pub default: bool,
    pub description: Option<String>,
    pub emoji: Option<DiscordEmoji>,
}

/// A string select menu in Discord's shape (component type 3).
#[derive(Debug, Clone)]
pub struct DiscordSelect {
    pub custom_id: String,
    pub options: Vec<DiscordSelectOption>,
    pub min_values: u8,
    pub max_values: u8,
    pub disabled: bool,
    pub placeholder: Option<String>,
}

/// A component inside an action row.
#[derive(Debug, Clone)]
pub enum DiscordChild {
    Button(DiscordButton),
    Select(DiscordSelect),
}

/// An action row (component type 1).
#[derive(Debug, Clone)]
pub struct DiscordRow {
    pub components: Vec<DiscordChild>,
}

/// Discord's code for each button style.
pub open spec fn style_number(style: ButtonStyle) -> u8 {
    match style {
        ButtonStyle::Primary => 1,
        ButtonStyle::Secondary => 2,
        ButtonStyle::Success => 3,
        ButtonStyle::Danger => 4,
        ButtonStyle::Link => 5,
    }
}

/// Discord's code for a button style.
pub fn style_code(style: ButtonStyle) -> (r: u8)
    ensures
        r == style_number(style),
{
    match style {
        ButtonStyle::Primary => 1,
        ButtonStyle::Secondary => 2,
        ButtonStyle::Success => 3,
        ButtonStyle::Danger => 4,
        ButtonStyle::Link => 5,
    }
}

/// The index of the last `c` in `s[..hi]`.
pub open spec fn last_index_before(s: Seq<char>, c: char, hi: int) -> Option<int>
    decreases hi,
{
    if hi <= 0 || hi > s.len() {
        None
    } else if s[hi - 1] == c {
        Some(hi - 1)
    } else {
        last_index_before(s, c, hi - 1)
    }
}

/// A custom emoji id: one or more ASCII digits.
pub open spec fn is_emoji_id(s: Seq<char>) -> bool {
    s.len() > 0 && forall|i: int| 0 <= i < s.len() ==> '0' <= #[trigger] s[i] <= '9'
}

/// Custom emoji arrive as `name:id` (split at the last colon, the id all
/// digits); anything else is a Unicode emoji named by the whole text.
pub open spec fn emoji_parts(e: Seq<char>) -> (Seq<char>, Option<Seq<char>>) {
    match last_index_before(e, ':', e.len() as int) {
        Some(k) => if is_emoji_id(e.subrange(k + 1, e.len() as int)) {
            (e.take(k), Some(e.subrange(k + 1, e.len() as int)))
        } else {
            (e, None)
        },
        None => (e, None),
    }
}

/// An emoji by its name and id.
pub open spec fn emoji_view(e: DiscordEmoji) -> (Seq<char>, Option<Seq<char>>) {
    (e.name@, opt_view(e.id))
}

proof fn lemma_last_index(s: Seq<char>, c: char, hi: int)
    requires
        0 <= hi <= s.len(),
    ensures
        match last_index_before(s, c, hi) {
            Some(k) => 0 <= k < hi && s[k] == c,
            None => forall|j: int| 0 <= j < hi ==> s[j] != c,
        },
    decreases hi,
{
    if hi > 0 && s[hi - 1] != c {
        lemma_last_index(s, c, hi - 1);
    }
}

/// The Discord emoji for an emoji string.
pub fn emoji_json(emoji: &str) -> (r: DiscordEmoji)
    ensures
        emoji_view(r) == emoji_parts(emoji@),
{
    let cs = to_chars(emoji);
    let n = cs.len();
    let mut k: usize = n;
    while k > 0 && cs[k - 1] != ':'
        invariant
            k <= n,
            n == cs@.len(),
            cs@ == emoji@,
            last_index_before(cs@, ':', n as int) == last_index_before(cs@, ':', k as int),
        decreases k,
    {
        k = k - 1;
    }
    if k == 0 {
        return DiscordEmoji { name: to_owned(emoji), id: None };
    }
    let colon = k - 1;
    let mut j: usize = k;
    while j < n && '0' <= cs[j] && cs[j] <= '9'
        invariant
            k <= j <= n,
            n == cs@.len(),
            forall|i: int| k <= i < j ==> '0' <= #[trigger] cs@[i] <= '9',
        decreases n - j,
    {
        j = j + 1;
    }
    let ghost id = cs@.subrange(k as int, n as int);
    if j == n && k < n {
        assert forall|i: int| 0 <= i < id.len() implies '0' <= #[trigger] id[i] <= '9' by {
            assert(id[i] == cs@[k + i]);
        }
        let name = slice_string(cs.as_slice(), 0, colon);
        let digits = slice_string(cs.as_slice(), k, n);
        DiscordEmoji { name, id: Some(digits) }
    } else {
        proof {
            if j < n {
                assert(id[j - k] == cs@[j as int]);
            }
        }
        DiscordEmoji { name: to_owned(emoji), id: None }
    }
}

fn emoji_opt(e: &Option<String>) -> (r: Option<DiscordEmoji>)
    ensures
        match (r, opt_view(*e)) {
            (Some(d), Some(s)) => emoji_view(d) == emoji_parts(s),
            (None, None) => true,
            _ => false,
        },
{
    match e {
        Some(s) => Some(emoji_json(s.as_str())),
        None => None,
    }
}

/// A Discord button by its parts.
pub type ButtonView = (u8, Seq<char>, bool, Option<Seq<char>>, Option<Seq<char>>, Option<(Seq<char>, Option<Seq<char>>)>);

/// A Discord button, viewed.
pub open spec fn button_view(b: DiscordButton) -> ButtonView {
    (
        b.style,
        b.label@,
        b.disabled,
        opt_view(b.url),
        opt_view(b.custom_id),
        match b.emoji {
            Some(e) => Some(emoji_view(e)),
            None => None,
        },
    )
}

/// What a button becomes: its style code, label and state; a link button
/// carries its URL, every other style its custom id.
pub open spec fn button_shape(b: Button) -> ButtonView {
    (
        style_number(b.style),
        b.label@,
        b.disabled,
        if b.style == ButtonStyle::Link {
            opt_view(b.url)
        } else {
            None
        },
        if b.style == ButtonStyle::Link {
            None
        } else {
            opt_view(b.custom_id)
        },
        match opt_view(b.emoji) {
            Some(e) => Some(emoji_parts(e)),
            None => None,
        },
    )
}

fn clone_opt(s: &Option<String>) -> (r: Option<String>)
    ensures
        opt_view(r) == opt_view(*s),
{
    match s {
        Some(v) => Some(v.clone()),
        None => None,
    }
}

/// The Discord shape of a button.
pub fn button_json(button: &Button) -> (r: DiscordButton)
    ensures
        button_view(r) == button_shape(*button),
        r.label@ == button.label@,
        r.disabled == button.disabled,
{
    let is_link = match button.style {
        ButtonStyle::Link => true,
        _ => false,
    };
    DiscordButton {
        style: style_code(button.style),
        label: button.label.clone(),
        disabled: button.disabled,
        url: if is_link {
            clone_opt(&button.url)
        } else {
            None
        },
        custom_id: if is_link {
            None
        } else {
            clone_opt(&button.custom_id)
        },
        emoji: emoji_opt(&button.emoji),
    }
}

/// A select option, viewed.
pub type OptionView = (Seq<char>, Seq<char>, bool, Option<Seq<char>>, Option<(Seq<char>, Option<Seq<char>>)>);

pub open spec fn select_option_view(o: DiscordSelectOption) -> OptionView {
    (o.label@, o.value@, o.default, opt_view(o.description), match o.emoji {
        Some(e) => Some(emoji_view(e)),
        None => None,
    })
}

pub open spec fn option_shape(o: SelectOption) -> OptionView {
    (o.label@, o.value@, o.default, opt_view(o.description), match opt_view(o.emoji) {
        Some(e) => Some(emoji_parts(e)),
        None => None,
    })
}

/// A select menu, viewed.
pub type SelectView = (Seq<char>, Seq<OptionView>, u8, u8, bool, Option<Seq<char>>);

pub open spec fn select_view(s: DiscordSelect) -> SelectView {
    (
        s.custom_id@,
        s.options@.map_values(|o: DiscordSelectOption| select_option_view(o)),
        s.min_values,
        s.max_values,
        s.disabled,
        opt_view(s.placeholder),
    )
}

pub open spec fn select_shape(m: SelectMenu) -> SelectView {
    (
        m.custom_id@,
        m.options@.map_values(|o: SelectOption| option_shape(o)),
        m.min_values,
        m.max_values,
        m.disabled,
        opt_view(m.placeholder),
    )
}

/// The Discord shape of a select menu.
pub fn select_json(menu: &SelectMenu) -> (r: DiscordSelect)
    ensures
        select_view(r) == select_shape(*menu),
{
    let mut options: Vec<DiscordSelectOption> = Vec::new();
    let mut i: usize = 0;
    while i < menu.options.len()
        invariant
            i <= menu.options@.len(),
            options@.len() == i,
            forall|k: int| 0 <= k < i ==> select_option_view(#[trigger] options@[k]) == option_shape(menu.options@[k]),
        decreases menu.options@.len() - i,
    {
        let o = &menu.options[i];
        options.push(
            DiscordSelectOption {
                label: o.label.clone(),
                value: o.value.clone(),
                default: o.default,
                description: clone_opt(&o.description),
                emoji: emoji_opt(&o.emoji),
            },
        );
        i = i + 1;
    }
    let r = DiscordSelect {
        custom_id: menu.custom_id.clone(),
        options,
        min_values: menu.min_values,
        max_values: menu.max_values,
        disabled: menu.disabled,
        placeholder: clone_opt(&menu.placeholder),
    };
    assert(select_view(r).1 =~= select_shape(*menu).1);
    r
}

/// A row child, viewed.
pub enum ChildView {
    Button(ButtonView),
    Select(SelectView),
}

pub open spec fn child_view(c: DiscordChild) -> ChildView {
    match c {
        DiscordChild::Button(b) => ChildView::Button(button_view(b)),
        DiscordChild::Select(s) => ChildView::Select(select_view(s)),
    }
}

/// Rows, viewed.
pub open spec fn rows_view(rows: Seq<DiscordRow>) -> Seq<Seq<ChildView>> {
    rows.map_values(|r: DiscordRow| r.components@.map_values(|c: DiscordChild| child_view(c)))
}

/// The children of an action row: buttons and selects; nested rows are
/// dropped, since Discord does not allow them.
pub open spec fn row_children(cs: Seq<Component>) -> Seq<ChildView>
    decreases cs.len(),
{
    if cs.len() == 0 {
        Seq::empty()
    } else {
        let rest = row_children(cs.drop_last());
        match cs.last() {
            Component::Button(b) => rest.push(ChildView::Button(button_shape(b))),
            Component::SelectMenu(m) => rest.push(ChildView::Select(select_shape(m))),
            Component::ActionRow(_) => rest,
        }
    }
}

/// Close the pending row of loose buttons, if any.
pub open spec fn flush_loose(rows: Seq<Seq<ChildView>>, loose: Seq<ChildView>) -> Seq<Seq<ChildView>> {
    if loose.len() > 0 {
        rows.push(loose)
    } else {
        rows
    }
}

/// The rows so far and the pending loose buttons.
pub open spec fn rows_fold(cs: Seq<Component>) -> (Seq<Seq<ChildView>>, Seq<ChildView>)
    decreases cs.len(),
{
    if cs.len() == 0 {
        (Seq::empty(), Seq::empty())
    } else {
        let (rows, loose) = rows_fold(cs.drop_last());
        match cs.last() {
            Component::ActionRow(row) => {
                let rows1 = flush_loose(rows, loose);
                let children = row_children(row.components@);
                (if children.len() > 0 {
                    rows1.push(children)
                } else {
                    rows1
                }, Seq::empty())
            },
            Component::Button(b) => (rows, loose.push(ChildView::Button(button_shape(b)))),
            Component::SelectMenu(m) => (
                flush_loose(rows, loose).push(seq![ChildView::Select(select_shape(m))]),
                Seq::empty(),
            ),
        }
    }
}

/// Discord's rows for a list of components: action rows keep their
/// children (empty ones are dropped), consecutive loose buttons share one
/// row, and a select menu gets a row of its own.
pub open spec fn discord_rows(cs: Seq<Component>) -> Seq<Seq<ChildView>> {
    flush_loose(rows_fold(cs).0, rows_fold(cs).1)
}

fn row_to_children(cs: &[Component]) -> (r: Vec<DiscordChild>)
    ensures
        r@.map_values(|c: DiscordChild| child_view(c)) == row_children(cs@),
{
    let mut out: Vec<DiscordChild> = Vec::new();
    let mut i: usize = 0;
    while i < cs.len()
        invariant
            i <= cs@.len(),
            out@.map_values(|c: DiscordChild| child_view(c)) == row_children(cs@.take(i as int)),
        decreases cs@.len() - i,
    {
        let ghost before = out@;
        assert(cs@.take(i + 1).drop_last() == cs@.take(i as int));
        match &cs[i] {
            Component::Button(b) => {
                let c = DiscordChild::Button(button_json(b));
                out.push(c);
                assert(out@.map_values(|c: DiscordChild| child_view(c)) == before.map_values(
                    |c: DiscordChild| child_view(c),
                ).push(child_view(c)));
            },
            Component::SelectMenu(m) => {
                let c = DiscordChild::Select(select_json(m));
                out.push(c);
                assert(out@.map_values(|c: DiscordChild| child_view(c)) == before.map_values(
                    |c: DiscordChild| child_view(c),
                ).push(child_view(c)));
            },
            Component::ActionRow(_) => {},
        }
        i = i + 1;
    }
    assert(cs@.take(cs@.len() as int) == cs@);
    out
}

fn flush(loose: &mut Vec<DiscordChild>, rows: &mut Vec<DiscordRow>)
    ensures
        final(loose)@.len() == 0,
        rows_view(final(rows)@) == flush_loose(
            rows_view(old(rows)@),
            old(loose)@.map_values(|c: DiscordChild| child_view(c)),
        ),
{
    if loose.len() > 0 {
        let mut taken: Vec<DiscordChild> = Vec::new();
        std::mem::swap(&mut taken, loose);
        let ghost before = rows@;
        rows.push(DiscordRow { components: taken });
        assert(rows_view(rows@) == rows_view(before).push(taken@.map_values(|c: DiscordChild| child_view(c))));
    }
}

/// Render components for a Discord message payload. Bare buttons are wrapped
/// in an action row, which Discord requires: a message's top-level
/// components may only contain rows.
pub fn to_discord(components: &[Component]) -> (r: Vec<DiscordRow>)
    ensures
        rows_view(r@) == discord_rows(components@),
{
    let mut rows: Vec<DiscordRow> = Vec::new();
    let mut loose: Vec<DiscordChild> = Vec::new();
    let mut i: usize = 0;
    while i < components.len()
        invariant
            i <= components@.len(),
            (rows_view(rows@), loose@.map_values(|c: DiscordChild| child_view(c))) == rows_fold(
                components@.take(i as int),
            ),
        decreases components@.len() - i,
    {
        assert(components@.take(i + 1).drop_last() == components@.take(i as int));
        match &components[i] {
            Component::ActionRow(row) => {
                flush(&mut loose, &mut rows);
                let children = row_to_children(row.components.as_slice());
                if children.len() > 0 {
                    let ghost before = rows@;
                    rows.push(DiscordRow { components: children });
                    assert(rows_view(rows@) == rows_view(before).push(
                        children@.map_values(|c: DiscordChild| child_view(c)),
                    ));
                }
                assert(loose@.map_values(|c: DiscordChild| child_view(c)) =~= Seq::<ChildView>::empty());
            },
            Component::Button(button) => {
                let ghost before = loose@;
                let c = DiscordChild::Button(button_json(button));
                loose.push(c);
                assert(loose@.map_values(|c: DiscordChild| child_view(c)) == before.map_values(
                    |c: DiscordChild| child_view(c),
                ).push(child_view(c)));
            },
            Component::SelectMenu(menu) => {
                flush(&mut loose, &mut rows);
                let mut only: Vec<DiscordChild> = Vec::new();
                let c = DiscordChild::Select(select_json(menu));
                only.push(c);
                let ghost before = rows@;
                rows.push(DiscordRow { components: only });
                assert(only@.map_values(|c: DiscordChild| child_view(c)) == seq![child_view(c)]);
                assert(rows_view(rows@) == rows_view(before).push(seq![child_view(c)]));
                assert(loose@.map_values(|c: DiscordChild| child_view(c)) =~= Seq::<ChildView>::empty());
            },
        }
        i = i + 1;
    }
    assert(components@.take(components@.len() as int) == components@);
    flush(&mut loose, &mut rows);
    rows
}

/// The Discord button `v` says what component button `b` says: the same
/// label, the same enabled or disabled state, the code of its style, and its
/// URL (link buttons) or custom id (all others).
pub open spec fn carries_button(v: ButtonView, b: Button) -> bool {
    &&& v.0 == style_number(b.style)
    &&& v.1 == b.label@
    &&& v.2 == b.disabled
    &&& b.style == ButtonStyle::Link ==> v.3 == opt_view(b.url) && v.4 is None
    &&& b.style != ButtonStyle::Link ==> v.4 == opt_view(b.custom_id) && v.3 is None
}

/// A button reaches Discord as it was built, whether it stands alone or in an
/// action row: one row holding one button that carries the component's
/// label, style, target and, in particular, its disabled flag, so a disabled
/// button is never sent as clickable.
pub proof fn law_buttons_reach_discord_as_built(b: Button, row: ActionRow)
    requires
        row.components@ == seq![Component::Button(b)],
    ensures
        discord_rows(seq![Component::Button(b)]).len() == 1,
        discord_rows(seq![Component::Button(b)])[0].len() == 1,
        discord_rows(seq![Component::Button(b)])[0][0] matches ChildView::Button(v) && carries_button(v, b),
        discord_rows(seq![Component::ActionRow(row)]).len() == 1,
        discord_rows(seq![Component::ActionRow(row)])[0].len() == 1,
        discord_rows(seq![Component::ActionRow(row)])[0][0] matches ChildView::Button(v) && carries_button(
            v,
            b,
        ),
{
    let one = seq![Component::Button(b)];
    assert(one.drop_last() =~= Seq::<Component>::empty());
    assert(rows_fold(Seq::<Component>::empty()) == (Seq::<Seq<ChildView>>::empty(), Seq::<ChildView>::empty()));
    assert(row_children(Seq::<Component>::empty()) == Seq::<ChildView>::empty());
    assert(row_children(one) =~= seq![ChildView::Button(button_shape(b))]);
    let r = seq![Component::ActionRow(row)];
    assert(r.drop_last() =~= Seq::<Component>::empty());
    assert(rows_fold(one).1 =~= seq![ChildView::Button(button_shape(b))]);
    assert(rows_fold(r).0 =~= seq![seq![ChildView::Button(button_shape(b))]]);
}

} // verus!
