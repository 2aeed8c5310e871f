//! The HTML a Matrix message carries for what plain text cannot say: embeds
//! as block quotes, link buttons as a list, everything escaped.
use crate::common::component::Component;
use crate::common::embed::{Embed, EmbedField};
use crate::text::{opt_view, push_char, push_str, to_chars};
use vstd::prelude::*;

verus! {

/// Characters HTML gives meaning to.
pub open spec fn is_html_meta(c: char) -> bool {
    c == '&' || c == '<' || c == '>' || c == '"' || c == '\''
}

/// One character as HTML text.
pub open spec fn escape_char(c: char) -> Seq<char> {
    if c == '&' {
        seq!['&', 'a', 'm', 'p', ';']
    } else if c == '<' {
        seq!['&', 'l', 't', ';']
    } else if c == '>' {
        seq!['&', 'g', 't', ';']
    } else if c == '"' {
        seq!['&', 'q', 'u', 'o', 't', ';']
    } else if c == '\'' {
        seq!['&', '#', '3', '9', ';']
    } else {
        seq![c]
    }
}

/// A text as HTML text: metacharacters become entities.
pub open spec fn escape_html(s: Seq<char>) -> Seq<char>
    decreases s.len(),
{
    if s.len() == 0 {
        Seq::empty()
    } else {
        escape_html(s.drop_last()) + escape_char(s.last())
    }
}

/// Append `s` to `out` with HTML metacharacters escaped, in a single pass.
pub fn escape_html_into(out: &mut String, s: &str)
    ensures
        final(out)@ == old(out)@ + escape_html(s@),
{
    let cs = to_chars(s);
    let ghost start = out@;
    let mut i: usize = 0;
    while i < cs.len()
        invariant
            i <= cs@.len(),
            cs@ == s@,
            out@ == start + escape_html(cs@.take(i as int)),
        decreases cs@.len() - i,
    {
        let ch = cs[i];
        let ghost before = out@;
        assert(cs@.take(i + 1).drop_last() == cs@.take(i as int));
        if ch == '&' {
            push_char(out, '&');
            push_char(out, 'a');
            push_char(out, 'm');
            push_char(out, 'p');
            push_char(out, ';');
        } else if ch == '<' {
            push_char(out, '&');
            push_char(out, 'l');
            push_char(out, 't');
            push_char(out, ';');
        } else if ch == '>' {
            push_char(out, '&');
            push_char(out, 'g');
            push_char(out, 't');
            push_char(out, ';');
        } else if ch == '"' {
            push_char(out, '&');
            push_char(out, 'q');
            push_char(out, 'u');
            push_char(out, 'o');
            push_char(out, 't');
            push_char(out, ';');
        } else if ch == '\'' {
            push_char(out, '&');
            push_char(out, '#');
            push_char(out, '3');
            push_char(out, '9');
            push_char(out, ';');
        } else {
            push_char(out, ch);
        }
        assert(out@ == before + escape_char(ch));
        i = i + 1;
    }
    assert(cs@.take(cs@.len() as int) == cs@);
}

/// Escaped text holds no `<`, `>`, `"` or `'`: user text can never open or
/// close a tag or an attribute.
pub proof fn law_escaped_text_has_no_markup(s: Seq<char>)
    ensures
        forall|i: int|
            0 <= i < escape_html(s).len() ==> {
                let c = #[trigger] escape_html(s)[i];
                c != '<' && c != '>' && c != '"' && c != '\''
            },
    decreases s.len(),
{
    if s.len() > 0 {
        law_escaped_text_has_no_markup(s.drop_last());
        let p = escape_html(s.drop_last());
        let e = escape_char(s.last());
        assert forall|i: int| 0 <= i < escape_html(s).len() implies {
            let c = #[trigger] escape_html(s)[i];
            c != '<' && c != '>' && c != '"' && c != '\''
        } by {
            if i >= p.len() {
                assert(escape_html(s)[i] == e[i - p.len()]);
            } else {
                assert(escape_html(s)[i] == p[i]);
            }
        }
    }
}

/// Text without metacharacters passes through unchanged.
pub proof fn law_plain_text_is_unchanged(s: Seq<char>)
    requires
        forall|i: int| 0 <= i < s.len() ==> !is_html_meta(#[trigger] s[i]),
    ensures
        escape_html(s) == s,
    decreases s.len(),
{
    if s.len() > 0 {
        assert(!is_html_meta(s[s.len() - 1]));
        law_plain_text_is_unchanged(s.drop_last());
        assert(s.drop_last().push(s.last()) == s);
    }
}

/// The link buttons of a component tree, as (label, URL), in order; nested
/// rows are searched, everything else has no Matrix equivalent.
pub open spec fn links_of(cs: Seq<Component>) -> Seq<(Seq<char>, Seq<char>)>
    decreases cs,
{
    if cs.len() == 0 {
        Seq::empty()
    } else {
        let last = cs[cs.len() - 1];
        let rest = links_of(cs.subrange(0, cs.len() - 1));
        match last {
            Component::ActionRow(row) => rest + links_of(row.components@),
            Component::Button(b) => match b.url {
                Some(u) => rest.push((b.label@, u@)),
                None => rest,
            },
            Component::SelectMenu(_) => rest,
        }
    }
}

/// Links, by their views.
pub open spec fn links_view(v: Seq<(&str, &str)>) -> Seq<(Seq<char>, Seq<char>)> {
    v.map_values(|p: (&str, &str)| (p.0@, p.1@))
}

fn collect<'a>(components: &'a [Component], out: &mut Vec<(&'a str, &'a str)>)
    ensures
        links_view(final(out)@) == links_view(old(out)@) + links_of(components@),
    decreases components@,
{
    let ghost start = links_view(out@);
    let mut i: usize = 0;
    while i < components.len()
        invariant
            i <= components@.len(),
            links_view(out@) == start + links_of(components@.subrange(0, i as int)),
        decreases components@.len() - i,
    {
        let ghost before = links_view(out@);
        let ghost pre = components@.subrange(0, i as int);
        assert(components@.subrange(0, i + 1).subrange(0, i as int) == pre);
        match &components[i] {
            Component::ActionRow(row) => {
                proof {
                    assert(decreases_to!(components@ => components@[i as int]));
                }
                collect(row.components.as_slice(), out);
                assert(links_view(out@) == start + (links_of(pre) + links_of(row.components@)));
            },
            Component::Button(button) => {
                match &button.url {
                    Some(url) => {
                        out.push((button.label.as_str(), url.as_str()));
                        assert(links_view(out@) == before.push((button.label@, url@)));
                    },
                    None => {},
                }
            },
            Component::SelectMenu(_) => {},
        }
        i = i + 1;
    }
    assert(components@.subrange(0, components@.len() as int) == components@);
}

/// Collect the link buttons out of a component tree; the rest have no Matrix
/// equivalent and are dropped.
pub fn component_links(components: &[Component]) -> (r: Vec<(&str, &str)>)
    ensures
        links_view(r@) == links_of(components@),
{
    let mut links: Vec<(&str, &str)> = Vec::new();
    collect(components, &mut links);
    assert(links_view(Seq::<(&str, &str)>::empty()) + links_of(components@) == links_of(components@));
    links
}

/// One embed field: the name in italics, then the value.
pub open spec fn field_html(f: EmbedField) -> Seq<char> {
    "<em>"@ + escape_html(f.name@) + ":</em> "@ + escape_html(f.value@) + "<br/>"@
}

/// Embed fields in order.
pub open spec fn fields_html(fs: Seq<EmbedField>) -> Seq<char>
    decreases fs.len(),
{
    if fs.len() == 0 {
        Seq::empty()
    } else {
        fields_html(fs.drop_last()) + field_html(fs.last())
    }
}

/// An embed's title line, if it has a title.
pub open spec fn title_html(e: Embed) -> Seq<char> {
    match opt_view(e.title) {
        Some(t) => "<strong>"@ + escape_html(t) + "</strong><br/>"@,
        None => Seq::empty(),
    }
}

/// An embed's description line, if it has one.
pub open spec fn description_html(e: Embed) -> Seq<char> {
    match opt_view(e.description) {
        Some(d) => escape_html(d) + "<br/>"@,
        None => Seq::empty(),
    }
}

/// An embed's footer, if it has one.
pub open spec fn footer_html(e: Embed) -> Seq<char> {
    match e.footer {
        Some(f) => "<small>"@ + escape_html(f.text@) + "</small>"@,
        None => Seq::empty(),
    }
}

/// An embed as a block quote: bold title, description, fields, small footer.
pub open spec fn embed_html(e: Embed) -> Seq<char> {
    "<blockquote>"@ + title_html(e) + description_html(e) + fields_html(e.fields@) + footer_html(e)
        + "</blockquote>"@
}

/// Embeds in order.
pub open spec fn embeds_html(es: Seq<Embed>) -> Seq<char>
    decreases es.len(),
{
    if es.len() == 0 {
        Seq::empty()
    } else {
        embeds_html(es.drop_last()) + embed_html(es.last())
    }
}

/// Embeds render one after another: the HTML of two lists of embeds, one
/// after the other, is the HTML of the first followed by that of the second,
/// so appending an embed appends its block quote and none is ever dropped.
pub proof fn law_embeds_render_in_order(a: Seq<Embed>, b: Seq<Embed>)
    ensures
        embeds_html(a + b) == embeds_html(a) + embeds_html(b),
    decreases b.len(),
{
    if b.len() == 0 {
        assert(a + b =~= a);
    } else {
        law_embeds_render_in_order(a, b.drop_last());
        assert((a + b).drop_last() =~= a + b.drop_last());
        assert((a + b).last() == b.last());
    }
}

/// Each embed is one block quote: a single embed renders as its own
/// `<blockquote>` … `</blockquote>`, and appending an embed to a list adds
/// exactly that block quote after the others.
pub proof fn law_each_embed_is_one_blockquote(es: Seq<Embed>, e: Embed)
    ensures
        embeds_html(seq![e]) == embed_html(e),
        embed_html(e).take(12) == "<blockquote>"@,
        embed_html(e).skip(embed_html(e).len() - 13) == "</blockquote>"@,
        embeds_html(es.push(e)) == embeds_html(es) + embed_html(e),
{
    reveal_strlit("<blockquote>");
    reveal_strlit("</blockquote>");
    assert(seq![e].drop_last() =~= Seq::<Embed>::empty());
    assert(embeds_html(Seq::<Embed>::empty()) == Seq::<char>::empty());
    assert(Seq::<char>::empty() + embed_html(e) =~= embed_html(e));
    let h = embed_html(e);
    let inner = title_html(e) + description_html(e) + fields_html(e.fields@) + footer_html(e);
    assert(h =~= "<blockquote>"@ + inner + "</blockquote>"@);
    assert(h.take(12) =~= "<blockquote>"@);
    assert(h.skip(h.len() - 13) =~= "</blockquote>"@);
    assert(es.push(e).drop_last() =~= es);
}

/// One link as a list item.
pub open spec fn link_html(l: (Seq<char>, Seq<char>)) -> Seq<char> {
    "<li><a href=\""@ + escape_html(l.1) + "\">"@ + escape_html(l.0) + "</a></li>"@
}

/// Links in order.
pub open spec fn links_html(ls: Seq<(Seq<char>, Seq<char>)>) -> Seq<char>
    decreases ls.len(),
{
    if ls.len() == 0 {
        Seq::empty()
    } else {
        links_html(ls.drop_last()) + link_html(ls.last())
    }
}

/// The HTML for a response: `None` when plain text says everything (no
/// embeds, no link buttons); else the text as a paragraph (when there is
/// any), each embed as a block quote, and the links as a list.
pub open spec fn response_html(text: Seq<char>, embeds: Seq<Embed>, components: Seq<Component>) -> Option<Seq<char>> {
    let links = links_of(components);
    if embeds.len() == 0 && links.len() == 0 {
        None
    } else {
        Some(
            (if text.len() > 0 {
                "<p>"@ + escape_html(text) + "</p>"@
            } else {
                Seq::empty()
            }) + embeds_html(embeds) + (if links.len() > 0 {
                "<ul>"@ + links_html(links) + "</ul>"@
            } else {
                Seq::empty()
            }),
        )
    }
}

fn push_title(html: &mut String, embed: &Embed)
    ensures
        final(html)@ == old(html)@ + title_html(*embed),
{
    match &embed.title {
        Some(title) => {
            let ghost start = html@;
            push_str(html, "<strong>");
            escape_html_into(html, title.as_str());
            push_str(html, "</strong><br/>");
            assert(html@ == start + ("<strong>"@ + escape_html(title@) + "</strong><br/>"@));
        },
        None => {
            assert(html@ + Seq::<char>::empty() == html@);
        },
    }
}

fn push_description(html: &mut String, embed: &Embed)
    ensures
        final(html)@ == old(html)@ + description_html(*embed),
{
    match &embed.description {
        Some(description) => {
            let ghost start = html@;
            escape_html_into(html, description.as_str());
            push_str(html, "<br/>");
            assert(html@ == start + (escape_html(description@) + "<br/>"@));
        },
        None => {
            assert(html@ + Seq::<char>::empty() == html@);
        },
    }
}

fn push_footer(html: &mut String, embed: &Embed)
    ensures
        final(html)@ == old(html)@ + footer_html(*embed),
{
    match &embed.footer {
        Some(footer) => {
            let ghost start = html@;
            push_str(html, "<small>");
            escape_html_into(html, footer.text.as_str());
            push_str(html, "</small>");
            assert(html@ == start + ("<small>"@ + escape_html(footer.text@) + "</small>"@));
        },
        None => {
            assert(html@ + Seq::<char>::empty() == html@);
        },
    }
}

fn push_field(html: &mut String, field: &EmbedField)
    ensures
        final(html)@ == old(html)@ + field_html(*field),
{
    let ghost start = html@;
    push_str(html, "<em>");
    escape_html_into(html, field.name.as_str());
    push_str(html, ":</em> ");
    escape_html_into(html, field.value.as_str());
    push_str(html, "<br/>");
    assert(html@ == start + field_html(*field));
}

fn push_fields(html: &mut String, fields: &[EmbedField])
    ensures
        final(html)@ == old(html)@ + fields_html(fields@),
{
    let ghost c = html@;
    let mut i: usize = 0;
    while i < fields.len()
        invariant
            i <= fields@.len(),
            html@ == c + fields_html(fields@.take(i as int)),
        decreases fields@.len() - i,
    {
        assert(fields@.take(i + 1).drop_last() == fields@.take(i as int));
        push_field(html, &fields[i]);
        i = i + 1;
    }
    assert(fields@.take(fields@.len() as int) == fields@);
}

fn push_embed(html: &mut String, embed: &Embed)
    ensures
        final(html)@ == old(html)@ + embed_html(*embed),
{
    let ghost start = html@;
    push_str(html, "<blockquote>");
    push_title(html, embed);
    push_description(html, embed);
    push_fields(html, embed.fields.as_slice());
    push_footer(html, embed);
    push_str(html, "</blockquote>");
    assert(html@ == start + embed_html(*embed));
}

/// Render the parts of a response Matrix can only express as formatted text.
///
/// Returns `None` when plain text says everything the response carries.
pub fn render_html(text: &str, embeds: &[Embed], components: &[Component]) -> (r: Option<String>)
    ensures
        opt_view(r) == response_html(text@, embeds@, components@),
{
    let links = component_links(components);
    if embeds.len() == 0 && links.len() == 0 {
        return None;
    }
    let mut html = String::new();
    let ghost start = html@;
    if !text.is_empty() {
        push_str(&mut html, "<p>");
        escape_html_into(&mut html, text);
        push_str(&mut html, "</p>");
    }
    let ghost p = html@;
    let mut i: usize = 0;
    while i < embeds.len()
        invariant
            i <= embeds@.len(),
            html@ == p + embeds_html(embeds@.take(i as int)),
        decreases embeds@.len() - i,
    {
        assert(embeds@.take(i + 1).drop_last() == embeds@.take(i as int));
        push_embed(&mut html, &embeds[i]);
        i = i + 1;
    }
    assert(embeds@.take(embeds@.len() as int) == embeds@);
    let ghost q = html@;
    if links.len() > 0 {
        push_str(&mut html, "<ul>");
        let ghost u = html@;
        let mut k: usize = 0;
        while k < links.len()
            invariant
                k <= links@.len(),
                html@ == u + links_html(links_view(links@).take(k as int)),
            decreases links@.len() - k,
        {
            let (label, url) = links[k];
            let ghost before = html@;
            assert(links_view(links@).take(k + 1).drop_last() == links_view(links@).take(k as int));
            push_str(&mut html, "<li><a href=\"");
            escape_html_into(&mut html, url);
            push_str(&mut html, "\">");
            escape_html_into(&mut html, label);
            push_str(&mut html, "</a></li>");
            assert(html@ == before + link_html((label@, url@)));
            k = k + 1;
        }
        assert(links_view(links@).take(links@.len() as int) == links_view(links@));
        push_str(&mut html, "</ul>");
    }
    Some(html)
}

} // verus!
