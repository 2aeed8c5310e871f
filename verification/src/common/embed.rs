//! Rich embeds attached to messages.
use vstd::prelude::*;

use crate::text::{opt_view, to_owned};

verus! {

/// Rich embed for messages
#[derive(Debug, Clone)]
pub struct Embed {
    /// Title of the embed
    pub title: Option<String>,
    /// Description text
    pub description: Option<String>,
    /// URL for the title
    pub url: Option<String>,
    /// Color of the embed sidebar (as integer)
    pub color: Option<u32>,
    /// Embed fields
    pub fields: Vec<EmbedField>,
    /// Footer information
    pub footer: Option<EmbedFooter>,
    /// Image to display
    pub image: Option<EmbedImage>,
    /// Thumbnail image
    pub thumbnail: Option<EmbedImage>,
    /// Author information
    pub author: Option<EmbedAuthor>,
    /// Timestamp (ISO 8601)
    pub timestamp: Option<String>,
}

/// An embed with nothing set.
pub open spec fn is_blank_embed(e: Embed) -> bool {
    &&& e.title is None
    &&& e.description is None
    &&& e.url is None
    &&& e.color is None
    &&& e.fields@.len() == 0
    &&& e.footer is None
    &&& e.image is None
    &&& e.thumbnail is None
    &&& e.author is None
    &&& e.timestamp is None
}

impl Default for Embed {
    fn default() -> (r: Self)
        ensures
            is_blank_embed(r),
    {
        Embed {
            title: None,
            description: None,
            url: None,
            color: None,
            fields: Vec::new(),
            footer: None,
            image: None,
            thumbnail: None,
            author: None,
            timestamp: None,
        }
    }
}

impl Embed {
    /// Create a new empty embed
    pub fn new() -> (r: Self)
        ensures
            is_blank_embed(r),
    {
        Self::default()
    }

    /// Set the title
    pub fn title(self, title: &str) -> (r: Self)
        ensures
            opt_view(r.title) == Some(title@),
            r == (Embed { title: r.title, ..self }),
    {
        Embed { title: Some(to_owned(title)), ..self }
    }

    /// Set the description
    pub fn description(self, description: &str) -> (r: Self)
        ensures
            opt_view(r.description) == Some(description@),
            r == (Embed { description: r.description, ..self }),
    {
        Embed { description: Some(to_owned(description)), ..self }
    }

    /// Set the URL
    pub fn url(self, url: &str) -> (r: Self)
        ensures
            opt_view(r.url) == Some(url@),
            r == (Embed { url: r.url, ..self }),
    {
        Embed { url: Some(to_owned(url)), ..self }
    }

    /// Set the color (as hex integer, e.g., 0x5865F2)
    pub fn color(self, color: u32) -> (r: Self)
        ensures
            r == (Embed { color: Some(color), ..self }),
    {
        Embed { color: Some(color), ..self }
    }

    /// Add a field
    pub fn field(self, name: &str, value: &str, inline: bool) -> (r: Self)
        ensures
            r.fields@.len() == self.fields@.len() + 1,
            r.fields@.drop_last() == self.fields@,
            r.fields@.last().name@ == name@,
            r.fields@.last().value@ == value@,
            r.fields@.last().inline == inline,
            r == (Embed { fields: r.fields, ..self }),
    {
        let mut e = self;
        e.fields.push(EmbedField { name: to_owned(name), value: to_owned(value), inline });
        e
    }

    /// Set the footer
    pub fn footer(self, text: &str) -> (r: Self)
        ensures
            r.footer matches Some(f) && f.text@ == text@ && f.icon_url is None,
            r == (Embed { footer: r.footer, ..self }),
    {
        Embed { footer: Some(EmbedFooter { text: to_owned(text), icon_url: None }), ..self }
    }

    /// Set the footer with an icon
    pub fn footer_with_icon(self, text: &str, icon_url: &str) -> (r: Self)
        ensures
            r.footer matches Some(f) && f.text@ == text@ && opt_view(f.icon_url) == Some(icon_url@),
            r == (Embed { footer: r.footer, ..self }),
    {
        Embed {
            footer: Some(EmbedFooter { text: to_owned(text), icon_url: Some(to_owned(icon_url)) }),
            ..self
        }
    }

    /// Set the image
    pub fn image(self, url: &str) -> (r: Self)
        ensures
            r.image matches Some(i) && i.url@ == url@,
            r == (Embed { image: r.image, ..self }),
    {
        Embed { image: Some(EmbedImage { url: to_owned(url) }), ..self }
    }

    /// Set the thumbnail
    pub fn thumbnail(self, url: &str) -> (r: Self)
        ensures
            r.thumbnail matches Some(i) && i.url@ == url@,
            r == (Embed { thumbnail: r.thumbnail, ..self }),
    {
        Embed { thumbnail: Some(EmbedImage { url: to_owned(url) }), ..self }
    }

    /// Set the author
    pub fn author(self, name: &str) -> (r: Self)
        ensures
            r.author matches Some(a) && a.name@ == name@ && a.url is None && a.icon_url is None,
            r == (Embed { author: r.author, ..self }),
    {
        Embed { author: Some(EmbedAuthor { name: to_owned(name), url: None, icon_url: None }), ..self }
    }

    /// Set the author with URL and icon
    pub fn author_full(self, name: &str, url: Option<String>, icon_url: Option<String>) -> (r: Self)
        ensures
            r.author matches Some(a) && a.name@ == name@ && a.url == url && a.icon_url == icon_url,
            r == (Embed { author: r.author, ..self }),
    {
        Embed { author: Some(EmbedAuthor { name: to_owned(name), url, icon_url }), ..self }
    }

    /// Set the timestamp
    pub fn timestamp(self, timestamp: &str) -> (r: Self)
        ensures
            opt_view(r.timestamp) == Some(timestamp@),
            r == (Embed { timestamp: r.timestamp, ..self }),
    {
        Embed { timestamp: Some(to_owned(timestamp)), ..self }
    }
}

/// Field within an embed
#[derive(Debug, Clone)]
pub struct EmbedField {
    /// Field name/title
    pub name: String,
    /// Field value/content
    pub value: String,
    /// Whether to display inline with other fields
    pub inline: bool,
}

/// Footer of an embed
#[derive(Debug, Clone)]
pub struct EmbedFooter {
    /// Footer text
    pub text: String,
    /// URL of footer icon
    pub icon_url: Option<String>,
}

/// Image in an embed
#[derive(Debug, Clone)]
pub struct EmbedImage {
    /// URL of the image
    pub url: String,
}

/// Author information in an embed
#[derive(Debug, Clone)]
pub struct EmbedAuthor {
    /// Author name
    pub name: String,
    /// URL to link the author name
    pub url: Option<String>,
    /// URL of author icon
    pub icon_url: Option<String>,
}

} // verus!
