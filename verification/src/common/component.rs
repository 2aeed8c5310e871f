//! Interactive components shared by every platform: rows, buttons, select menus.
use vstd::prelude::*;

use crate::text::{opt_view, to_owned};

verus! {

/// Interactive component types
#[derive(Debug)]
pub enum Component {
    /// Row of components
    ActionRow(ActionRow),
    /// Clickable button
    Button(Button),
    /// Dropdown select menu
    SelectMenu(SelectMenu),
}

/// Container for a row of components
#[derive(Debug)]
pub struct ActionRow {
    pub components: Vec<Component>,
}

impl ActionRow {
    /// Create a new action row with the given components
    pub fn new(components: Vec<Component>) -> (r: Self)
        ensures
            r.components == components,
    {
        Self { components }
    }

    /// Create an action row with buttons
    pub fn buttons(buttons: Vec<Button>) -> (r: Self)
        ensures
            r.components@.len() == buttons@.len(),
            forall|i: int|
                0 <= i < buttons@.len() ==> r.components@[i] == Component::Button(
                    #[trigger] buttons@[i],
                ),
    {
        let mut components: Vec<Component> = Vec::new();
        let ghost all = buttons@;
        for b in it: buttons
            invariant
                it.seq() == all,
                components@.len() == it.index(),
                forall|i: int|
                    0 <= i < components@.len() ==> components@[i] == Component::Button(
                        #[trigger] all[i],
                    ),
        {
            components.push(Component::Button(b));
        }
        Self { components }
    }
}

/// Button visual styles
#[derive(Debug, Clone, Copy, PartialEq, Eq)]
pub enum ButtonStyle {
    Primary,
    Secondary,
    Success,
    Danger,
    Link,
}

/// Button component
#[derive(Debug, Clone)]
pub struct Button {
    /// Custom ID for identifying button clicks
    pub custom_id: Option<String>,
    /// Button label text
    pub label: String,
    /// Button style
    pub style: ButtonStyle,
    /// URL for link buttons
    pub url: Option<String>,
    /// Whether the button is disabled
    pub disabled: bool,
    /// Emoji to show on the button
    pub emoji: Option<String>,
}

/// A button with a custom id, in one of the callback styles, enabled and without emoji.
pub open spec fn is_callback_button(b: Button, custom_id: Seq<char>, label: Seq<char>, style: ButtonStyle) -> bool {
    &&& opt_view(b.custom_id) == Some(custom_id)
    &&& b.label@ == label
    &&& b.style == style
    &&& b.url is None
    &&& !b.disabled
    &&& b.emoji is None
}

impl Button {
    fn callback(custom_id: &str, label: &str, style: ButtonStyle) -> (r: Self)
        ensures
            is_callback_button(r, custom_id@, label@, style),
    {
        Self {
            custom_id: Some(to_owned(custom_id)),
            label: to_owned(label),
            style,
            url: None,
            disabled: false,
            emoji: None,
        }
    }

    /// Create a primary button
    pub fn primary(custom_id: &str, label: &str) -> (r: Self)
        ensures
            is_callback_button(r, custom_id@, label@, ButtonStyle::Primary),
    {
        Self::callback(custom_id, label, ButtonStyle::Primary)
    }

    /// Create a secondary button
    pub fn secondary(custom_id: &str, label: &str) -> (r: Self)
        ensures
            is_callback_button(r, custom_id@, label@, ButtonStyle::Secondary),
    {
        Self::callback(custom_id, label, ButtonStyle::Secondary)
    }

    /// Create a danger (red) button
    pub fn danger(custom_id: &str, label: &str) -> (r: Self)
        ensures
            is_callback_button(r, custom_id@, label@, ButtonStyle::Danger),
    {
        Self::callback(custom_id, label, ButtonStyle::Danger)
    }

    /// Create a success (green) button
    pub fn success(custom_id: &str, label: &str) -> (r: Self)
        ensures
            is_callback_button(r, custom_id@, label@, ButtonStyle::Success),
    {
        Self::callback(custom_id, label, ButtonStyle::Success)
    }

    /// Create a link button
    pub fn link(url: &str, label: &str) -> (r: Self)
        ensures
            r.custom_id is None,
            r.label@ == label@,
            r.style == ButtonStyle::Link,
            opt_view(r.url) == Some(url@),
            !r.disabled,
            r.emoji is None,
    {
        Self {
            custom_id: None,
            label: to_owned(label),
            style: ButtonStyle::Link,
            url: Some(to_owned(url)),
            disabled: false,
            emoji: None,
        }
    }

    /// Set button as disabled
    pub fn disabled(self) -> (r: Self)
        ensures
            r == (Button { disabled: true, ..self }),
    {
        Button { disabled: true, ..self }
    }

    /// Add an emoji to the button
    pub fn with_emoji(self, emoji: &str) -> (r: Self)
        ensures
            opt_view(r.emoji) == Some(emoji@),
            r == (Button { emoji: r.emoji, ..self }),
    {
        Button { emoji: Some(to_owned(emoji)), ..self }
    }
}

/// Dropdown select menu
#[derive(Debug, Clone)]
pub struct SelectMenu {
    /// Custom ID for identifying selections
    pub custom_id: String,
    /// Placeholder text when nothing is selected
    pub placeholder: Option<String>,
    /// Available options
    pub options: Vec<SelectOption>,
    /// Minimum number of selections
    pub min_values: u8,
    /// Maximum number of selections
    pub max_values: u8,
    /// Whether the menu is disabled
    pub disabled: bool,
}

impl SelectMenu {
    /// Create a new select menu
    pub fn new(custom_id: &str, options: Vec<SelectOption>) -> (r: Self)
        ensures
            r.custom_id@ == custom_id@,
            r.placeholder is None,
            r.options == options,
            r.min_values == 1,
            r.max_values == 1,
            !r.disabled,
    {
        Self {
            custom_id: to_owned(custom_id),
            placeholder: None,
            options,
            min_values: 1,
            max_values: 1,
            disabled: false,
        }
    }

    /// Set placeholder text
    pub fn placeholder(self, placeholder: &str) -> (r: Self)
        ensures
            opt_view(r.placeholder) == Some(placeholder@),
            r == (SelectMenu { placeholder: r.placeholder, ..self }),
    {
        SelectMenu { placeholder: Some(to_owned(placeholder)), ..self }
    }

    /// Set min/max selection values
    pub fn min_max(self, min: u8, max: u8) -> (r: Self)
        ensures
            r == (SelectMenu { min_values: min, max_values: max, ..self }),
    {
        SelectMenu { min_values: min, max_values: max, ..self }
    }
}

/// Option in a select menu
#[derive(Debug, Clone)]
pub struct SelectOption {
    /// Display label
    pub label: String,
    /// Value sent when selected
    pub value: String,
    /// Description of the option
    pub description: Option<String>,
    /// Whether this option is selected by default
    pub default: bool,
    /// Emoji to show
    pub emoji: Option<String>,
}

impl SelectOption {
    /// Create a new select option
    pub fn new(label: &str, value: &str) -> (r: Self)
        ensures
            r.label@ == label@,
            r.value@ == value@,
            r.description is None,
            !r.default,
            r.emoji is None,
    {
        Self {
            label: to_owned(label),
            value: to_owned(value),
            description: None,
            default: false,
            emoji: None,
        }
    }

    /// Add a description
    pub fn description(self, description: &str) -> (r: Self)
        ensures
            opt_view(r.description) == Some(description@),
            r == (SelectOption { description: r.description, ..self }),
    {
        SelectOption { description: Some(to_owned(description)), ..self }
    }

    /// Mark as default selected
    pub fn default(self) -> (r: Self)
        ensures
            r == (SelectOption { default: true, ..self }),
    {
        SelectOption { default: true, ..self }
    }
}

} // verus!
