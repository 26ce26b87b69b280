use vstd::prelude::*;

use crate::consts::ChannelType;
use crate::models::emoji::Emoji;
use crate::consts::SelectMenuType;

verus! {

/// Represents a component in a Discord message.
#[derive(Debug)]
pub struct Component {
    /// Type of component.
    pub type_: u32,
    /// Nested components.
    pub components: Option<Vec<Component>>,
    /// Button style.
    pub style: Option<u32>,
    /// Button label.
    pub label: Option<String>,
    /// Button emoji.
    pub emoji: Option<Emoji>,
    /// Custom ID for the component.
    pub custom_id: Option<String>,
    /// URL for the button.
    pub url: Option<String>,
    /// Whether the component is disabled.
    pub disabled: bool,
    /// Options for select menus.
    pub options: Option<Vec<SelectOption>>,
    /// Channel types for select menus.
    pub channel_types: Option<Vec<u32>>,
    /// Placeholder text for select menus.
    pub placeholder: Option<String>,
    /// Default values for select menus.
    pub default_values: Option<Vec<SelectDefaultValue>>,
    /// Minimum values for select menus (0 to 25).
    pub min_values: Option<u32>,
    /// Maximum values for select menus (0 to 25); defaults to 1.
    pub max_values: Option<u32>,
}

/// Represents an option in a select menu.
#[derive(Debug, Clone)]
pub struct SelectOption {
    /// Label for the option.
    pub label: String,
    /// Value for the option.
    pub value: String,
    /// Description for the option.
    pub description: Option<String>,
    /// Emoji for the option.
    pub emoji: Option<Emoji>,
    /// Whether the option is the default.
    pub default: Option<bool>,
}

/// Represents a default value in a select menu.
#[derive(Debug, Clone)]
pub struct SelectDefaultValue {
    /// ID of a user, role, or channel.
    pub id: String,
    /// Either "user", "roles", or "channel".
    pub type_: String,
}

/// Represents a select menu object.
#[derive(Debug, Clone)]
pub struct SelectObject {
    /// Type of the select menu.
    pub select_type: SelectMenuType,
    /// Custom ID for the select menu.
    pub custom_id: String,
    /// Options for the select menu.
    pub options: Option<Vec<SelectOption>>,
    /// Channel types for the select menu.
    pub channel_types: Option<Vec<ChannelType>>,
    /// Placeholder text for the select menu.
    pub placeholder: Option<String>,
    /// Default values for the select menu.
    pub default_values: Option<Vec<SelectDefaultValue>>,
    /// Minimum values for the select menu.
    pub min_values: Option<u32>,
    /// Maximum values for the select menu.
    pub max_values: Option<u32>,
    /// Whether the select menu is disabled.
    pub disabled: bool,
}

/// Represents a button object.
#[derive(Debug, Clone)]
pub struct ButtonObject {
    /// Style of the button.
    pub style: u32,
    /// Label for the button.
    pub label: Option<String>,
    /// Emoji for the button.
    pub emoji: Option<Emoji>,
    /// Custom ID for the button.
    pub custom_id: Option<String>,
    /// URL for the button.
    pub url: Option<String>,
    /// Whether the button is disabled.
    pub disabled: bool,
}

} // verus!
