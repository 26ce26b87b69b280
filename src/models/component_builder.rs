use vstd::prelude::*;

use crate::consts::{spec_channel_type, spec_select_menu_type, ChannelType};
use crate::models::components::{ButtonObject, Component, SelectObject};

verus! {

/// The wire number of link buttons.
pub const LINK_BUTTON_STYLE: u32 = 5;

/// The most values a select menu may ask for.
pub const MAX_SELECT_VALUES: u32 = 25;

/// A link button carries a URL and no custom id.
pub open spec fn button_error(b: ButtonObject) -> Option<Seq<char>> {
    if b.style == LINK_BUTTON_STYLE {
        if b.custom_id is Some {
            Some("Link buttons cannot have a custom id"@)
        } else if b.url is None {
            Some("Link buttons must have a url"@)
        } else {
            None
        }
    } else {
        None
    }
}

/// A select menu asks for at most 25 values.
pub open spec fn select_error(s: SelectObject) -> Option<Seq<char>> {
    if (s.min_values matches Some(v) && v > MAX_SELECT_VALUES) || (s.max_values matches Some(v) && v
        > MAX_SELECT_VALUES) {
        Some("Min and max values should be in the range 0 to 25"@)
    } else {
        None
    }
}

impl ButtonObject {
    /// Checks the button's configuration.
    pub fn verify(&self) -> (r: Result<(), &'static str>)
        ensures
            match button_error(*self) {
                Some(m) => r matches Err(e) && e@ == m,
                None => r is Ok,
            },
    {
        if self.style == LINK_BUTTON_STYLE {
            if self.custom_id.is_some() {
                return Err("Link buttons cannot have a custom id");
            }
            if self.url.is_none() {
                return Err("Link buttons must have a url");
            }
        }
        Ok(())
    }
}

impl SelectObject {
    /// Checks the select menu's value bounds.
    pub fn verify(&self) -> (r: Result<(), &'static str>)
        ensures
            match select_error(*self) {
                Some(m) => r matches Err(e) && e@ == m,
                None => r is Ok,
            },
    {
        let min_bad = match self.min_values {
            Some(v) => v > MAX_SELECT_VALUES,
            None => false,
        };
        let max_bad = match self.max_values {
            Some(v) => v > MAX_SELECT_VALUES,
            None => false,
        };
        if min_bad || max_bad {
            return Err("Min and max values should be in the range 0 to 25");
        }
        Ok(())
    }
}

/// Builds message components.
pub struct ComponentBuilder;

impl ComponentBuilder {
    /// A button component, once the button checks out.
    pub fn button(button: ButtonObject) -> (r: Result<Component, &'static str>)
        ensures
            match button_error(button) {
                Some(m) => r matches Err(e) && e@ == m,
                None => r matches Ok(c) && c == (Component {
                    type_: 2,
                    components: None,
                    style: Some(button.style),
                    label: button.label,
                    emoji: button.emoji,
                    custom_id: button.custom_id,
                    url: button.url,
                    disabled: button.disabled,
                    options: None,
                    channel_types: None,
                    placeholder: None,
                    default_values: None,
                    min_values: None,
                    max_values: None,
                }),
            },
    {
        match button.verify() {
            Err(e) => Err(e),
            Ok(()) => {
                let ButtonObject { style, label, emoji, custom_id, url, disabled } = button;
                Ok(Component {
                    type_: 2,
                    components: None,
                    style: Some(style),
                    label,
                    emoji,
                    custom_id,
                    url,
                    disabled,
                    options: None,
                    channel_types: None,
                    placeholder: None,
                    default_values: None,
                    min_values: None,
                    max_values: None,
                })
            },
        }
    }

    /// A select menu component, once the menu checks out.
    pub fn select(select: SelectObject) -> (r: Result<Component, &'static str>)
        ensures
            match select_error(select) {
                Some(m) => r matches Err(e) && e@ == m,
                None => r matches Ok(c) && c.type_ == spec_select_menu_type(select.select_type)
                    && c.components is None && c.style is None && c.label is None && c.emoji is None
                    && c.custom_id == Some(select.custom_id) && c.url is None
                    && c.disabled == select.disabled && c.options == select.options
                    && c.placeholder == select.placeholder && c.default_values == select.default_values
                    && c.min_values == select.min_values && c.max_values == select.max_values
                    && match select.channel_types {
                        Some(ts) => c.channel_types matches Some(ns) && ns@ == ts@.map_values(
                            |t: ChannelType| spec_channel_type(t),
                        ),
                        None => c.channel_types is None,
                    },
            },
    {
        match select.verify() {
            Err(e) => Err(e),
            Ok(()) => {
                let SelectObject {
                    select_type,
                    custom_id,
                    options,
                    channel_types,
                    placeholder,
                    default_values,
                    min_values,
                    max_values,
                    disabled,
                } = select;
                let numbers = match channel_types {
                    Some(ts) => {
                        let mut ns: Vec<u32> = Vec::new();
                        let mut i: usize = 0;
                        while i < ts.len()
                            invariant
                                i <= ts@.len(),
                                ns@ == ts@.subrange(0, i as int).map_values(|t: ChannelType| spec_channel_type(t)),
                            decreases ts@.len() - i,
                        {
                            ns.push(ts[i].value());
                            assert(ts@.subrange(0, i + 1).map_values(|t: ChannelType| spec_channel_type(t)) =~= ts@.subrange(0, i as int).map_values(|t: ChannelType| spec_channel_type(t)).push(spec_channel_type(ts@[i as int])));
                            i = i + 1;
                        }
                        assert(ts@.subrange(0, ts@.len() as int) =~= ts@);
                        Some(ns)
                    },
                    None => None,
                };
                Ok(Component {
                    type_: select_type.value(),
                    components: None,
                    style: None,
                    label: None,
                    emoji: None,
                    custom_id: Some(custom_id),
                    url: None,
                    disabled,
                    options,
                    channel_types: numbers,
                    placeholder,
                    default_values,
                    min_values,
                    max_values,
                })
            },
        }
    }
}

} // verus!
