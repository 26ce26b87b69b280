use vstd::prelude::*;

use crate::models::allowed_mentions::AllowedMentions;
use crate::models::attachment::AttachmentPayload;
use crate::models::components::Component;
use crate::models::embed::Embed;

verus! {

/// Data for creating a message.
#[derive(Debug)]
pub struct CreateMessageData {
    /// The content of the message.
    pub content: String,
    /// Whether the message is a TTS message.
    pub tts: bool,
    /// The embeds of the message.
    pub embeds: Vec<Embed>,
    /// The allowed mentions in the message.
    pub allowed_mentions: Option<AllowedMentions>,
    /// The flags of the message.
    pub flags: Option<u32>,
    /// The components of the message.
    pub components: Vec<Component>,
    /// The attachments of the message.
    pub attachments: Vec<AttachmentPayload>,
}


/// A row of components wrapped in an action row.
pub fn action_row(row: Vec<Component>) -> (r: Component)
    ensures
        r == (Component {
            type_: 1,
            components: Some(row),
            style: None,
            label: None,
            emoji: None,
            custom_id: None,
            url: None,
            disabled: false,
            options: None,
            channel_types: None,
            placeholder: None,
            default_values: None,
            min_values: None,
            max_values: None,
        }),
{
    Component {
        type_: 1,
        components: Some(row),
        style: None,
        label: None,
        emoji: None,
        custom_id: None,
        url: None,
        disabled: false,
        options: None,
        channel_types: None,
        placeholder: None,
        default_values: None,
        min_values: None,
        max_values: None,
    }
}

impl CreateMessageData {
    /// Replaces the message's components with `components`, one action row per inner list.
    pub fn add_components(self, components: Vec<Vec<Component>>) -> (r: CreateMessageData)
        ensures
            r.components@.len() == components@.len(),
            forall|i: int| 0 <= i < components@.len() ==> #[trigger] r.components@[i] == action_row_spec(components@[i]),
            r == (CreateMessageData { components: r.components, ..self }),
    {
        let mut rows = components;
        let ghost all = rows@;
        let mut out: Vec<Component> = Vec::new();
        while rows.len() > 0
            invariant
                out@.len() + rows@.len() == all.len(),
                rows@ == all.subrange(out@.len() as int, all.len() as int),
                forall|i: int| 0 <= i < out@.len() ==> #[trigger] out@[i] == action_row_spec(all[i]),
            decreases rows@.len(),
        {
            let row = rows.remove(0);
            out.push(action_row(row));
            assert(rows@ =~= all.subrange(out@.len() as int, all.len() as int));
        }
        CreateMessageData { components: out, ..self }
    }
}

pub open spec fn action_row_spec(row: Vec<Component>) -> Component {
    Component {
        type_: 1,
        components: Some(row),
        style: None,
        label: None,
        emoji: None,
        custom_id: None,
        url: None,
        disabled: false,
        options: None,
        channel_types: None,
        placeholder: None,
        default_values: None,
        min_values: None,
        max_values: None,
    }
}

} // verus!
