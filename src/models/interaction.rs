use vstd::prelude::*;

use crate::consts::InteractionCallbackType;
use crate::text::strings_view;

use crate::models::message_response::CreateMessageData;

verus! {

/// Data for an application command interaction.
#[derive(Debug)]
pub struct AppCommandInteractionData {
    /// The name of the command.
    pub name: String,
    /// The type of the command.
    pub type_: u32,
    /// The value of the command.
    /// Can be a string, int, float, or bool.
    pub value: String,
    /// The options for the command.
    pub options: Option<Vec<AppCommandInteractionData>>,
    /// Whether the command is focused.
    pub focused: Option<bool>,
}

/// Choices for an autocomplete interaction.
#[derive(Debug, Clone)]
pub struct InteractionAutoCompleteChoices {
    /// The type of the interaction.
    pub type_: u32,
    /// The data for the interaction.
    pub data: Option<InteractionAutoCompleteChoicePlaceholder>,
}

/// Placeholder for autocomplete choices.
#[derive(Debug, Clone)]
pub struct InteractionAutoCompleteChoicePlaceholder {
    /// The autocomplete choices.
    pub choices: Vec<InteractionAutoCompleteChoice>,
}

/// Represents an autocomplete choice.
#[derive(Debug, Clone)]
pub struct InteractionAutoCompleteChoice {
    /// The name of the choice.
    pub name: String,
    /// The value of the choice.
    pub value: String,
}

/// Represents an interaction response.
#[derive(Debug)]
pub struct InteractionResponse {
    /// The type of the interaction response.
    pub type_: u32,
    /// The data for the interaction response.
    pub data: Option<CreateMessageData>,
}


impl InteractionAutoCompleteChoices {
    /// The response that offers `choices` to an autocompletion request.
    pub fn new(choices: Vec<InteractionAutoCompleteChoice>) -> (r: InteractionAutoCompleteChoices)
        ensures
            r.type_ == 8,
            r.data == Some(InteractionAutoCompleteChoicePlaceholder { choices }),
    {
        InteractionAutoCompleteChoices {
            type_: InteractionCallbackType::ApplicationCommandAutocompleteResult.value(),
            data: Some(InteractionAutoCompleteChoicePlaceholder { choices }),
        }
    }
}

/// The most suggestions an autocompletion answer carries.
pub const MAX_AUTOCOMPLETE_CHOICES: usize = 25;

pub open spec fn min_choices(n: nat) -> nat {
    if n < MAX_AUTOCOMPLETE_CHOICES { n } else { MAX_AUTOCOMPLETE_CHOICES as nat }
}

impl InteractionAutoCompleteChoices {
    /// The answer offering the first 25 (or fewer) suggestions, each as both name and value.
    pub fn from_suggestions(suggestions: &Vec<String>) -> (r: InteractionAutoCompleteChoices)
        ensures
            r.type_ == 8,
            r.data matches Some(d) && d.choices@.len() == min_choices(suggestions@.len())
                && forall|i: int| 0 <= i < d.choices@.len() ==> #[trigger] d.choices@[i].name@ == suggestions@[i]@
                    && d.choices@[i].value@ == suggestions@[i]@,
    {
        let mut choices: Vec<InteractionAutoCompleteChoice> = Vec::new();
        let mut i: usize = 0;
        while i < suggestions.len() && i < MAX_AUTOCOMPLETE_CHOICES
            invariant
                i <= suggestions@.len(),
                i <= MAX_AUTOCOMPLETE_CHOICES,
                choices@.len() == i,
                forall|k: int| 0 <= k < i ==> #[trigger] choices@[k].name@ == suggestions@[k]@
                    && choices@[k].value@ == suggestions@[k]@,
            decreases suggestions@.len() - i,
        {
            let s = &suggestions[i];
            choices.push(InteractionAutoCompleteChoice { name: s.clone(), value: s.clone() });
            i = i + 1;
        }
        InteractionAutoCompleteChoices::new(choices)
    }
}

} // verus!
