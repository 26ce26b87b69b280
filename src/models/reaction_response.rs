use vstd::prelude::*;

use crate::models::emoji::Emoji;
use crate::models::guild::Member;

verus! {

/// Represents a response for a reaction.
#[derive(Debug, Clone)]
pub struct ReactionResponse {
    /// The reaction data.
    pub data: Reaction,
}

/// Represents a reaction in Discord.
#[derive(Debug, Clone)]
pub struct Reaction {
    /// The ID of the user who reacted.
    pub user_id: String,
    /// The ID of the message that was reacted to.
    pub message_id: String,
    /// The member who reacted.
    pub member: Option<Member>,
    /// The emoji used for the reaction.
    pub emoji: Emoji,
    /// The ID of the channel where the reaction occurred.
    pub channel_id: String,
    /// Whether the reaction is a burst reaction.
    pub burst: bool,
    /// The ID of the guild where the reaction occurred.
    pub guild_id: Option<String>,
}

} // verus!
