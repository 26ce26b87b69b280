use vstd::prelude::*;

verus! {

/// Represents a response for a deleted message.
#[derive(Debug, Clone)]
pub struct DeletedMessageResponse {
    /// The deleted message data.
    pub data: DeletedMessage,
}

/// Represents a deleted message.
#[derive(Debug, Clone)]
pub struct DeletedMessage {
    /// The unique ID of the deleted message.
    pub message_id: String,
    /// The ID of the channel where the message was deleted.
    pub channel_id: String,
    /// The ID of the guild where the message was deleted.
    pub guild_id: String,
}

} // verus!
