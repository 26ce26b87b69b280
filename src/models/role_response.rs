use vstd::prelude::*;

use crate::models::role::Role;

verus! {

/// Represents a response for a role creation event.
#[derive(Debug, Clone)]
pub struct RoleCreateResponse {
    /// The role event data.
    pub data: RoleEvent,
}

/// Represents a response for a role update event.
#[derive(Debug, Clone)]
pub struct RoleUpdateResponse {
    /// The role event data.
    pub data: RoleEvent,
}

/// Represents a response for a role deletion event.
#[derive(Debug, Clone)]
pub struct RoleDeleteResponse {
    /// The role deletion data.
    pub data: RoleDelete,
}

/// Represents a role event in a guild.
#[derive(Debug, Clone)]
pub struct RoleEvent {
    /// The ID of the guild where the event occurred.
    pub guild_id: String,
    /// The role involved in the event.
    pub role: Role,
}

/// Represents a role deletion event in a guild.
#[derive(Debug, Clone)]
pub struct RoleDelete {
    /// The ID of the guild where the role was deleted.
    pub guild_id: String,
    /// The ID of the deleted role.
    pub role_id: String,
}

} // verus!
