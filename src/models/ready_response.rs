use vstd::prelude::*;

use crate::models::guild::PartialGuild;
use crate::models::user::User;

verus! {

/// Represents a ready response.
#[derive(Debug, Clone)]
pub struct ReadyResponse {
    pub data: ReadyData,
}

/// Represents general startup data about the bot.
#[derive(Debug, Clone)]
pub struct ReadyData {
    pub user: User,
    pub session_type: String,
    pub session_id: String,
    pub resume_gateway_url: String,
    pub guilds: Vec<PartialGuild>,
    pub geo_ordered_rtc_regions: Vec<String>,
    pub application: ApplicationData,
}

/// Represents data about the bot application.
#[derive(Debug, Clone)]
pub struct ApplicationData {
    pub id: String,
    pub flags: usize,
}

} // verus!
