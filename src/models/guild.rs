use vstd::prelude::*;

use crate::consts::ImageFormat;
use crate::models::user::{avatar_url, spec_avatar_url};

use crate::models::channel::Channel;
use crate::models::user::User;

verus! {

/// Represents a Discord guild (server).
#[derive(Debug, Clone)]
pub struct Guild {
    /// The unique ID of the guild.
    pub id: String,
    /// The name of the guild.
    pub name: String,
    /// The hash of the guild icon.
    pub icon_hash: Option<String>,
    /// The hash of the guild splash image.
    pub splash_hash: Option<String>,
    /// The hash of the guild discovery splash image.
    pub discovery_splash_hash: Option<String>,
    /// The ID of the guild owner.
    pub owner_id: String,
    /// The ID of the AFK channel.
    pub afk_channel_id: Option<String>,
    /// The AFK timeout in seconds.
    pub afk_timeout: usize,
    /// Whether the widget is enabled.
    pub widget_enabled: bool,
    /// The ID of the widget channel.
    pub widget_channel_id: Option<String>,
    /// The verification level of the guild.
    pub verification_level: usize,
    /// The default message notifications level.
    pub default_message_notifications_level: usize,
    /// The explicit content filter level.
    pub explicit_content_filter_level: usize,
    /// The MFA level required for the guild.
    pub mfa_level: usize,
    /// The application ID of the guild.
    pub application_id: Option<String>,
    /// The ID of the system channel.
    pub system_channel_id: Option<String>,
    /// The system channel flags.
    pub system_channel_flag: Option<usize>,
    /// The ID of the rules channel.
    pub rules_channel_id: Option<String>,
    /// The maximum number of members in the guild.
    pub max_members: Option<usize>,
    /// The vanity URL code of the guild.
    pub vanity_url_code: Option<String>,
    /// The hash of the guild banner.
    pub banner_hash: Option<String>,
    /// The number of boosts the guild has.
    pub boost_count: Option<u32>,
    /// The preferred locale of the guild.
    pub preferred_locale: String,
    /// The ID of the public updates channel.
    pub public_updates_channel_id: Option<String>,
    /// The maximum number of users in a video channel.
    pub max_video_channel_users: Option<usize>,
    /// The NSFW level of the guild.
    pub nsfw_level: usize,
    /// Whether the boost progress bar is enabled.
    pub boost_progress_bar: bool,
    /// The ID of the safety alerts channel.
    pub safety_alerts_channel_id: Option<String>,
}

/// Represents the response for a guild creation.
#[derive(Debug, Clone)]
pub struct GuildCreateResponse {
    /// The guild creation data.
    pub data: GuildCreate,
}

/// Represents the data for a guild creation.
#[derive(Debug, Clone)]
pub struct GuildCreate {
    /// The unique ID of the guild.
    pub id: String,
    /// The name of the guild.
    pub name: String,
    /// The hash of the guild icon.
    pub icon_hash: Option<String>,
    /// The hash of the guild splash image.
    pub splash_hash: Option<String>,
    /// The hash of the guild discovery splash image.
    pub discovery_splash_hash: Option<String>,
    /// The ID of the guild owner.
    pub owner_id: String,
    /// The ID of the AFK channel.
    pub afk_channel_id: Option<String>,
    /// The AFK timeout in seconds.
    pub afk_timeout: usize,
    /// Whether the widget is enabled.
    pub widget_enabled: bool,
    /// The ID of the widget channel.
    pub widget_channel_id: Option<String>,
    /// The verification level of the guild.
    pub verification_level: usize,
    /// The default message notifications level.
    pub default_message_notifications_level: usize,
    /// The explicit content filter level.
    pub explicit_content_filter_level: usize,
    /// The MFA level required for the guild.
    pub mfa_level: usize,
    /// The application ID of the guild.
    pub application_id: Option<String>,
    /// The ID of the system channel.
    pub system_channel_id: Option<String>,
    /// The system channel flags.
    pub system_channel_flag: Option<usize>,
    /// The ID of the rules channel.
    pub rules_channel_id: Option<String>,
    /// The maximum number of members in the guild.
    pub max_members: usize,
    /// The vanity URL code of the guild.
    pub vanity_url_code: Option<String>,
    /// The hash of the guild banner.
    pub banner_hash: Option<String>,
    /// The number of boosts the guild has.
    pub boost_count: Option<u32>,
    /// The preferred locale of the guild.
    pub preferred_locale: String,
    /// The ID of the public updates channel.
    pub public_updates_channel_id: Option<String>,
    /// The maximum number of users in a video channel.
    pub max_video_channel_users: Option<usize>,
    /// The NSFW level of the guild.
    pub nsfw_level: usize,
    /// Whether the boost progress bar is enabled.
    pub boost_progress_bar: bool,
    /// The ID of the safety alerts channel.
    pub safety_alerts_channel_id: Option<String>,
    /// The timestamp when the guild was joined.
    pub joined_at: String,
    /// Whether the guild is large.
    pub large: bool,
    /// Whether the guild is unavailable.
    pub unavailable: Option<bool>,
    /// The number of members in the guild.
    pub member_count: usize,
    /// The members of the guild.
    pub members: Vec<Member>,
    /// The channels in the guild.
    pub channels: Vec<Channel>,
    /// The threads in the guild.
    pub threads: Vec<Channel>,
}

/// Represents a partial guild (unavailable guild).
#[derive(Debug, Clone)]
pub struct PartialGuild {
    /// Whether the guild is unavailable.
    pub unavailable: bool,
    /// The unique ID of the guild.
    pub id: String,
}

/// Represents a member who left the guild (kick/leave/ban)
#[derive(Debug, Clone)]
pub struct MemberLeave {
    /// ID of the guild
    pub guild_id: Option<String>,
    /// The user who was removed
    pub user: User,
}

/// Represents a member of a guild.
#[derive(Debug, Clone)]
pub struct Member {
    /// The user associated with the member.
    pub user: Option<User>,
    /// The nickname of the member.
    pub nick: Option<String>,
    /// The hash of the member's guild avatar.
    pub guild_avatar_hash: Option<String>,
    /// The roles of the member.
    pub roles: Vec<String>,
    /// The timestamp when the member joined the guild.
    /// `None` if its from guild member add event.
    pub joined_at: Option<String>,
    /// The timestamp when the member started boosting the guild.
    pub premium_since: Option<String>,
    /// Whether the member is deafened.
    pub deaf: bool,
    /// Whether the member is muted.
    pub mute: bool,
    /// The flags of the member.
    pub flags: usize,
    /// Whether the member is pending verification.
    pub pending: Option<bool>,
    /// The permissions of the member.
    pub permissions: Option<String>,
    /// The timestamp when the member's communication is disabled until.
    pub timeout_until: Option<String>,
    /// The mention string for the member.
    pub mention: String,

    /// Id of the guild, available in guild member update events.
    pub guild_id: Option<String>,
}


impl Member {
    /// The URL of the member's user avatar; `None` when the user has none.
    pub fn get_avatar_url(&self, image_format: ImageFormat, size: Option<u32>) -> (r: Option<String>)
        requires
            self.user is Some,
        ensures
            match self.user.unwrap().avatar_hash {
                Some(h) => r matches Some(u) && u@ == spec_avatar_url(self.user.unwrap().id@, h@, image_format, size),
                None => r is None,
            },
    {
        let user = self.user.as_ref().unwrap();
        match &user.avatar_hash {
            Some(h) => Some(avatar_url(user.id.as_str(), h.as_str(), image_format, size)),
            None => None,
        }
    }
}

} // verus!
