use vstd::prelude::*;
use vstd::string::*;

use crate::consts::{spec_extension, ImageFormat};
use crate::text::{append_decimal, spec_decimal};

verus! {

/// Represents a user in Discord.
#[derive(Debug, Clone)]
pub struct User {
    /// Whether the user is verified.
    pub verified: bool,
    /// The username of the user.
    pub username: String,
    /// Whether the user has multi-factor authentication enabled.
    pub mfa_enabled: bool,
    /// The unique ID of the user.
    pub id: String,
    /// The global name of the user.
    pub global_name: Option<String>,
    /// The flags of the user.
    pub flags: usize,
    /// The email of the user.
    pub email: Option<String>,
    /// The discriminator of the user.
    pub discriminator: String,
    /// Whether the user is a bot.
    pub bot: bool,
    /// The hash of the user's avatar.
    pub avatar_hash: Option<String>,
    /// The mention string for the user.
    pub mention: String,
}


/// Where the content delivery network serves an avatar: user id, image hash, the format's
/// extension, then `?size=<n>` when a size is asked for.
pub open spec fn spec_avatar_url(user_id: Seq<char>, hash: Seq<char>, format: ImageFormat, size: Option<u32>) -> Seq<char> {
    "https://cdn.discordapp.com/avatars/"@ + user_id + "/"@ + hash + spec_extension(format) + match size {
        Some(n) => "?size="@ + spec_decimal(n as nat),
        None => Seq::<char>::empty(),
    }
}

/// The URL of an avatar.
pub fn avatar_url(user_id: &str, hash: &str, format: ImageFormat, size: Option<u32>) -> (r: String)
    ensures
        r@ == spec_avatar_url(user_id@, hash@, format, size),
{
    let mut s = String::from_str("https://cdn.discordapp.com/avatars/");
    s.append(user_id);
    s.append("/");
    s.append(hash);
    s.append(format.get_extension());
    if let Some(n) = size {
        s.append("?size=");
        append_decimal(&mut s, n as u64);
    }
    assert(s@ =~= spec_avatar_url(user_id@, hash@, format, size));
    s
}

impl User {
    /// The URL of the user's avatar; `None` when the user has none.
    pub fn get_avatar_url(&self, image_format: ImageFormat, size: Option<u32>) -> (r: Option<String>)
        ensures
            match self.avatar_hash {
                Some(h) => r matches Some(u) && u@ == spec_avatar_url(self.id@, h@, image_format, size),
                None => r is None,
            },
    {
        match &self.avatar_hash {
            Some(h) => Some(avatar_url(self.id.as_str(), h.as_str(), image_format, size)),
            None => None,
        }
    }
}

} // verus!
