use vstd::prelude::*;

use crate::consts::ImageFormat;
use crate::models::user::{avatar_url, spec_avatar_url};

verus! {

#[derive(Debug, Clone)]
pub struct Author {
    pub username: String,
    pub user_id: String,
    pub global_name: Option<String>,
    pub discriminator: String,
    pub application_id: Option<String>,

    pub avatar_hash: Option<String>,

    pub bot: bool,
}


impl Author {
    /// The URL of the author's avatar; `None` when the author has none.
    pub fn get_avatar_url(&self, image_format: ImageFormat, size: Option<u32>) -> (r: Option<String>)
        ensures
            match self.avatar_hash {
                Some(h) => r matches Some(u) && u@ == spec_avatar_url(self.user_id@, h@, image_format, size),
                None => r is None,
            },
    {
        match &self.avatar_hash {
            Some(h) => Some(avatar_url(self.user_id.as_str(), h.as_str(), image_format, size)),
            None => None,
        }
    }
}

} // verus!
