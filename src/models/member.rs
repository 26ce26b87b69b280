use vstd::prelude::*;

use crate::models::user::User;

verus! {

#[derive(Debug, Clone)]
pub struct Member {
    pub user: User,
    pub roles: Vec<String>,
    pub premium_since: Option<String>,
    pub permissions: String,
    pub pending: bool,
    pub nick: Option<String>,
    pub mute: bool,
    pub joined_at: String,
    pub is_pending: bool,
    pub deaf: bool,
}

} // verus!
