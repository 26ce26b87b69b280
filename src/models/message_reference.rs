use vstd::prelude::*;

use crate::models::author::Author;
use crate::models::embed::Embed;

verus! {

#[derive(Debug, Clone)]
pub struct MessageReference {
    pub tts: bool,
    pub timestamp: String,
    pub pinned: bool,
    pub mention_everyone: bool,
    pub flags: usize,
    pub embeds: Vec<Embed>,
    pub edited_timestamp: Option<String>,
    pub content: String,
    pub channel_id: String,
    pub author: Author,

}

} // verus!
