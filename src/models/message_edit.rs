use vstd::prelude::*;

use crate::models::embed::Embed;

verus! {

#[derive(Debug, Clone)]
pub struct MessageEditData {
    pub content: Option<String>,
    pub embeds: Option<Vec<Embed>>,
    pub flags: Option<usize>,
}

} // verus!
