use vstd::prelude::*;

verus! {

#[derive(Debug, Clone)]
pub struct EmbedData {
    pub embed_type: String,
    pub timestamp: String,
    pub footer: FooterData,
    pub description: String,
    pub color: usize,
    pub author: EmbedAuthorData,
}

#[derive(Debug, Clone)]
pub struct EmbedAuthorData {
    pub proxy_icon_url: String,
    pub name: String,
    pub icon_url: String,
}

#[derive(Debug, Clone)]
pub struct FooterData {
    pub text: String,
}

} // verus!
