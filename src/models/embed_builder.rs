use vstd::prelude::*;
use vstd::string::*;

use crate::consts::{spec_color, Color};
use crate::models::embed::{Embed, EmbedAuthor, EmbedField, EmbedFooter, EmbedImage, EmbedThumbnail, EmbedVideo};
use crate::payload::opt_view;

verus! {

/// The most fields an embed may hold.
pub const MAX_EMBED_FIELDS: usize = 25;

/// A builder for embeds.
pub struct EmbedBuilder {
    embed: Embed,
}

impl View for EmbedBuilder {
    type V = Embed;

    closed spec fn view(&self) -> Embed {
        self.embed
    }
}

impl EmbedBuilder {
    /// A builder for an empty embed.
    pub fn new() -> (r: EmbedBuilder)
        ensures
            r@.title is None && r@.description is None && r@.url is None && r@.timestamp is None,
            r@.color is None && r@.footer is None && r@.image is None && r@.thumbnail is None,
            r@.provider is None && r@.author is None && r@.video is None,
            r@.fields@.len() == 0,
    {
        EmbedBuilder {
            embed: Embed {
                title: None,
                description: None,
                url: None,
                timestamp: None,
                color: None,
                footer: None,
                image: None,
                thumbnail: None,
                provider: None,
                author: None,
                video: None,
                fields: Vec::new(),
            },
        }
    }

    /// The embed built so far.
    pub fn build(self) -> (r: Embed)
        ensures
            r == self@,
    {
        self.embed
    }

    /// Sets the title.
    pub fn title(self, title: &str) -> (r: EmbedBuilder)
        ensures
            opt_view(r@.title) == Some(title@),
            r@ == (Embed { title: r@.title, ..self@ }),
    {
        let mut s = self;
        s.embed.title = Some(String::from_str(title));
        s
    }

    /// Sets the description.
    pub fn description(self, description: &str) -> (r: EmbedBuilder)
        ensures
            opt_view(r@.description) == Some(description@),
            r@ == (Embed { description: r@.description, ..self@ }),
    {
        let mut s = self;
        s.embed.description = Some(String::from_str(description));
        s
    }

    /// Sets the color.
    pub fn color(self, color: Color) -> (r: EmbedBuilder)
        ensures
            r@ == (Embed { color: Some(spec_color(color)), ..self@ }),
    {
        let mut s = self;
        s.embed.color = Some(color.into_u32());
        s
    }

    /// Sets the footer.
    pub fn footer(self, text: &str, icon_url: Option<String>, proxy_icon_url: Option<String>) -> (r: EmbedBuilder)
        ensures
            r@.footer matches Some(f) && f.text@ == text@ && f.icon_url == icon_url && f.proxy_icon_url
                == proxy_icon_url,
            r@ == (Embed { footer: r@.footer, ..self@ }),
    {
        let mut s = self;
        s.embed.footer = Some(EmbedFooter { text: String::from_str(text), icon_url, proxy_icon_url });
        s
    }

    /// Sets the image.
    pub fn image(self, url: String, height: Option<u32>, width: Option<u32>) -> (r: EmbedBuilder)
        ensures
            r@ == (Embed { image: Some(EmbedImage { url, proxy_url: None, height, width }), ..self@ }),
    {
        let mut s = self;
        s.embed.image = Some(EmbedImage { url, proxy_url: None, height, width });
        s
    }

    /// Sets the thumbnail.
    pub fn thumbnail(self, thumbnail: EmbedThumbnail) -> (r: EmbedBuilder)
        ensures
            r@ == (Embed { thumbnail: Some(thumbnail), ..self@ }),
    {
        let mut s = self;
        s.embed.thumbnail = Some(thumbnail);
        s
    }

    /// Sets the video.
    pub fn video(self, video: EmbedVideo) -> (r: EmbedBuilder)
        ensures
            r@ == (Embed { video: Some(video), ..self@ }),
    {
        let mut s = self;
        s.embed.video = Some(video);
        s
    }

    /// Sets the author.
    pub fn author(self, author: EmbedAuthor) -> (r: EmbedBuilder)
        ensures
            r@ == (Embed { author: Some(author), ..self@ }),
    {
        let mut s = self;
        s.embed.author = Some(author);
        s
    }

    /// Adds a field; an embed holds at most 25.
    pub fn field(self, name: &str, value: &str, inline: bool) -> (r: EmbedBuilder)
        requires
            self@.fields@.len() < MAX_EMBED_FIELDS,
        ensures
            r@.fields@.len() == self@.fields@.len() + 1,
            r@.fields@.drop_last() == self@.fields@,
            r@.fields@.last().name@ == name@,
            r@.fields@.last().value@ == value@,
            r@.fields@.last().inline == inline,
            r@ == (Embed { fields: r@.fields, ..self@ }),
    {
        let mut s = self;
        s.embed.fields.push(EmbedField { name: String::from_str(name), value: String::from_str(value), inline });
        assert(s.embed.fields@.drop_last() =~= self@.fields@);
        s
    }

    /// Adds several fields, in order; an embed holds at most 25.
    pub fn fields(self, fields: Vec<EmbedField>) -> (r: EmbedBuilder)
        requires
            self@.fields@.len() + fields@.len() <= MAX_EMBED_FIELDS,
        ensures
            r@.fields@ == self@.fields@ + fields@,
            r@ == (Embed { fields: r@.fields, ..self@ }),
    {
        let mut s = self;
        let mut more = fields;
        s.embed.fields.append(&mut more);
        s
    }
}

} // verus!
