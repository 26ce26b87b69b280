use vstd::prelude::*;

verus! {

/// The gateway to connect to.
pub const GATEWAY_URL: &'static str = "wss://gateway.discord.gg/?v=10&encoding=json";
/// The root of the versioned REST API.
pub const API: &'static str = "https://discord.com/api/v10";
/// The root of the content delivery network.
pub const DISCORD_CDN: &'static str = "https://cdn.discordapp.com";
/// How many messages the message cache keeps.
pub const MESSAGE_CACHE_SIZE: usize = 100_000;

/// Image formats offered by the content delivery network.
#[derive(Debug, Clone, Copy, PartialEq, Eq, Structural)]
pub enum ImageFormat {
    Jpeg,
    Png,
    WebP,
    Gif,
    Lottie,
}

pub open spec fn spec_extension(f: ImageFormat) -> Seq<char> {
    match f {
        ImageFormat::Jpeg => ".jpg"@,
        ImageFormat::Png => ".png"@,
        ImageFormat::WebP => ".webp"@,
        ImageFormat::Gif => ".gif"@,
        ImageFormat::Lottie => ".json"@,
    }
}

impl ImageFormat {
    /// The file extension of the format, dot included.
    pub fn get_extension(&self) -> (r: &'static str)
        ensures
            r@ == spec_extension(*self),
    {
        match self {
            ImageFormat::Jpeg => ".jpg",
            ImageFormat::Png => ".png",
            ImageFormat::WebP => ".webp",
            ImageFormat::Gif => ".gif",
            ImageFormat::Lottie => ".json",
        }
    }
}

/// Kinds of message components.
#[derive(Debug, Clone, Copy, PartialEq, Eq, Structural)]
pub enum ComponentType {
    /// Container for other components
    ActionRow,
    /// Button object
    Button,
    /// Select menu for picking from defined text options
    StringSelect,
    /// Text input object
    TextInput,
    /// Select menu for users
    UserSelect,
    /// Select menu for roles
    RoleSelect,
    /// Select menu for mentionables (users and roles)
    MentionableSelect,
    /// Select menu for channels
    ChannelSelect,
}

impl ComponentType {
    /// The wire number of the component type.
    pub fn value(&self) -> (r: u32)
        ensures
            r == match *self {
                ComponentType::ActionRow => 1u32,
                ComponentType::Button => 2,
                ComponentType::StringSelect => 3,
                ComponentType::TextInput => 4,
                ComponentType::UserSelect => 5,
                ComponentType::RoleSelect => 6,
                ComponentType::MentionableSelect => 7,
                ComponentType::ChannelSelect => 8,
            },
    {
        match self {
            ComponentType::ActionRow => 1,
            ComponentType::Button => 2,
            ComponentType::StringSelect => 3,
            ComponentType::TextInput => 4,
            ComponentType::UserSelect => 5,
            ComponentType::RoleSelect => 6,
            ComponentType::MentionableSelect => 7,
            ComponentType::ChannelSelect => 8,
        }
    }
}

/// Button styles.
#[derive(Debug, Clone, Copy, PartialEq, Eq, Structural)]
pub enum ButtonStyle {
    /// Color: blurple
    Primary,
    /// Color: grey
    Secondary,
    /// Color: green
    Success,
    /// Color: red
    Danger,
    /// Color: grey, navigates to a URL
    Link,
}

pub open spec fn spec_button_style(s: ButtonStyle) -> u32 {
    match s {
        ButtonStyle::Primary => 1,
        ButtonStyle::Secondary => 2,
        ButtonStyle::Success => 3,
        ButtonStyle::Danger => 4,
        ButtonStyle::Link => 5,
    }
}

impl ButtonStyle {
    /// The wire number of the style.
    pub fn value(&self) -> (r: u32)
        ensures
            r == spec_button_style(*self),
    {
        match self {
            ButtonStyle::Primary => 1,
            ButtonStyle::Secondary => 2,
            ButtonStyle::Success => 3,
            ButtonStyle::Danger => 4,
            ButtonStyle::Link => 5,
        }
    }
}

/// Channel types.
#[derive(Debug, Clone, Copy, PartialEq, Eq, Structural)]
pub enum ChannelType {
    GuildText,
    DM,
    GuildVoice,
    GroupDm,
    GuildCategory,
    GuildAnnouncement,
    AnnouncementThread,
    PublicThread,
    PrivateThread,
    GuildStageVoice,
    GuildDirectory,
    GuildForum,
    GuildMedia,
}

pub open spec fn spec_channel_type(c: ChannelType) -> u32 {
    match c {
        ChannelType::GuildText => 0,
        ChannelType::DM => 1,
        ChannelType::GuildVoice => 2,
        ChannelType::GroupDm => 3,
        ChannelType::GuildCategory => 4,
        ChannelType::GuildAnnouncement => 5,
        ChannelType::AnnouncementThread => 10,
        ChannelType::PublicThread => 11,
        ChannelType::PrivateThread => 12,
        ChannelType::GuildStageVoice => 13,
        ChannelType::GuildDirectory => 14,
        ChannelType::GuildForum => 15,
        ChannelType::GuildMedia => 16,
    }
}

impl ChannelType {
    /// The wire number of the channel type.
    pub fn value(&self) -> (r: u32)
        ensures
            r == spec_channel_type(*self),
    {
        match self {
            ChannelType::GuildText => 0,
            ChannelType::DM => 1,
            ChannelType::GuildVoice => 2,
            ChannelType::GroupDm => 3,
            ChannelType::GuildCategory => 4,
            ChannelType::GuildAnnouncement => 5,
            ChannelType::AnnouncementThread => 10,
            ChannelType::PublicThread => 11,
            ChannelType::PrivateThread => 12,
            ChannelType::GuildStageVoice => 13,
            ChannelType::GuildDirectory => 14,
            ChannelType::GuildForum => 15,
            ChannelType::GuildMedia => 16,
        }
    }
}

/// Kinds of select menus.
#[derive(Debug, Clone, Copy, PartialEq, Eq, Structural)]
pub enum SelectMenuType {
    StringSelect,
    TextInput,
    UserSelect,
    RoleSelect,
    MentionableSelect,
    ChannelSelect,
}

pub open spec fn spec_select_menu_type(s: SelectMenuType) -> u32 {
    match s {
        SelectMenuType::StringSelect => 3,
        SelectMenuType::TextInput => 4,
        SelectMenuType::UserSelect => 5,
        SelectMenuType::RoleSelect => 6,
        SelectMenuType::MentionableSelect => 7,
        SelectMenuType::ChannelSelect => 8,
    }
}

impl SelectMenuType {
    /// The component type number of the menu.
    pub fn value(&self) -> (r: u32)
        ensures
            r == spec_select_menu_type(*self),
    {
        match self {
            SelectMenuType::StringSelect => 3,
            SelectMenuType::TextInput => 4,
            SelectMenuType::UserSelect => 5,
            SelectMenuType::RoleSelect => 6,
            SelectMenuType::MentionableSelect => 7,
            SelectMenuType::ChannelSelect => 8,
        }
    }
}

/// Kinds of interactions.
#[derive(Debug, Clone, Copy, PartialEq, Eq, Structural)]
pub enum InteractionType {
    Ping,
    ApplicationCommand,
    MessageComponent,
    ApplicationCommandAutocomplete,
    ModalSubmit,
}

pub open spec fn spec_interaction_type_of(n: u32) -> Option<InteractionType> {
    if n == 1 {
        Some(InteractionType::Ping)
    } else if n == 2 {
        Some(InteractionType::ApplicationCommand)
    } else if n == 3 {
        Some(InteractionType::MessageComponent)
    } else if n == 4 {
        Some(InteractionType::ApplicationCommandAutocomplete)
    } else if n == 5 {
        Some(InteractionType::ModalSubmit)
    } else {
        None
    }
}

impl InteractionType {
    /// Reads an interaction type from its wire number.
    pub fn from_u32(n: u32) -> (r: Option<InteractionType>)
        ensures
            r == spec_interaction_type_of(n),
    {
        if n == 1 {
            Some(InteractionType::Ping)
        } else if n == 2 {
            Some(InteractionType::ApplicationCommand)
        } else if n == 3 {
            Some(InteractionType::MessageComponent)
        } else if n == 4 {
            Some(InteractionType::ApplicationCommandAutocomplete)
        } else if n == 5 {
            Some(InteractionType::ModalSubmit)
        } else {
            None
        }
    }
}

/// Where an interaction may be used.
#[derive(Debug, Clone, Copy, PartialEq, Eq, Structural)]
pub enum InteractionContextType {
    Guild,
    BotDm,
    PrivateChanne,
}

/// Kinds of interaction responses.
#[derive(Debug, Clone, Copy, PartialEq, Eq, Structural)]
pub enum InteractionCallbackType {
    Pong,
    ChannelMessageWithSource,
    DeferredChannelMessageWithSource,
    DeferredUpdateMessage,
    UpdateMessage,
    ApplicationCommandAutocompleteResult,
    Modal,
    PremiumRequired,
}

pub open spec fn spec_callback_type(c: InteractionCallbackType) -> u32 {
    match c {
        InteractionCallbackType::Pong => 1,
        InteractionCallbackType::ChannelMessageWithSource => 4,
        InteractionCallbackType::DeferredChannelMessageWithSource => 5,
        InteractionCallbackType::DeferredUpdateMessage => 6,
        InteractionCallbackType::UpdateMessage => 7,
        InteractionCallbackType::ApplicationCommandAutocompleteResult => 8,
        InteractionCallbackType::Modal => 9,
        InteractionCallbackType::PremiumRequired => 10,
    }
}

impl InteractionCallbackType {
    /// The wire number of the response kind.
    pub fn value(&self) -> (r: u32)
        ensures
            r == spec_callback_type(*self),
    {
        match self {
            InteractionCallbackType::Pong => 1,
            InteractionCallbackType::ChannelMessageWithSource => 4,
            InteractionCallbackType::DeferredChannelMessageWithSource => 5,
            InteractionCallbackType::DeferredUpdateMessage => 6,
            InteractionCallbackType::UpdateMessage => 7,
            InteractionCallbackType::ApplicationCommandAutocompleteResult => 8,
            InteractionCallbackType::Modal => 9,
            InteractionCallbackType::PremiumRequired => 10,
        }
    }
}

/// Embed colors: a named color or an RGB triple.
#[derive(Debug, Clone, Copy, PartialEq, Eq, Structural)]
pub enum Color {
    Rgb(u8, u8, u8),
    Black,
    Red,
    Green,
    Blue,
    Yellow,
    Orange,
    Purple,
    Cyan,
    Magenta,
    Pink,
    Teal,
    Brown,
    Navy,
    Maroon,
    Olive,
    Silver,
    Gold,
    White,
}

/// The 24-bit RGB value of a color.
pub open spec fn spec_color(c: Color) -> u32 {
    match c {
        Color::Rgb(r, g, b) => (r as u32 * 0x10000 + g as u32 * 0x100 + b as u32) as u32,
        Color::Red => 0xFF0000,
        Color::Green => 0x00FF00,
        Color::Blue => 0x0000FF,
        Color::Yellow => 0xFFFF00,
        Color::Orange => 0xFFA500,
        Color::Purple => 0x800080,
        Color::Cyan => 0x00FFFF,
        Color::Magenta => 0xFF00FF,
        Color::Pink => 0xFFC0CB,
        Color::Teal => 0x008080,
        Color::Brown => 0xA52A2A,
        Color::Navy => 0x000080,
        Color::Maroon => 0x800000,
        Color::Olive => 0x808000,
        Color::Silver => 0xC0C0C0,
        Color::Gold => 0xFFD700,
        Color::White => 0xFFFFFF,
        Color::Black => 0x000000,
    }
}

impl Color {
    /// The 24-bit RGB value of the color.
    pub fn into_u32(self) -> (r: u32)
        ensures
            r == spec_color(self),
    {
        match self {
            Color::Rgb(r, g, b) => (r as u32) * 0x10000 + (g as u32) * 0x100 + b as u32,
            Color::Red => 0xFF0000,
            Color::Green => 0x00FF00,
            Color::Blue => 0x0000FF,
            Color::Yellow => 0xFFFF00,
            Color::Orange => 0xFFA500,
            Color::Purple => 0x800080,
            Color::Cyan => 0x00FFFF,
            Color::Magenta => 0xFF00FF,
            Color::Pink => 0xFFC0CB,
            Color::Teal => 0x008080,
            Color::Brown => 0xA52A2A,
            Color::Navy => 0x000080,
            Color::Maroon => 0x800000,
            Color::Olive => 0x808000,
            Color::Silver => 0xC0C0C0,
            Color::Gold => 0xFFD700,
            Color::White => 0xFFFFFF,
            Color::Black => 0x000000,
        }
    }
}

} // verus!
