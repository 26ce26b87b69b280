use descord::args::{DescordError, ParamType};
use descord::consts::{ButtonStyle, ChannelType, Color, ComponentType, ImageFormat, InteractionCallbackType, InteractionType, SelectMenuType};
use descord::models::attachment::AttachmentPayload;
use descord::models::author::Author;
use descord::models::component_builder::ComponentBuilder;
use descord::models::components::{ButtonObject, SelectObject};
use descord::models::embed::EmbedField;
use descord::models::embed_builder::EmbedBuilder;
use descord::models::emoji::Emoji;
use descord::models::interaction::{InteractionAutoCompleteChoice, InteractionAutoCompleteChoices};
use descord::models::message_response::CreateMessageData;
use descord::slash_sync::{map_param_type_to_u32, plan_sync, CommandOption, LocalCommand, RegisteredCommand, SyncAction};

#[test]
fn embed_builder_sets_fields() {
    let e = EmbedBuilder::new()
        .title("T")
        .description("D")
        .color(Color::Rgb(1, 2, 3))
        .field("a", "b", true)
        .fields(vec![EmbedField { name: "c".to_string(), value: "d".to_string(), inline: false }])
        .build();
    assert_eq!(e.title.as_deref(), Some("T"));
    assert_eq!(e.description.as_deref(), Some("D"));
    assert_eq!(e.color, Some(0x010203));
    assert_eq!(e.fields.len(), 2);
    assert_eq!(e.fields[0].name, "a");
    assert_eq!(e.fields[1].value, "d");
}

#[test]
fn colors() {
    assert_eq!(Color::Red.into_u32(), 0xFF0000);
    assert_eq!(Color::Gold.into_u32(), 0xFFD700);
    assert_eq!(Color::Black.into_u32(), 0);
    assert_eq!(Color::Rgb(255, 255, 255).into_u32(), 0xFFFFFF);
    assert_eq!(ButtonStyle::Link.value(), 5);
    assert_eq!(ChannelType::GuildMedia.value(), 16);
    assert_eq!(SelectMenuType::ChannelSelect.value(), 8);
}

#[test]
fn link_buttons_are_checked() {
    let ok = ButtonObject { style: 1, label: Some("hi".to_string()), emoji: None, custom_id: Some("b".to_string()), url: None, disabled: false };
    let c = ComponentBuilder::button(ok).unwrap();
    assert_eq!(c.type_, 2);
    assert_eq!(c.style, Some(1));
    assert_eq!(c.custom_id.as_deref(), Some("b"));
    let bad = ButtonObject { style: 5, label: None, emoji: None, custom_id: Some("b".to_string()), url: None, disabled: false };
    assert_eq!(ComponentBuilder::button(bad).err(), Some("Link buttons cannot have a custom id"));
    let bad = ButtonObject { style: 5, label: None, emoji: None, custom_id: None, url: None, disabled: false };
    assert_eq!(ComponentBuilder::button(bad).err(), Some("Link buttons must have a url"));
}

#[test]
fn select_menus_are_checked() {
    let s = SelectObject {
        select_type: SelectMenuType::ChannelSelect,
        custom_id: "s".to_string(),
        options: None,
        channel_types: Some(vec![ChannelType::GuildText, ChannelType::GuildForum]),
        placeholder: None,
        default_values: None,
        min_values: Some(1),
        max_values: Some(25),
        disabled: false,
    };
    let c = ComponentBuilder::select(s).unwrap();
    assert_eq!(c.type_, 8);
    assert_eq!(c.channel_types, Some(vec![0, 15]));
    let s = SelectObject {
        select_type: SelectMenuType::StringSelect,
        custom_id: "s".to_string(),
        options: None,
        channel_types: None,
        placeholder: None,
        default_values: None,
        min_values: None,
        max_values: Some(26),
        disabled: false,
    };
    assert_eq!(ComponentBuilder::select(s).err(), Some("Min and max values should be in the range 0 to 25"));
}

#[test]
fn emoji_text() {
    let e = Emoji::parse(":star:");
    assert_eq!(e.name, "star");
    assert_eq!(e.id, None);
    let e = Emoji::parse("<:blob:1234>");
    assert_eq!(e.name, "blob");
    assert_eq!(e.id.as_deref(), Some("1234"));
    let e = Emoji::parse("<a:wave:55>");
    assert_eq!(e.name, "a");
    assert_eq!(e.id.as_deref(), Some("wave:55"));
    assert_eq!(Emoji::parse("::").name, "");
}

#[test]
fn avatar_urls() {
    let a = Author {
        username: "u".to_string(),
        user_id: "42".to_string(),
        global_name: None,
        discriminator: "0".to_string(),
        application_id: None,
        avatar_hash: Some("h".to_string()),
        bot: false,
    };
    assert_eq!(a.get_avatar_url(ImageFormat::Png, Some(128)).as_deref(), Some("https://cdn.discordapp.com/avatars/42/h.png?size=128"));
    assert_eq!(a.get_avatar_url(ImageFormat::WebP, None).as_deref(), Some("https://cdn.discordapp.com/avatars/42/h.webp"));
    let b = Author { avatar_hash: None, ..a };
    assert_eq!(b.get_avatar_url(ImageFormat::Gif, None), None);
    assert_eq!(ImageFormat::Lottie.get_extension(), ".json");
}

#[test]
fn small_constructors() {
    let p = AttachmentPayload::new("a.txt", "/tmp/a.txt", "text/plain");
    assert_eq!(p.file_name, "a.txt");
    assert_eq!(p.file_path, "/tmp/a.txt");
    assert_eq!(p.mime_type, "text/plain");
    let c = InteractionAutoCompleteChoices::new(vec![InteractionAutoCompleteChoice { name: "x".to_string(), value: "x".to_string() }]);
    assert_eq!(c.type_, 8);
    assert_eq!(c.data.unwrap().choices.len(), 1);
}

#[test]
fn components_become_action_rows() {
    let b = ComponentBuilder::button(ButtonObject { style: 1, label: None, emoji: None, custom_id: Some("x".to_string()), url: None, disabled: false }).unwrap();
    let m = CreateMessageData {
        content: "hi".to_string(),
        tts: false,
        embeds: vec![],
        allowed_mentions: None,
        flags: None,
        components: vec![],
        attachments: vec![],
    };
    let m = m.add_components(vec![vec![b], vec![]]);
    assert_eq!(m.content, "hi");
    assert_eq!(m.components.len(), 2);
    assert_eq!(m.components[0].type_, 1);
    assert_eq!(m.components[0].components.as_ref().unwrap().len(), 1);
    assert_eq!(m.components[1].components.as_ref().unwrap().len(), 0);
}

fn opt(name: &str, t: u32) -> CommandOption {
    CommandOption { name: name.to_string(), description: "d".to_string(), option_type: t, required: true, autocomplete: false }
}

#[test]
fn slash_command_sync_plan() {
    assert_eq!(map_param_type_to_u32(&ParamType::User), 6);
    assert_eq!(map_param_type_to_u32(&ParamType::Bool), 3);
    let local = vec![
        LocalCommand { name: "same".to_string(), options: vec![opt("a", 3)] },
        LocalCommand { name: "changed".to_string(), options: vec![opt("a", 4)] },
        LocalCommand { name: "new".to_string(), options: vec![] },
    ];
    let reg = vec![
        RegisteredCommand { id: "1".to_string(), name: "same".to_string(), options: vec![opt("a", 3)] },
        RegisteredCommand { id: "2".to_string(), name: "changed".to_string(), options: vec![opt("a", 3)] },
        RegisteredCommand { id: "3".to_string(), name: "gone".to_string(), options: vec![] },
    ];
    let plan = plan_sync(&local, &reg);
    assert_eq!(plan.len(), 4);
    assert!(matches!(&plan[0], SyncAction::Keep { local: 0, id } if id == "1"));
    assert!(matches!(&plan[1], SyncAction::Update { local: 1, id } if id == "2"));
    assert!(matches!(&plan[2], SyncAction::Create { local: 2 }));
    assert!(matches!(&plan[3], SyncAction::Delete { id } if id == "3"));
}

#[test]
fn wire_numbers() {
    assert_eq!(ComponentType::ActionRow.value(), 1);
    assert_eq!(ComponentType::ChannelSelect.value(), 8);
    assert_eq!(InteractionCallbackType::ApplicationCommandAutocompleteResult.value(), 8);
    assert_eq!(InteractionCallbackType::Pong.value(), 1);
    assert_eq!(InteractionType::from_u32(2), Some(InteractionType::ApplicationCommand));
    assert_eq!(InteractionType::from_u32(0), None);
    assert_eq!(InteractionType::from_u32(6), None);
}

#[test]
fn error_messages() {
    assert_eq!(DescordError::InvalidArgument("add".to_string()).message(), "Invalid argument for command: add");
    assert_eq!(DescordError::NotFound("5".to_string()).message(), "Not found: 5");
}

#[test]
fn autocomplete_keeps_first_25() {
    let many: Vec<String> = (0..30).map(|i| format!("s{i}")).collect();
    let c = InteractionAutoCompleteChoices::from_suggestions(&many);
    assert_eq!(c.type_, 8);
    let d = c.data.unwrap();
    assert_eq!(d.choices.len(), 25);
    assert_eq!(d.choices[24].name, "s24");
    assert_eq!(d.choices[24].value, "s24");
    let few = vec!["a".to_string()];
    assert_eq!(InteractionAutoCompleteChoices::from_suggestions(&few).data.unwrap().choices.len(), 1);
}
