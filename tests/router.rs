use descord::args::ParamType;
use descord::router::{first_word_of, help_embed, permitted, route, CommandInfo, CommandSpec, Registry, Route, SlashCommandInfo, SlashSpec};

fn registry() -> Registry {
    Registry {
        events: vec!["MESSAGE_CREATE".to_string(), "GUILD_CREATE".to_string(), "INTERACTION_CREATE".to_string()],
        commands: vec![CommandSpec { name: "!echo".to_string(), params: vec![ParamType::Args], optional: vec![false], permissions: 0 }],
        slash_commands: vec![SlashSpec {
            id: "777".to_string(),
            name: "avatar".to_string(),
            params: vec![ParamType::User, ParamType::String],
            optional: vec![false, true],
        }],
        components: vec!["btn1".to_string()],
    }
}

#[test]
fn message_routes() {
    let reg = registry();
    let r = route(&reg, "MESSAGE_CREATE", r#"{"id":"1","channel_id":"2","content":"!echo hi there"}"#);
    assert!(matches!(r, Route::Command { index: 0, ref tokens, .. } if tokens.len() == 3));
    let r = route(&reg, "MESSAGE_CREATE", r#"{"id":"1","channel_id":"2","content":"hello"}"#);
    assert!(matches!(r, Route::Event));
    assert!(matches!(route(&reg, "GUILD_CREATE", "{}"), Route::Event));
    assert!(matches!(route(&reg, "TYPING_START", "{}"), Route::Ignore));
}

#[test]
fn interaction_routes() {
    let reg = registry();
    let slash = r#"{"type":2,"data":{"id":"777","options":[{"name":"u","value":"42"},{"name":"n","value":7}]}}"#;
    match route(&reg, "INTERACTION_CREATE", slash) {
        Route::SlashCommand { index, values } => {
            assert_eq!(index, 0);
            assert_eq!(values, vec!["42".to_string(), "7".to_string()]);
        }
        _ => panic!("expected a slash command"),
    }
    let comp = r#"{"type":3,"data":{"custom_id":"btn1"}}"#;
    assert!(matches!(route(&reg, "INTERACTION_CREATE", comp), Route::Component { index: 0 }));
    let auto = r#"{"type":4,"data":{"id":"777","options":[{"value":"a"},{"value":"bo","focused":true}]}}"#;
    assert!(matches!(route(&reg, "INTERACTION_CREATE", auto), Route::Autocomplete { index: 0, option: 1, ref value } if value == "bo"));
    let unknown = r#"{"type":2,"data":{"id":"1"}}"#;
    assert!(matches!(route(&reg, "INTERACTION_CREATE", unknown), Route::Event));
}

#[test]
fn first_word_and_permissions() {
    assert_eq!(first_word_of("!echo a b"), "!echo");
    assert_eq!(first_word_of("solo"), "solo");
    assert_eq!(first_word_of(""), "");
    assert!(permitted(0b111, 0b101));
    assert!(!permitted(0b011, 0b101));
    assert!(permitted(0, 0));
}

#[test]
fn registry_check_and_help() {
    use_registry_check();
    let cmds = vec![CommandInfo { name: "!ping".to_string(), description: "Pong".to_string(), params: vec![] }];
    let slash = vec![SlashCommandInfo { name: "avatar".to_string(), description: "Shows an avatar".to_string(), params: vec![] }];
    let e = help_embed("!", &cmds, &slash);
    assert_eq!(e.title.as_deref(), Some("Help has arrived!"));
    assert_eq!(e.color, Some(0x00FF00));
    assert_eq!(e.fields[0].name, "Message Commands");
    assert_eq!(e.fields[0].value, "`!help` - Sends this help message\n`!ping` - Pong");
    assert_eq!(e.fields[1].value, "`/avatar` - Shows an avatar\n");
}

fn use_registry_check() {
    let mut reg = registry();
    assert!(reg.check());
    reg.commands[0].optional.push(true);
    assert!(!reg.check());
}
