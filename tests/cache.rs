use descord::cache::EventCache;

fn pairs(v: &[(&str, &str)]) -> Vec<(String, String)> {
    v.iter().map(|(a, b)| (a.to_string(), b.to_string())).collect()
}

#[test]
fn deleted_message_comes_back_from_cache() {
    let mut c = EventCache::new();
    let msg = r#"{"id":"m1","content":"hi"}"#;
    assert_eq!(c.observe("MESSAGE_CREATE", msg), pairs(&[("MESSAGE_CREATE", msg)]));
    let del = r#"{"id":"m1","channel_id":"c"}"#;
    assert_eq!(c.observe("MESSAGE_DELETE", del), pairs(&[("MESSAGE_DELETE_RAW", del), ("MESSAGE_DELETE", msg)]));
    assert_eq!(c.observe("MESSAGE_DELETE", del), pairs(&[("MESSAGE_DELETE_RAW", del)]));
}

#[test]
fn edited_message_replaces_cached_one() {
    let mut c = EventCache::new();
    c.observe("MESSAGE_CREATE", r#"{"id":"m1","content":"a"}"#);
    let edited = r#"{"id":"m1","content":"b"}"#;
    c.observe("MESSAGE_UPDATE", edited);
    let out = c.observe("MESSAGE_DELETE", r#"{"id":"m1"}"#);
    assert_eq!(out[1].1, edited);
}

#[test]
fn roles_and_other_events_pass_through() {
    let mut c = EventCache::new();
    let role = r#"{"guild_id":"g","role":{"id":"r1","permissions":"8"}}"#;
    assert_eq!(c.observe("GUILD_ROLE_CREATE", role), pairs(&[("GUILD_ROLE_CREATE", role)]));
    let del = r#"{"guild_id":"g","role_id":"r1"}"#;
    assert_eq!(c.observe("GUILD_ROLE_DELETE", del), pairs(&[("GUILD_ROLE_DELETE", del)]));
    assert_eq!(c.observe("TYPING_START", "{}"), pairs(&[("TYPING_START", "{}")]));
}
