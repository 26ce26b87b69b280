use descord::models::channel::Overwrite;
use descord::permissions::{compute_permissions, guild_role_bits, timed_out, ADMINISTRATOR, ALL_PERMISSIONS, READ_MESSAGE_HISTORY, VIEW_CHANNEL};

fn ow(id: &str, kind: u32, allow: u64, deny: u64) -> Overwrite {
    Overwrite { id: id.to_string(), overwrite_type: kind, allow: allow.to_string(), deny: deny.to_string() }
}

#[test]
fn default_role_only() {
    let p = compute_permissions("m1", "owner", &vec![], "guild", 0x0000_0C00, &vec![], &vec![], false);
    assert_eq!(p, 0x0000_0C00);
}

#[test]
fn deny_overwrite_on_default_role_clears_bits() {
    let ows = vec![ow("guild", 0, 0, 0x800)];
    let p = compute_permissions("m1", "owner", &vec![], "guild", 0x0000_0C00, &vec![], &ows, false);
    assert_eq!(p, 0x400);
}

#[test]
fn administrator_short_circuits() {
    let ows = vec![ow("guild", 0, 0, u64::MAX), ow("m1", 1, 0, u64::MAX)];
    let p = compute_permissions("m1", "owner", &vec!["r1".to_string()], "guild", 0x400, &vec![ADMINISTRATOR], &ows, true);
    assert_eq!(p, ALL_PERMISSIONS);
    let p = compute_permissions("m1", "owner", &vec![], "guild", ADMINISTRATOR | 1, &vec![], &ows, false);
    assert_eq!(p, ALL_PERMISSIONS);
}

#[test]
fn owner_has_everything() {
    let p = compute_permissions("owner", "owner", &vec![], "guild", 0, &vec![], &vec![], false);
    assert_eq!(p, ALL_PERMISSIONS);
}

#[test]
fn member_overwrite_wins_over_role_overwrite() {
    let roles = vec!["r1".to_string()];
    let ows = vec![ow("m1", 1, 0x2, 0), ow("r1", 0, 0, 0x2), ow("r2", 0, 0x4, 0)];
    let p = compute_permissions("m1", "owner", &roles, "guild", 0x1, &vec![0x2], &ows, false);
    assert_eq!(p, 0x3);
}

#[test]
fn unreadable_overwrite_bits_count_as_none() {
    let ows = vec![Overwrite { id: "guild".to_string(), overwrite_type: 0, allow: "x".to_string(), deny: "".to_string() }];
    let p = compute_permissions("m1", "owner", &vec![], "guild", 0x7, &vec![], &ows, false);
    assert_eq!(p, 0x7);
}

#[test]
fn time_out_keeps_viewing_only() {
    let all = VIEW_CHANNEL | READ_MESSAGE_HISTORY | 0x800;
    let p = compute_permissions("m1", "owner", &vec![], "guild", all, &vec![], &vec![], true);
    assert_eq!(p, VIEW_CHANNEL | READ_MESSAGE_HISTORY);
}

#[test]
fn time_out_end_is_read() {
    let end = "2020-01-01T00:00:00+00:00";
    assert!(timed_out(Some(end), 1_500_000_000_000));
    assert!(!timed_out(Some(end), 1_600_000_000_000));
    assert!(!timed_out(Some("yesterday"), 0));
    assert!(!timed_out(None, 0));
}

#[test]
fn member_without_id_has_nothing() {
    assert_eq!(compute_permissions("", "owner", &vec![], "guild", 0x1, &vec![], &vec![], false), 0);
    assert_eq!(compute_permissions("", "", &vec![], "guild", 0x1, &vec![ADMINISTRATOR], &vec![], false), 0);
}

#[test]
fn guild_roles_are_picked() {
    let roles = vec![
        ("guild".to_string(), "1024".to_string()),
        ("r1".to_string(), "2".to_string()),
        ("r2".to_string(), "4".to_string()),
        ("r3".to_string(), "oops".to_string()),
    ];
    let member = vec!["r1".to_string(), "r3".to_string()];
    let (everyone, bits) = guild_role_bits("guild", &member, &roles);
    assert_eq!(everyone, 1024);
    assert_eq!(bits, vec![2, 0]);
    let (everyone, bits) = guild_role_bits("other", &vec![], &roles);
    assert_eq!(everyone, 0);
    assert!(bits.is_empty());
}
