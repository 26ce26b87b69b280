use vstd::prelude::*;
use vstd::string::*;

use crate::models::channel::Overwrite;
use crate::text::{chars_of, parse_u64, spec_parse_u64, str_eq, strings_view};

verus! {

/// Every permission, granted by ownership or by the administrator bit.
pub const ALL_PERMISSIONS: u64 = 0xFFFF_FFFF_FFFF_FFFF;
pub const ADMINISTRATOR: u64 = 0x8;
pub const VIEW_CHANNEL: u64 = 0x400;
pub const READ_MESSAGE_HISTORY: u64 = 0x10000;

/// The overwrite kind that targets a role.
pub const OVERWRITE_ROLE: u32 = 0;
/// The overwrite kind that targets one member.
pub const OVERWRITE_MEMBER: u32 = 1;

/// An overwrite with its bit sets read.
pub struct OverwriteView {
    pub id: Seq<char>,
    pub kind: u32,
    pub allow: u64,
    pub deny: u64,
}

/// A permission bit set written in decimal; unreadable text grants nothing.
pub open spec fn spec_bits(s: Seq<char>) -> u64 {
    match spec_parse_u64(s) {
        Some(n) => n,
        None => 0,
    }
}

impl View for Overwrite {
    type V = OverwriteView;

    open spec fn view(&self) -> OverwriteView {
        OverwriteView {
            id: self.id@,
            kind: self.overwrite_type,
            allow: spec_bits(self.allow@),
            deny: spec_bits(self.deny@),
        }
    }
}

/// Reads a decimal permission bit set; unreadable text gives 0.
pub fn parse_bits(s: &String) -> (r: u64)
    ensures
        r == spec_bits(s@),
{
    let v = chars_of(s.as_str());
    assert(v@.subrange(0, v@.len() as int) =~= v@);
    match parse_u64(&v, 0, v.len()) {
        Some(n) => n,
        None => 0,
    }
}

/// The union of a list of bit sets.
pub open spec fn union_all(perms: Seq<u64>) -> u64
    decreases perms.len(),
{
    if perms.len() == 0 {
        0
    } else {
        union_all(perms.drop_last()) | perms.last()
    }
}

/// The passes in which overwrites apply: the default role's first, then the member's
/// other roles', then the member's own, so that a later pass wins over an earlier one.
pub open spec fn applies(
    o: OverwriteView,
    pass: int,
    member_id: Seq<char>,
    roles: Seq<Seq<char>>,
    everyone_id: Seq<char>,
) -> bool {
    if pass == 0 {
        o.kind == OVERWRITE_ROLE && o.id == everyone_id
    } else if pass == 1 {
        o.kind == OVERWRITE_ROLE && o.id != everyone_id && roles.contains(o.id)
    } else {
        o.kind == OVERWRITE_MEMBER && o.id == member_id
    }
}

/// Applies, in list order, the overwrites of one pass: deny bits are cleared, then allow
/// bits set.
pub open spec fn apply_pass(
    base: u64,
    ows: Seq<OverwriteView>,
    pass: int,
    member_id: Seq<char>,
    roles: Seq<Seq<char>>,
    everyone_id: Seq<char>,
) -> u64
    decreases ows.len(),
{
    if ows.len() == 0 {
        base
    } else {
        let b = apply_pass(base, ows.drop_last(), pass, member_id, roles, everyone_id);
        let o = ows.last();
        if applies(o, pass, member_id, roles, everyone_id) {
            (b & !o.deny) | o.allow
        } else {
            b
        }
    }
}

pub open spec fn apply_overwrites(
    base: u64,
    ows: Seq<OverwriteView>,
    member_id: Seq<char>,
    roles: Seq<Seq<char>>,
    everyone_id: Seq<char>,
) -> u64 {
    apply_pass(
        apply_pass(apply_pass(base, ows, 0, member_id, roles, everyone_id), ows, 1, member_id, roles, everyone_id),
        ows,
        2,
        member_id,
        roles,
        everyone_id,
    )
}

/// A member's effective permissions in a channel. A member without an id has none. The
/// guild owner has every permission.
/// Otherwise the default role's bits and those of the member's roles are united; the
/// administrator bit there grants every permission; else the channel's overwrites apply, and
/// a member in time-out keeps only the right to view the channel and read its history.
pub open spec fn spec_permissions(
    member_id: Seq<char>,
    owner_id: Seq<char>,
    roles: Seq<Seq<char>>,
    everyone_id: Seq<char>,
    everyone: u64,
    role_perms: Seq<u64>,
    ows: Seq<OverwriteView>,
    timed_out: bool,
) -> u64 {
    if member_id.len() == 0 {
        0
    } else if member_id == owner_id {
        ALL_PERMISSIONS
    } else {
        let base = everyone | union_all(role_perms);
        if base & ADMINISTRATOR == ADMINISTRATOR {
            ALL_PERMISSIONS
        } else {
            let p = apply_overwrites(base, ows, member_id, roles, everyone_id);
            if timed_out {
                p & (VIEW_CHANNEL | READ_MESSAGE_HISTORY)
            } else {
                p
            }
        }
    }
}

pub open spec fn overwrites_view(v: Seq<Overwrite>) -> Seq<OverwriteView> {
    v.map_values(|o: Overwrite| o@)
}

fn contains_str(v: &Vec<String>, s: &String) -> (r: bool)
    ensures
        r == strings_view(v@).contains(s@),
{
    let mut i: usize = 0;
    while i < v.len()
        invariant
            i <= v@.len(),
            forall|k: int| 0 <= k < i ==> v@[k]@ != s@,
        decreases v@.len() - i,
    {
        if str_eq(v[i].as_str(), s.as_str()) {
            assert(strings_view(v@)[i as int] == s@);
            return true;
        }
        i = i + 1;
    }
    assert forall|k: int| 0 <= k < strings_view(v@).len() implies strings_view(v@)[k] != s@ by {}
    false
}

fn applies_exec(o: &Overwrite, pass: u8, member_id: &str, roles: &Vec<String>, everyone_id: &str) -> (r: bool)
    requires
        pass <= 2,
    ensures
        r == applies(o@, pass as int, member_id@, strings_view(roles@), everyone_id@),
{
    if pass == 0 {
        o.overwrite_type == OVERWRITE_ROLE && str_eq(o.id.as_str(), everyone_id)
    } else if pass == 1 {
        o.overwrite_type == OVERWRITE_ROLE && !str_eq(o.id.as_str(), everyone_id) && contains_str(roles, &o.id)
    } else {
        o.overwrite_type == OVERWRITE_MEMBER && str_eq(o.id.as_str(), member_id)
    }
}

fn run_pass(base: u64, ows: &Vec<Overwrite>, pass: u8, member_id: &str, roles: &Vec<String>, everyone_id: &str) -> (r: u64)
    requires
        pass <= 2,
    ensures
        r == apply_pass(base, overwrites_view(ows@), pass as int, member_id@, strings_view(roles@), everyone_id@),
{
    let mut p = base;
    let mut i: usize = 0;
    while i < ows.len()
        invariant
            i <= ows@.len(),
            pass <= 2,
            p == apply_pass(base, overwrites_view(ows@).subrange(0, i as int), pass as int, member_id@, strings_view(roles@), everyone_id@),
        decreases ows@.len() - i,
    {
        let o = &ows[i];
        assert(overwrites_view(ows@).subrange(0, i + 1).drop_last() =~= overwrites_view(ows@).subrange(0, i as int));
        if applies_exec(o, pass, member_id, roles, everyone_id) {
            let deny = parse_bits(&o.deny);
            let allow = parse_bits(&o.allow);
            p = (p & !deny) | allow;
        }
        i = i + 1;
    }
    assert(overwrites_view(ows@).subrange(0, ows@.len() as int) =~= overwrites_view(ows@));
    p
}

/// Computes a member's effective permissions in a channel. `role_perms` holds the bits of
/// the member's roles that could be looked up; `timed_out` says whether the member is in
/// time-out now.
pub fn compute_permissions(
    member_id: &str,
    owner_id: &str,
    roles: &Vec<String>,
    everyone_id: &str,
    everyone: u64,
    role_perms: &Vec<u64>,
    overwrites: &Vec<Overwrite>,
    timed_out: bool,
) -> (r: u64)
    ensures
        r == spec_permissions(
            member_id@,
            owner_id@,
            strings_view(roles@),
            everyone_id@,
            everyone,
            role_perms@,
            overwrites_view(overwrites@),
            timed_out,
        ),
        member_id@.len() == 0 ==> r == 0,
{
    if member_id.unicode_len() == 0 {
        return 0;
    }
    if str_eq(member_id, owner_id) {
        return ALL_PERMISSIONS;
    }
    let mut u: u64 = 0;
    let mut i: usize = 0;
    while i < role_perms.len()
        invariant
            i <= role_perms@.len(),
            u == union_all(role_perms@.subrange(0, i as int)),
        decreases role_perms@.len() - i,
    {
        assert(role_perms@.subrange(0, i + 1).drop_last() =~= role_perms@.subrange(0, i as int));
        u = u | role_perms[i];
        i = i + 1;
    }
    assert(role_perms@.subrange(0, role_perms@.len() as int) =~= role_perms@);
    let base = everyone | u;
    if base & ADMINISTRATOR == ADMINISTRATOR {
        return ALL_PERMISSIONS;
    }
    let p0 = run_pass(base, overwrites, 0, member_id, roles, everyone_id);
    let p1 = run_pass(p0, overwrites, 1, member_id, roles, everyone_id);
    let p2 = run_pass(p1, overwrites, 2, member_id, roles, everyone_id);
    if timed_out {
        p2 & (VIEW_CHANNEL | READ_MESSAGE_HISTORY)
    } else {
        p2
    }
}

/// A bit set in one of the sets is set in their union.
pub proof fn lemma_union_keeps_bits(perms: Seq<u64>, i: int, mask: u64)
    requires
        0 <= i < perms.len(),
        perms[i] & mask == mask,
    ensures
        union_all(perms) & mask == mask,
    decreases perms.len(),
{
    let u = union_all(perms.drop_last());
    let l = perms.last();
    if i == perms.len() - 1 {
        assert((u | l) & mask == mask) by (bit_vector)
            requires
                l & mask == mask;
    } else {
        lemma_union_keeps_bits(perms.drop_last(), i, mask);
        assert((u | l) & mask == mask) by (bit_vector)
            requires
                u & mask == mask;
    }
}

/// A member who holds only the guild's default role, in a channel without overwrites,
/// has exactly the default role's permissions (unless these include the administrator bit).
pub proof fn lemma_default_role_only(
    member_id: Seq<char>,
    owner_id: Seq<char>,
    everyone_id: Seq<char>,
    everyone: u64,
)
    requires
        member_id.len() > 0,
        member_id != owner_id,
        everyone & ADMINISTRATOR != ADMINISTRATOR,
    ensures
        spec_permissions(member_id, owner_id, seq![], everyone_id, everyone, seq![], seq![], false)
            == everyone,
{
    assert(everyone | 0 == everyone) by (bit_vector);
}

/// For such a member, a channel overwrite that denies bits to the default role clears
/// exactly those bits.
pub proof fn lemma_default_role_deny(
    member_id: Seq<char>,
    owner_id: Seq<char>,
    everyone_id: Seq<char>,
    everyone: u64,
    deny: u64,
)
    requires
        member_id.len() > 0,
        member_id != owner_id,
        everyone & ADMINISTRATOR != ADMINISTRATOR,
    ensures
        spec_permissions(
            member_id,
            owner_id,
            seq![],
            everyone_id,
            everyone,
            seq![],
            seq![OverwriteView { id: everyone_id, kind: OVERWRITE_ROLE, allow: 0, deny: deny }],
            false,
        ) == everyone & !deny,
{
    let ows = seq![OverwriteView { id: everyone_id, kind: OVERWRITE_ROLE, allow: 0, deny: deny }];
    assert(everyone | 0 == everyone) by (bit_vector);
    assert((everyone & !deny) | 0 == everyone & !deny) by (bit_vector);
    assert(ows.drop_last() =~= seq![]);
    let roles: Seq<Seq<char>> = seq![];
    assert(!roles.contains(everyone_id));
    let e: Seq<OverwriteView> = seq![];
    let base = everyone | union_all(seq![]);
    assert(base == everyone);
    assert(apply_pass(base, e, 0, member_id, roles, everyone_id) == everyone);
    assert(applies(ows.last(), 0, member_id, roles, everyone_id));
    let p0 = apply_pass(base, ows, 0, member_id, roles, everyone_id);
    assert(p0 == (everyone & !deny) | 0);
    assert(p0 == everyone & !deny);
    assert(apply_pass(p0, ows, 1, member_id, roles, everyone_id) == apply_pass(p0, e, 1, member_id, roles, everyone_id));
    assert(apply_pass(p0, ows, 2, member_id, roles, everyone_id) == apply_pass(p0, e, 2, member_id, roles, everyone_id));
}

/// The administrator bit on the default role or on any of the member's roles grants a
/// member (one with an id) every permission, whatever the channel's overwrites and time-out say.
pub proof fn lemma_administrator_grants_all(
    member_id: Seq<char>,
    owner_id: Seq<char>,
    roles: Seq<Seq<char>>,
    everyone_id: Seq<char>,
    everyone: u64,
    role_perms: Seq<u64>,
    ows: Seq<OverwriteView>,
    timed_out: bool,
    i: int,
)
    requires
        member_id.len() > 0,
        everyone & ADMINISTRATOR == ADMINISTRATOR || (0 <= i < role_perms.len()
            && role_perms[i] & ADMINISTRATOR == ADMINISTRATOR),
    ensures
        spec_permissions(member_id, owner_id, roles, everyone_id, everyone, role_perms, ows, timed_out)
            == ALL_PERMISSIONS,
{
    let u = union_all(role_perms);
    if everyone & ADMINISTRATOR == ADMINISTRATOR {
        assert((everyone | u) & 0x8 == 0x8) by (bit_vector)
            requires
                everyone & 0x8 == 0x8;
    } else {
        lemma_union_keeps_bits(role_perms, i, ADMINISTRATOR);
        assert((everyone | u) & 0x8 == 0x8) by (bit_vector)
            requires
                u & 0x8 == 0x8;
    }
}

/// The instant (ms since the epoch) an RFC 3339 date-time text names.
pub uninterp spec fn rfc3339_millis(s: Seq<char>) -> Option<i64>;

/// Relies on chrono's `DateTime::parse_from_rfc3339` and `timestamp_millis`: the instant
/// the text names, or `None` when it is not RFC 3339.
#[verifier::external_body]
fn parse_rfc3339_millis(s: &str) -> (r: Option<i64>)
    ensures
        r == rfc3339_millis(s@),
{
    match chrono::DateTime::parse_from_rfc3339(s) {
        Ok(t) => Some(t.timestamp_millis()),
        Err(_) => None,
    }
}

/// Whether a member whose time-out ends at `timeout_until` is in time-out at `now_ms`
/// (ms since the epoch); an unreadable end time counts as no time-out.
pub fn timed_out(timeout_until: Option<&str>, now_ms: i64) -> (r: bool)
    ensures
        r == match timeout_until {
            Some(t) => match rfc3339_millis(t@) {
                Some(end) => end > now_ms,
                None => false,
            },
            None => false,
        },
{
    match timeout_until {
        Some(t) => match parse_rfc3339_millis(t) {
            Some(end) => end > now_ms,
            None => false,
        },
        None => false,
    }
}

pub open spec fn pairs_view(v: Seq<(String, String)>) -> Seq<(Seq<char>, Seq<char>)> {
    v.map_values(|p: (String, String)| (p.0@, p.1@))
}

/// The default role's bits among a guild's roles, given as (id, bits in decimal): the role
/// whose id is the guild's (the last such, should there be several); 0 when absent.
pub open spec fn everyone_bits(guild_id: Seq<char>, roles: Seq<(Seq<char>, Seq<char>)>) -> u64
    decreases roles.len(),
{
    if roles.len() == 0 {
        0
    } else if roles.last().0 == guild_id {
        spec_bits(roles.last().1)
    } else {
        everyone_bits(guild_id, roles.drop_last())
    }
}

/// The bits of the guild's other roles that the member holds, in the guild's order.
pub open spec fn member_role_bits(
    guild_id: Seq<char>,
    member_roles: Seq<Seq<char>>,
    roles: Seq<(Seq<char>, Seq<char>)>,
) -> Seq<u64>
    decreases roles.len(),
{
    if roles.len() == 0 {
        seq![]
    } else {
        let rest = member_role_bits(guild_id, member_roles, roles.drop_last());
        let (id, bits) = roles.last();
        if id != guild_id && member_roles.contains(id) {
            rest.push(spec_bits(bits))
        } else {
            rest
        }
    }
}

/// Reads a guild's roles, as (id, bits in decimal), into the default role's bits and the
/// bits of the roles the member holds: the inputs of `compute_permissions`.
pub fn guild_role_bits(guild_id: &str, member_roles: &Vec<String>, roles: &Vec<(String, String)>) -> (r: (u64, Vec<u64>))
    ensures
        r.0 == everyone_bits(guild_id@, pairs_view(roles@)),
        r.1@ == member_role_bits(guild_id@, strings_view(member_roles@), pairs_view(roles@)),
{
    let ghost rv = pairs_view(roles@);
    let mut everyone: u64 = 0;
    let mut bits: Vec<u64> = Vec::new();
    let mut i: usize = 0;
    while i < roles.len()
        invariant
            i <= roles@.len(),
            rv == pairs_view(roles@),
            everyone == everyone_bits(guild_id@, rv.subrange(0, i as int)),
            bits@ == member_role_bits(guild_id@, strings_view(member_roles@), rv.subrange(0, i as int)),
        decreases roles@.len() - i,
    {
        assert(rv.subrange(0, i + 1).drop_last() =~= rv.subrange(0, i as int));
        assert(rv.subrange(0, i + 1).last() == (roles@[i as int].0@, roles@[i as int].1@));
        let (id, text) = (&roles[i].0, &roles[i].1);
        if str_eq(id.as_str(), guild_id) {
            everyone = parse_bits(text);
        } else if contains_str(member_roles, id) {
            bits.push(parse_bits(text));
        }
        i = i + 1;
    }
    assert(rv.subrange(0, roles@.len() as int) =~= rv);
    (everyone, bits)
}

} // verus!
