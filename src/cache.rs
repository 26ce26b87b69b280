use vstd::prelude::*;
use vstd::string::*;

use lru::LruCache;

use crate::consts::MESSAGE_CACHE_SIZE;
use crate::json_access::{json_member_str, json_member_text, member_str, member_text};
use crate::lru_cache::{new_string_cache, string_entries, string_pop, string_put};
use crate::text::str_eq;

verus! {

/// How many roles the role cache keeps.
pub const ROLE_CACHE_SIZE: usize = 1000;

/// Bounded caches of recent messages and roles, by id, as JSON text; the least recently
/// used entry makes room.
pub struct EventCache {
    messages: LruCache<String, String>,
    roles: LruCache<String, String>,
}

pub struct CacheView {
    pub messages: Map<Seq<char>, Seq<char>>,
    pub roles: Map<Seq<char>, Seq<char>>,
}

impl View for EventCache {
    type V = CacheView;

    closed spec fn view(&self) -> CacheView {
        CacheView { messages: string_entries(self.messages), roles: string_entries(self.roles) }
    }
}

/// After a put: the key holds the value, and every other entry still there is unchanged.
pub open spec fn put_post(before: Map<Seq<char>, Seq<char>>, after: Map<Seq<char>, Seq<char>>, k: Seq<char>, v: Seq<char>) -> bool {
    &&& after.contains_key(k)
    &&& after[k] == v
    &&& forall|o: Seq<char>| #[trigger] after.contains_key(o) && o != k ==> before.contains_key(o) && after[o] == before[o]
}

/// The cache bookkeeping of one dispatched event, and the events handlers then see.
/// A new or edited message is remembered. A deleted message is forgotten; the raw deletion
/// goes out as `MESSAGE_DELETE_RAW`, followed by `MESSAGE_DELETE` with the remembered
/// message when there was one. A created or updated role is remembered, a deleted one
/// forgotten. Any other event passes unchanged.
pub open spec fn observed(
    before: CacheView,
    after: CacheView,
    tag: Seq<char>,
    body: Seq<char>,
    out: Seq<(Seq<char>, Seq<char>)>,
) -> bool {
    if tag == "MESSAGE_CREATE"@ || tag == "MESSAGE_UPDATE"@ {
        &&& match json_member_str(body, "id"@) {
            Some(id) => put_post(before.messages, after.messages, id, body),
            None => after.messages == before.messages,
        }
        &&& after.roles == before.roles
        &&& out == seq![(tag, body)]
    } else if tag == "MESSAGE_DELETE"@ {
        &&& after.roles == before.roles
        &&& match json_member_str(body, "id"@) {
            Some(id) => after.messages == before.messages.remove(id) && if before.messages.contains_key(id) {
                out == seq![("MESSAGE_DELETE_RAW"@, body), (tag, before.messages[id])]
            } else {
                out == seq![("MESSAGE_DELETE_RAW"@, body)]
            },
            None => after.messages == before.messages && out == seq![("MESSAGE_DELETE_RAW"@, body)],
        }
    } else if tag == "GUILD_ROLE_CREATE"@ || tag == "GUILD_ROLE_UPDATE"@ {
        &&& after.messages == before.messages
        &&& out == seq![(tag, body)]
        &&& match json_member_text(body, "role"@) {
            Some(role) => match json_member_str(role, "id"@) {
                Some(id) => put_post(before.roles, after.roles, id, role),
                None => after.roles == before.roles,
            },
            None => after.roles == before.roles,
        }
    } else if tag == "GUILD_ROLE_DELETE"@ {
        &&& after.messages == before.messages
        &&& out == seq![(tag, body)]
        &&& match json_member_str(body, "role_id"@) {
            Some(id) => after.roles == before.roles.remove(id),
            None => after.roles == before.roles,
        }
    } else {
        &&& after == before
        &&& out == seq![(tag, body)]
    }
}

pub open spec fn pairs_view(v: Seq<(String, String)>) -> Seq<(Seq<char>, Seq<char>)> {
    v.map_values(|p: (String, String)| (p.0@, p.1@))
}

fn one(tag: &str, body: &str) -> (r: Vec<(String, String)>)
    ensures
        pairs_view(r@) == seq![(tag@, body@)],
{
    let mut v: Vec<(String, String)> = Vec::new();
    v.push((String::from_str(tag), String::from_str(body)));
    assert(pairs_view(v@) =~= seq![(tag@, body@)]);
    v
}

impl EventCache {
    /// Empty caches.
    pub fn new() -> (r: EventCache)
        ensures
            r@.messages.dom().len() == 0 && r@.messages.dom().finite(),
            r@.roles.dom().len() == 0 && r@.roles.dom().finite(),
    {
        EventCache { messages: new_string_cache(MESSAGE_CACHE_SIZE), roles: new_string_cache(ROLE_CACHE_SIZE) }
    }

    /// Updates the caches for a dispatched event and returns the events to hand to the
    /// router, in order.
    pub fn observe(&mut self, tag: &str, body: &str) -> (r: Vec<(String, String)>)
        ensures
            observed(old(self)@, final(self)@, tag@, body@, pairs_view(r@)),
    {
        proof {
            reveal_strlit("id");
            reveal_strlit("role");
            reveal_strlit("role_id");
            reveal_strlit("MESSAGE_DELETE_RAW");
        }
        if str_eq(tag, "MESSAGE_CREATE") || str_eq(tag, "MESSAGE_UPDATE") {
            if let Some(id) = member_str(body, "id") {
                string_put(&mut self.messages, id.as_str(), body);
            }
            one(tag, body)
        } else if str_eq(tag, "MESSAGE_DELETE") {
            let mut v: Vec<(String, String)> = Vec::new();
            v.push((String::from_str("MESSAGE_DELETE_RAW"), String::from_str(body)));
            match member_str(body, "id") {
                Some(id) => {
                    let cached = string_pop(&mut self.messages, id.as_str());
                    if let Some(m) = cached {
                        v.push((String::from_str(tag), m));
                    }
                },
                None => {},
            }
            proof {
                let pv = pairs_view(v@);
                if v@.len() == 2 {
                    assert(pv =~= seq![pv[0], pv[1]]);
                } else {
                    assert(pv =~= seq![pv[0]]);
                }
            }
            v
        } else if str_eq(tag, "GUILD_ROLE_CREATE") || str_eq(tag, "GUILD_ROLE_UPDATE") {
            if let Some(role) = member_text(body, "role") {
                if let Some(id) = member_str(role.as_str(), "id") {
                    string_put(&mut self.roles, id.as_str(), role.as_str());
                }
            }
            one(tag, body)
        } else if str_eq(tag, "GUILD_ROLE_DELETE") {
            if let Some(id) = member_str(body, "role_id") {
                let _ = string_pop(&mut self.roles, id.as_str());
            }
            one(tag, body)
        } else {
            one(tag, body)
        }
    }
}

} // verus!
