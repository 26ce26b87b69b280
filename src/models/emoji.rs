use vstd::prelude::*;

use crate::text::{chars_of, lemma_least, string_of};

use crate::models::user::User;

verus! {

/// Represents an emoji in Discord.
#[derive(Debug, Clone)]
pub struct Emoji {
    /// The name of the emoji.
    pub name: String,
    /// The unique ID of the emoji.
    pub id: Option<String>,
    /// The user who created the emoji.
    pub user: Option<User>,
    /// Whether the emoji requires colons to be used.
    pub require_colons: Option<bool>,
    /// Whether the emoji is managed.
    pub managed: Option<bool>,
    /// Whether the emoji is animated.
    pub animated: Option<bool>,
    /// Whether the emoji is available.
    pub available: Option<bool>,
}


pub open spec fn is_trim(c: char) -> bool {
    c == '<' || c == '>' || c == ':'
}

/// Drops leading `<`, `>` and `:` characters.
pub open spec fn trim_front(s: Seq<char>) -> Seq<char>
    decreases s.len(),
{
    if s.len() > 0 && is_trim(s[0]) {
        trim_front(s.drop_first())
    } else {
        s
    }
}

/// Drops trailing `<`, `>` and `:` characters.
pub open spec fn trim_back(s: Seq<char>) -> Seq<char>
    decreases s.len(),
{
    if s.len() > 0 && is_trim(s.last()) {
        trim_back(s.drop_last())
    } else {
        s
    }
}

/// The first colon, if any.
pub open spec fn first_colon(s: Seq<char>) -> Option<int> {
    if exists|i: int| 0 <= i < s.len() && s[i] == ':' {
        Some(choose|i: int| 0 <= i < s.len() && s[i] == ':' && forall|j: int| 0 <= j < i ==> s[j] != ':')
    } else {
        None
    }
}

/// The name and id an emoji text gives: `<:name:id>` or `:name:id` has both, `:star:` a name only.
pub open spec fn spec_emoji_parts(s: Seq<char>) -> (Seq<char>, Option<Seq<char>>) {
    let t = trim_back(trim_front(s));
    match first_colon(t) {
        Some(k) => (t.subrange(0, k), Some(t.subrange(k + 1, t.len() as int))),
        None => (t, None),
    }
}

impl Emoji {
    /// Reads an emoji from text such as `:star:` or `<:name:1234>`.
    pub fn parse(emoji: &str) -> (r: Emoji)
        ensures
            r.name@ == spec_emoji_parts(emoji@).0,
            match spec_emoji_parts(emoji@).1 {
                Some(id) => r.id matches Some(i) && i@ == id,
                None => r.id is None,
            },
            r.user is None && r.require_colons is None && r.managed is None,
            r.animated is None && r.available is None,
    {
        let v = chars_of(emoji);
        let n = v.len();
        let mut a: usize = 0;
        assert(v@.subrange(0, n as int) =~= v@);
        while a < n && (v[a] == '<' || v[a] == '>' || v[a] == ':')
            invariant
                a <= n == v@.len(),
                v@ == emoji@,
                trim_front(v@) == trim_front(v@.subrange(a as int, n as int)),
            decreases n - a,
        {
            assert(v@.subrange(a as int, n as int).drop_first() =~= v@.subrange(a + 1, n as int));
            a = a + 1;
        }
        let mut b: usize = n;
        while b > a && (v[b - 1] == '<' || v[b - 1] == '>' || v[b - 1] == ':')
            invariant
                a <= b <= n == v@.len(),
                trim_back(v@.subrange(a as int, n as int)) == trim_back(v@.subrange(a as int, b as int)),
            decreases b - a,
        {
            assert(v@.subrange(a as int, b as int).drop_last() =~= v@.subrange(a as int, b - 1));
            b = b - 1;
        }
        let ghost t = v@.subrange(a as int, b as int);
        assert(trim_back(trim_front(emoji@)) == t);
        let mut k: usize = a;
        while k < b
            invariant
                a <= k <= b <= n == v@.len(),
                t == v@.subrange(a as int, b as int),
                trim_back(trim_front(emoji@)) == t,
                forall|j: int| 0 <= j < k - a ==> t[j] != ':',
            decreases b - k,
        {
            if v[k] == ':' {
                proof {
                    let i = (k - a) as int;
                    assert(t[i] == ':');
                    assert(0 <= i < t.len() && t[i] == ':' && forall|j: int| 0 <= j < i ==> t[j] != ':');
                    let m = choose|m: int| 0 <= m < t.len() && t[m] == ':' && forall|j: int| 0 <= j < m ==> t[j] != ':';
                    if m < i {
                        assert(t[m] != ':');
                    } else if i < m {
                        assert(t[i] != ':');
                    }
                    assert(t.subrange(0, i) =~= v@.subrange(a as int, k as int));
                    assert(t.subrange(i + 1, t.len() as int) =~= v@.subrange(k + 1, b as int));
                }
                return Emoji {
                    name: string_of(&v, a, k),
                    id: Some(string_of(&v, k + 1, b)),
                    user: None,
                    require_colons: None,
                    managed: None,
                    animated: None,
                    available: None,
                };
            }
            k = k + 1;
        }
        Emoji {
            name: string_of(&v, a, b),
            id: None,
            user: None,
            require_colons: None,
            managed: None,
            animated: None,
            available: None,
        }
    }
}

/// `first_colon` names the first colon, and `None` means there is none.
pub proof fn lemma_first_colon_bounds(s: Seq<char>)
    ensures
        match first_colon(s) {
            Some(i) => 0 <= i < s.len() && s[i] == ':' && forall|j: int| 0 <= j < i ==> s[j] != ':',
            None => forall|i: int| 0 <= i < s.len() ==> s[i] != ':',
        },
{
    if exists|i: int| 0 <= i < s.len() && s[i] == ':' {
        let i = choose|i: int| 0 <= i < s.len() && s[i] == ':';
        let p = |k: int| k < s.len() && s[k] == ':';
        let m = lemma_least(p, i);
        assert forall|j: int| 0 <= j < m implies s[j] != ':' by {
            assert(!p(j));
        }
        assert(0 <= m < s.len() && s[m] == ':');
    }
}

} // verus!
