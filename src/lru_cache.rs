use vstd::prelude::*;

use lru::LruCache;

verus! {

#[verifier::external_type_specification]
#[verifier::external_body]
#[verifier::reject_recursive_types(K)]
#[verifier::reject_recursive_types(V)]
#[verifier::reject_recursive_types(S)]
pub struct ExLruCache<K, V, S>(LruCache<K, V, S>);

#[verifier::external_type_specification]
#[verifier::external_body]
pub struct ExDefaultHasher(lru::DefaultHasher);

/// What a bucket cache holds: bucket id to (calls remaining, reset time in ms).
pub uninterp spec fn bucket_entries(c: LruCache<String, (u32, u64)>) -> Map<Seq<char>, (u32, u64)>;

/// What a cache from strings to strings holds.
pub uninterp spec fn string_entries(c: LruCache<String, String>) -> Map<Seq<char>, Seq<char>>;

/// Relies on `LruCache::new`: an empty cache of the given capacity.
#[verifier::external_body]
pub(crate) fn new_bucket_cache(cap: usize) -> (r: LruCache<String, (u32, u64)>)
    requires
        cap > 0,
    ensures
        bucket_entries(r).dom().len() == 0,
        bucket_entries(r).dom().finite(),
{
    LruCache::new(std::num::NonZeroUsize::new(cap).unwrap())
}

/// Relies on `LruCache::new`: an empty cache of the given capacity.
#[verifier::external_body]
pub(crate) fn new_string_cache(cap: usize) -> (r: LruCache<String, String>)
    requires
        cap > 0,
    ensures
        string_entries(r).dom().len() == 0,
        string_entries(r).dom().finite(),
{
    LruCache::new(std::num::NonZeroUsize::new(cap).unwrap())
}

/// Relies on `LruCache::put`: the key then holds the value; an existing key is updated in
/// place, a new one may push out other entries (the least recently used) but adds none.
#[verifier::external_body]
pub(crate) fn bucket_put(c: &mut LruCache<String, (u32, u64)>, k: &str, v: (u32, u64))
    ensures
        bucket_entries(*final(c)).contains_key(k@),
        bucket_entries(*final(c))[k@] == v,
        forall|o: Seq<char>| #[trigger] bucket_entries(*final(c)).contains_key(o) && o != k@
            ==> bucket_entries(*old(c)).contains_key(o)
                && bucket_entries(*final(c))[o] == bucket_entries(*old(c))[o],
        bucket_entries(*old(c)).contains_key(k@) ==> bucket_entries(*final(c))
            == bucket_entries(*old(c)).insert(k@, v),
{
    c.put(k.to_string(), v);
}

/// Relies on `LruCache::put`: the key then holds the value; an existing key is updated in
/// place, a new one may push out other entries (the least recently used) but adds none.
#[verifier::external_body]
pub(crate) fn string_put(c: &mut LruCache<String, String>, k: &str, v: &str)
    ensures
        string_entries(*final(c)).contains_key(k@),
        string_entries(*final(c))[k@] == v@,
        forall|o: Seq<char>| #[trigger] string_entries(*final(c)).contains_key(o) && o != k@
            ==> string_entries(*old(c)).contains_key(o)
                && string_entries(*final(c))[o] == string_entries(*old(c))[o],
        string_entries(*old(c)).contains_key(k@) ==> string_entries(*final(c))
            == string_entries(*old(c)).insert(k@, v@),
{
    c.put(k.to_string(), v.to_string());
}

/// Relies on `LruCache::get`: the value under the key, if any; only the recency order
/// changes, not the contents.
#[verifier::external_body]
pub(crate) fn bucket_get(c: &mut LruCache<String, (u32, u64)>, k: &str) -> (r: Option<(u32, u64)>)
    ensures
        bucket_entries(*final(c)) == bucket_entries(*old(c)),
        r == (if bucket_entries(*old(c)).contains_key(k@) {
            Some(bucket_entries(*old(c))[k@])
        } else {
            None
        }),
{
    c.get(k).copied()
}

/// Relies on `LruCache::get`: the value under the key, if any; only the recency order
/// changes, not the contents.
#[verifier::external_body]
pub(crate) fn string_get(c: &mut LruCache<String, String>, k: &str) -> (r: Option<String>)
    ensures
        string_entries(*final(c)) == string_entries(*old(c)),
        r matches Some(b) ==> string_entries(*old(c)).contains_key(k@)
            && string_entries(*old(c))[k@] == b@,
        r is None ==> !string_entries(*old(c)).contains_key(k@),
{
    c.get(k).cloned()
}

/// Relies on `LruCache::pop`: removes the key and hands back its value, if any.
#[verifier::external_body]
pub(crate) fn string_pop(c: &mut LruCache<String, String>, k: &str) -> (r: Option<String>)
    ensures
        string_entries(*final(c)) == string_entries(*old(c)).remove(k@),
        r matches Some(v) ==> string_entries(*old(c)).contains_key(k@) && string_entries(*old(c))[k@] == v@,
        r is None ==> !string_entries(*old(c)).contains_key(k@),
{
    c.pop(k)
}

} // verus!
