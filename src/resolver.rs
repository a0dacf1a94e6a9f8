//! Key resolution: from an inbound request path and the configured origin to
//! the upstream target URL, which is also the cache key.
use vstd::prelude::*;
use vstd::string::*;

verus! {

broadcast use vstd::string::to_string_from_display_ensures_for_str;

/// The well-known noise path (a browser's icon probe) that never reaches the
/// cache or the upstream.
pub open spec fn is_reserved_path(path: Seq<char>) -> bool {
    path == "favicon.ico"@
}

/// The upstream target URL: the origin base and the path joined by one `/`.
pub open spec fn target_of(origin: Seq<char>, path: Seq<char>) -> Seq<char> {
    origin + seq!['/'] + path
}

/// The cache key of a request, or `None` for the reserved path.
pub open spec fn key_of(origin: Seq<char>, path: Seq<char>) -> Option<Seq<char>> {
    if is_reserved_path(path) {
        None
    } else {
        Some(target_of(origin, path))
    }
}

/// Whether `path` is the reserved noise path.
pub fn is_reserved(path: &str) -> (r: bool)
    ensures
        r == is_reserved_path(path@),
{
    let reserved: String = "favicon.ico".to_string();
    let given: String = path.to_string();
    proof {
        reveal_strlit("favicon.ico");
    }
    given == reserved
}

/// Joins the origin base and the path with a single `/`; no escaping or
/// normalisation is done.
pub fn target_url(origin: &str, path: &str) -> (r: String)
    ensures
        r@ == target_of(origin@, path@),
{
    let mut url: String = origin.to_string();
    url.append("/");
    url.append(path);
    proof {
        reveal_strlit("/");
        assert(url@ =~= target_of(origin@, path@));
    }
    url
}

/// The cache key for a request path, or `None` when the path is reserved.
pub fn resolve_key(origin: &str, path: &str) -> (r: Option<String>)
    ensures
        r matches Some(k) ==> key_of(origin@, path@) == Some(k@),
        r is None <==> key_of(origin@, path@) is None,
{
    if is_reserved(path) {
        None
    } else {
        Some(target_url(origin, path))
    }
}

/// A resolved key is the origin, one `/` and the path, with nothing lost or
/// doubled, and the reserved path resolves to no key.
pub proof fn lemma_key_joins_once(origin: Seq<char>, path: Seq<char>)
    ensures
        is_reserved_path(path) <==> key_of(origin, path) is None,
        !is_reserved_path(path) ==> ({
            let k = key_of(origin, path)->Some_0;
            &&& k.len() == origin.len() + 1 + path.len()
            &&& k.subrange(0, origin.len() as int) == origin
            &&& k[origin.len() as int] == '/'
            &&& k.subrange(origin.len() + 1int, k.len() as int) == path
        }),
{
    let k = target_of(origin, path);
    assert(k.subrange(0, origin.len() as int) =~= origin);
    assert(k.subrange(origin.len() + 1int, k.len() as int) =~= path);
}

/// Distinct paths against the same origin never give the same key.
pub proof fn lemma_keys_distinct(origin: Seq<char>, p1: Seq<char>, p2: Seq<char>)
    requires
        key_of(origin, p1) is Some,
        key_of(origin, p1) == key_of(origin, p2),
    ensures
        p1 == p2,
{
    lemma_key_joins_once(origin, p1);
    lemma_key_joins_once(origin, p2);
}

} // verus!
