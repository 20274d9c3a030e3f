//! Redirect resolution: whether a URL path has a canonical replacement.
//!
//! The map itself is an external input, assumed already fully chased: each
//! entry maps an old path to its single canonical destination, so
//! resolution is one pure lookup with no further hops.

use vstd::prelude::*;

verus! {

/// One redirect: an old path and its canonical destination.
pub struct Redirect {
    pub from: String,
    pub to: String,
}

/// The redirect table, consulted read-only. The first entry whose `from`
/// matches a URL decides its destination.
pub struct RedirectMap {
    pub entries: Vec<Redirect>,
}

/// The destination of the first entry of `entries` whose `from` is `url`,
/// if any.
pub open spec fn resolve_from(entries: Seq<Redirect>, url: Seq<char>) -> Option<Seq<char>>
    decreases entries.len(),
{
    if entries.len() == 0 {
        None
    } else if entries[0].from@ == url {
        Some(entries[0].to@)
    } else {
        resolve_from(entries.drop_first(), url)
    }
}

impl RedirectMap {
    /// The canonical destination this map gives `url`, or `None` when the
    /// path is already canonical.
    pub open spec fn spec_resolve(self, url: Seq<char>) -> Option<Seq<char>> {
        resolve_from(self.entries@, url)
    }
}

/// Looks `url` up in the redirect map: the canonical destination, or `None`
/// when the original path is canonical. Pure lookup, no mutation.
pub fn resolve_redirect(map: &RedirectMap, url: &str) -> (r: Option<String>)
    ensures
        match r {
            Some(to) => map.spec_resolve(url@) == Some(to@),
            None => map.spec_resolve(url@) is None,
        },
{
    let target: String = url.to_owned();
    let n = map.entries.len();
    let mut i: usize = 0;
    proof {
        assert(map.entries@.skip(0) =~= map.entries@);
    }
    while i < n
        invariant
            n == map.entries@.len(),
            i <= n,
            target@ == url@,
            map.spec_resolve(url@) == resolve_from(map.entries@.skip(i as int), url@),
        decreases n - i,
    {
        proof {
            let tail = map.entries@.skip(i as int);
            assert(tail[0] == map.entries@[i as int]);
            assert(tail.drop_first() =~= map.entries@.skip(i + 1));
        }
        if map.entries[i].from.eq(&target) {
            return Some(map.entries[i].to.clone());
        }
        i = i + 1;
    }
    proof {
        assert(map.entries@.skip(n as int) =~= Seq::<Redirect>::empty());
    }
    None
}

} // verus!
