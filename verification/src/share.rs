//! The share registry: an in-memory mapping from absolute path to
//! access policy, together with the hash-derived share id and the
//! link string that embeds it.
//!
//! A share id is a deterministic digest of the path alone, so the link
//! for a path can be rebuilt at any time, and resolving an id back to
//! a path is a linear scan that recomputes each stored path's id.

use vstd::prelude::*;
use crate::AuthScheme;
use crate::paths::str_eq;

verus! {

/// The share id derived from a path: the digest of the path's bytes,
/// written in lowercase hex. Deterministic in the path alone.
pub uninterp spec fn share_id_of(path: Seq<char>) -> Seq<char>;

/// Relies on `md5::compute` and the digest's `LowerHex` formatting:
/// the 128-bit digest of the path's UTF-8 bytes, printed as lowercase
/// hex digits, depends on the path alone.
#[verifier::external_body]
pub(crate) fn compute_share_id(path: &str) -> (r: String)
    ensures
        r@ == share_id_of(path@),
{
    format!("{:x}", md5::compute(path.as_bytes()))
}

/// The link under which a shared path is served: the fixed process
/// route followed by the path's share id.
pub open spec fn link_of(id: Seq<char>) -> Seq<char> {
    "/explorer:file-explorer:sys/shared/"@ + id
}

/// Builds the link string embedding a share id.
pub(crate) fn share_link_for(id: &str) -> (r: String)
    ensures
        r@ == link_of(id@),
{
    let mut r = "/explorer:file-explorer:sys/shared/".to_owned();
    r.append(id);
    r
}

/// One stored share: a path and the policy gating its retrieval.
pub struct ShareEntry {
    pub path: String,
    pub auth: AuthScheme,
}

/// No path occurs twice: the registry behaves as a map keyed by path.
pub open spec fn unique_paths(s: Seq<(Seq<char>, AuthScheme)>) -> bool {
    forall|i: int, j: int| 0 <= i < j < s.len() ==> s[i].0 != s[j].0
}

/// Whether some entry is stored under path `p`.
pub open spec fn spec_contains(s: Seq<(Seq<char>, AuthScheme)>, p: Seq<char>) -> bool {
    exists|i: int| 0 <= i < s.len() && s[i].0 == p
}

/// Removal of the entry stored under `p`, if any.
pub open spec fn spec_unshare(
    s: Seq<(Seq<char>, AuthScheme)>,
    p: Seq<char>,
) -> Seq<(Seq<char>, AuthScheme)>
    decreases s.len(),
{
    if s.len() == 0 {
        s
    } else if s.first().0 == p {
        s.drop_first()
    } else {
        seq![s.first()] + spec_unshare(s.drop_first(), p)
    }
}

/// Upsert: the entry under `p`, if any, is dropped, and `(p, a)` is
/// appended. Re-sharing a path replaces its policy.
pub open spec fn spec_share(
    s: Seq<(Seq<char>, AuthScheme)>,
    p: Seq<char>,
    a: AuthScheme,
) -> Seq<(Seq<char>, AuthScheme)> {
    spec_unshare(s, p).push((p, a))
}

/// The link returned for `p`: present iff `p` is stored, and then
/// always the id-embedding link.
pub open spec fn spec_lookup(s: Seq<(Seq<char>, AuthScheme)>, p: Seq<char>) -> Option<Seq<char>> {
    if spec_contains(s, p) {
        Some(link_of(share_id_of(p)))
    } else {
        None
    }
}

/// Resolution of a share id: the first stored entry whose path's id
/// equals `id`, if any. With unique paths at most one entry is
/// expected to match; should two paths' digests ever collide, the
/// earlier entry in storage order wins.
pub open spec fn spec_resolve(s: Seq<(Seq<char>, AuthScheme)>, id: Seq<char>) -> Option<
    (Seq<char>, AuthScheme),
>
    decreases s.len(),
{
    if s.len() == 0 {
        None
    } else if share_id_of(s.first().0) == id {
        Some(s.first())
    } else {
        spec_resolve(s.drop_first(), id)
    }
}

proof fn lemma_unshare_no_match(s: Seq<(Seq<char>, AuthScheme)>, p: Seq<char>)
    requires
        forall|k: int| 0 <= k < s.len() ==> s[k].0 != p,
    ensures
        spec_unshare(s, p) == s,
    decreases s.len(),
{
    if s.len() == 0 {
    } else {
        assert(s.first().0 != p);
        lemma_unshare_no_match(s.drop_first(), p);
        assert(seq![s.first()] + s.drop_first() =~= s);
    }
}

proof fn lemma_unshare_at(s: Seq<(Seq<char>, AuthScheme)>, p: Seq<char>, i: int)
    requires
        0 <= i < s.len(),
        s[i].0 == p,
        forall|k: int| 0 <= k < i ==> s[k].0 != p,
    ensures
        spec_unshare(s, p) == s.remove(i),
    decreases i,
{
    if i == 0 {
        assert(spec_unshare(s, p) == s.drop_first());
        assert(s.drop_first() =~= s.remove(0));
    } else {
        assert(s.first().0 != p);
        lemma_unshare_at(s.drop_first(), p, i - 1);
        assert(seq![s.first()] + s.drop_first().remove(i - 1) =~= s.remove(i));
    }
}

/// What removal does to membership: `p` is gone, no path appears that
/// was not stored before, and uniqueness of paths is kept.
pub proof fn lemma_unshare_props(s: Seq<(Seq<char>, AuthScheme)>, p: Seq<char>)
    requires
        unique_paths(s),
    ensures
        unique_paths(spec_unshare(s, p)),
        !spec_contains(spec_unshare(s, p), p),
        forall|q: Seq<char>| spec_contains(spec_unshare(s, p), q) ==> spec_contains(s, q),
    decreases s.len(),
{
    if s.len() == 0 {
    } else if s.first().0 == p {
        let t = s.drop_first();
        assert forall|i: int, j: int| 0 <= i < j < t.len() implies t[i].0 != t[j].0 by {
            assert(t[i] == s[i + 1]);
            assert(t[j] == s[j + 1]);
        }
        assert forall|k: int| 0 <= k < t.len() implies t[k].0 != p by {
            assert(t[k] == s[k + 1]);
            assert(s[0].0 != s[k + 1].0);
        }
        assert forall|q: Seq<char>| spec_contains(t, q) implies spec_contains(s, q) by {
            let k = choose|k: int| 0 <= k < t.len() && t[k].0 == q;
            assert(s[k + 1].0 == q);
        }
    } else {
        let t = s.drop_first();
        assert forall|i: int, j: int| 0 <= i < j < t.len() implies t[i].0 != t[j].0 by {
            assert(t[i] == s[i + 1]);
            assert(t[j] == s[j + 1]);
        }
        lemma_unshare_props(t, p);
        let u = spec_unshare(t, p);
        let r = seq![s.first()] + u;
        assert(spec_unshare(s, p) == r);
        assert forall|q: Seq<char>| spec_contains(r, q) implies spec_contains(s, q) by {
            let k = choose|k: int| 0 <= k < r.len() && r[k].0 == q;
            if k == 0 {
                assert(s[0].0 == q);
            } else {
                assert(r[k] == u[k - 1]);
                assert(spec_contains(u, q));
                assert(spec_contains(t, q));
                let j = choose|j: int| 0 <= j < t.len() && t[j].0 == q;
                assert(s[j + 1].0 == q);
            }
        }
        assert(!spec_contains(r, p)) by {
            if spec_contains(r, p) {
                let k = choose|k: int| 0 <= k < r.len() && r[k].0 == p;
                assert(k != 0);
                assert(r[k] == u[k - 1]);
                assert(spec_contains(u, p));
            }
        }
        assert(!spec_contains(t, s.first().0)) by {
            if spec_contains(t, s.first().0) {
                let k = choose|k: int| 0 <= k < t.len() && t[k].0 == s.first().0;
                assert(t[k] == s[k + 1]);
                assert(s[0].0 != s[k + 1].0);
            }
        }
        assert(!spec_contains(u, s.first().0));
        assert forall|i: int, j: int| 0 <= i < j < r.len() implies r[i].0 != r[j].0 by {
            if i == 0 {
                assert(r[j] == u[j - 1]);
                if r[j].0 == s.first().0 {
                    assert(spec_contains(u, s.first().0));
                }
            } else {
                assert(r[i] == u[i - 1]);
                assert(r[j] == u[j - 1]);
            }
        }
    }
}

/// Sharing a path and then looking it up always yields the link that
/// embeds the path's share id.
pub proof fn lemma_share_then_lookup(
    s: Seq<(Seq<char>, AuthScheme)>,
    p: Seq<char>,
    a: AuthScheme,
)
    ensures
        spec_lookup(spec_share(s, p, a), p) == Some(link_of(share_id_of(p))),
{
    let r = spec_share(s, p, a);
    assert(r[r.len() - 1].0 == p);
    assert(spec_contains(r, p));
}

/// Unsharing a path and then looking it up yields nothing.
pub proof fn lemma_unshare_then_lookup(s: Seq<(Seq<char>, AuthScheme)>, p: Seq<char>)
    requires
        unique_paths(s),
    ensures
        spec_lookup(spec_unshare(s, p), p) == None::<Seq<char>>,
{
    lemma_unshare_props(s, p);
}

/// A resolved entry's path always hashes to the id that was resolved:
/// an id derived from one path can only ever reach a distinct stored
/// path if the two paths' digests collide.
pub proof fn lemma_resolve_matches_hash(s: Seq<(Seq<char>, AuthScheme)>, p1: Seq<char>)
    ensures
        spec_resolve(s, share_id_of(p1)) matches Some(e) ==> share_id_of(e.0) == share_id_of(p1)
            && spec_contains(s, e.0),
    decreases s.len(),
{
    if s.len() == 0 {
    } else if share_id_of(s.first().0) == share_id_of(p1) {
        assert(s[0] == s.first());
    } else {
        lemma_resolve_matches_hash(s.drop_first(), p1);
        let t = s.drop_first();
        assert(forall|k: int| 0 <= k < t.len() ==> t[k] == s[k + 1]);
    }
}

proof fn lemma_resolve_skip(s: Seq<(Seq<char>, AuthScheme)>, id: Seq<char>, i: int)
    requires
        0 <= i <= s.len(),
        forall|k: int| 0 <= k < i ==> share_id_of(s[k].0) != id,
    ensures
        spec_resolve(s, id) == spec_resolve(s.skip(i), id),
    decreases i,
{
    if i == 0 {
        assert(s.skip(0) =~= s);
    } else {
        lemma_resolve_skip(s, id, i - 1);
        let t = s.skip(i - 1);
        assert(t.len() > 0);
        assert(t.first() == s[i - 1]);
        assert(share_id_of(t.first().0) != id);
        assert(t.drop_first() =~= s.skip(i));
    }
}

/// The in-memory path-to-policy registry. Shares live only as long as
/// the process: nothing here is ever persisted.
pub struct ShareRegistry {
    pub entries: Vec<ShareEntry>,
}

impl ShareRegistry {
    /// The stored entries as (path, policy) pairs, in storage order.
    pub open spec fn view(self) -> Seq<(Seq<char>, AuthScheme)> {
        self.entries@.map_values(|e: ShareEntry| (e.path@, e.auth))
    }

    /// Each path is stored at most once.
    pub open spec fn wf(self) -> bool {
        unique_paths(self.view())
    }

    /// An empty registry.
    pub fn new() -> (r: ShareRegistry)
        ensures
            r.wf(),
            r.view() == Seq::<(Seq<char>, AuthScheme)>::empty(),
    {
        let r = ShareRegistry { entries: Vec::new() };
        proof {
            assert(r.view() =~= Seq::<(Seq<char>, AuthScheme)>::empty());
        }
        r
    }

    /// Removes the entry stored under `path`, reporting whether one
    /// was there.
    pub fn unshare(&mut self, path: &String) -> (removed: bool)
        requires
            old(self).wf(),
        ensures
            final(self).wf(),
            final(self).view() == spec_unshare(old(self).view(), path@),
            removed == spec_contains(old(self).view(), path@),
    {
        let ghost s = self.view();
        let n = self.entries.len();
        let mut i: usize = 0;
        while i < n
            invariant
                n == self.entries.len(),
                0 <= i <= n,
                s == self.view(),
                s == old(self).view(),
                unique_paths(s),
                forall|k: int| 0 <= k < i ==> s[k].0 != path@,
            decreases n - i,
        {
            if str_eq(self.entries[i].path.as_str(), path.as_str()) {
                assert(s[i as int].0 == path@);
                self.entries.remove(i);
                proof {
                    lemma_unshare_at(s, path@, i as int);
                    assert(self.view() =~= s.remove(i as int));
                    lemma_unshare_props(s, path@);
                }
                return true;
            }
            i = i + 1;
        }
        proof {
            lemma_unshare_no_match(s, path@);
            assert(!spec_contains(s, path@));
        }
        false
    }

    /// Upserts `path` with policy `auth` and returns the share link
    /// embedding the path's id.
    pub fn share(&mut self, path: &String, auth: AuthScheme) -> (link: String)
        requires
            old(self).wf(),
        ensures
            final(self).wf(),
            final(self).view() == spec_share(old(self).view(), path@, auth),
            link@ == link_of(share_id_of(path@)),
    {
        let ghost s = old(self).view();
        self.unshare(path);
        let ghost u = self.view();
        let id = compute_share_id(path.as_str());
        let link = share_link_for(id.as_str());
        self.entries.push(ShareEntry { path: path.clone(), auth });
        proof {
            let v = self.view();
            assert(v =~= u.push((path@, auth)));
            lemma_unshare_props(s, path@);
            assert forall|i: int, j: int| 0 <= i < j < v.len() implies v[i].0 != v[j].0 by {
                if j < u.len() {
                    assert(v[i] == u[i]);
                    assert(v[j] == u[j]);
                } else {
                    assert(v[j].0 == path@);
                    assert(v[i] == u[i]);
                    if u[i].0 == path@ {
                        assert(spec_contains(u, path@));
                    }
                }
            }
        }
        link
    }

    /// The share link for `path`, iff `path` is currently shared.
    pub fn get_share_link(&self, path: &String) -> (r: Option<String>)
        ensures
            r is Some <==> spec_contains(self.view(), path@),
            r matches Some(l) ==> spec_lookup(self.view(), path@) == Some(l@),
            r is None ==> spec_lookup(self.view(), path@) == None::<Seq<char>>,
    {
        let ghost s = self.view();
        let n = self.entries.len();
        let mut i: usize = 0;
        while i < n
            invariant
                n == self.entries.len(),
                0 <= i <= n,
                s == self.view(),
                forall|k: int| 0 <= k < i ==> s[k].0 != path@,
            decreases n - i,
        {
            if str_eq(self.entries[i].path.as_str(), path.as_str()) {
                assert(s[i as int].0 == path@);
                let id = compute_share_id(path.as_str());
                return Some(share_link_for(id.as_str()));
            }
            i = i + 1;
        }
        assert(!spec_contains(s, path@));
        None
    }

    /// Scans the registry for the first entry whose path's share id is
    /// `id`, returning that path and its policy.
    pub fn resolve(&self, id: &str) -> (r: Option<(String, AuthScheme)>)
        ensures
            r matches Some(e) ==> spec_resolve(self.view(), id@) == Some((e.0@, e.1)),
            r is None ==> spec_resolve(self.view(), id@) == None::<(Seq<char>, AuthScheme)>,
    {
        let ghost s = self.view();
        let n = self.entries.len();
        let mut i: usize = 0;
        while i < n
            invariant
                n == self.entries.len(),
                0 <= i <= n,
                s == self.view(),
                forall|k: int| 0 <= k < i ==> share_id_of(s[k].0) != id@,
            decreases n - i,
        {
            let entry_id = compute_share_id(self.entries[i].path.as_str());
            if str_eq(entry_id.as_str(), id) {
                proof {
                    lemma_resolve_skip(s, id@, i as int);
                    assert(s.skip(i as int).first() == s[i as int]);
                }
                let e = &self.entries[i];
                return Some((e.path.clone(), e.auth.clone()));
            }
            i = i + 1;
        }
        proof {
            lemma_resolve_skip(s, id@, n as int);
            assert(s.skip(n as int) =~= Seq::<(Seq<char>, AuthScheme)>::empty());
        }
        None
    }
}

} // verus!
