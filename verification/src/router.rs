//! The routes of the transport: which handler answers a path under
//! `/{namespace}/{repo}`.

use vstd::prelude::*;
use crate::operation::{file_operation, GitOperation};
use crate::text::{chars_of, contains, ends_with, occurs_at, slice_matches_at};

verus! {

/// The handlers.
#[derive(Clone, Copy, Debug, PartialEq, Eq, Structural)]
pub enum Route {
    GitUploadPack,
    GitReceivePack,
    InfoRefs,
    GetTextFile,
    ObjectsInfoPacks,
    ObjectsPack,
}

/// `lo` and `hi` bound one path segment of `s`: it is not empty, holds no
/// slash, and ends at the end of `s` or before a slash.
pub open spec fn is_segment(s: Seq<char>, lo: int, hi: int) -> bool {
    &&& 0 <= lo < hi <= s.len()
    &&& forall|k: int| lo <= k < hi ==> #[trigger] s[k] != '/'
    &&& (hi == s.len() || s[hi] == '/')
}

/// `path` starts with a slash, a namespace, a slash and a repository, and
/// the repository ends at `b`.
pub open spec fn in_scope(path: Seq<char>, a: int, b: int) -> bool {
    &&& path.len() > 0
    &&& path[0] == '/'
    &&& is_segment(path, 1, a)
    &&& a < path.len()
    &&& is_segment(path, a + 1, b)
}

/// `s` from `from` on is exactly `pat`.
pub open spec fn rest_is(s: Seq<char>, from: int, pat: Seq<char>) -> bool {
    occurs_at(s, pat, from) && from + pat.len() == s.len()
}

/// The handler for what follows the repository in a path, which starts at
/// `b`. The routes are tried from top to bottom.
pub open spec fn route_behind(path: Seq<char>, b: int) -> Option<Route> {
    if rest_is(path, b, "/git-upload-pack"@) {
        Some(Route::GitUploadPack)
    } else if rest_is(path, b, "/git-receive-pack"@) {
        Some(Route::GitReceivePack)
    } else if rest_is(path, b, "/info/refs"@) {
        Some(Route::InfoRefs)
    } else if rest_is(path, b, "/HEAD"@) {
        Some(Route::GetTextFile)
    } else if rest_is(path, b, "/objects/info/alternates"@) {
        Some(Route::GetTextFile)
    } else if rest_is(path, b, "/objects/info/http-alternates"@) {
        Some(Route::GetTextFile)
    } else if rest_is(path, b, "/objects/info/packs"@) {
        Some(Route::ObjectsInfoPacks)
    } else if occurs_at(path, "/objects/info/"@, b) {
        Some(Route::GetTextFile)
    } else if occurs_at(path, "/objects/pack/"@, b) && is_segment(
        path,
        b + "/objects/pack/"@.len(),
        path.len() as int,
    ) {
        Some(Route::ObjectsPack)
    } else {
        None
    }
}

/// The handler for a path: that for what follows its namespace and
/// repository; none for a path that has not both.
pub open spec fn routed(path: Seq<char>, r: Option<Route>) -> bool {
    match r {
        Some(_) => exists|a: int, b: int| in_scope(path, a, b) && route_behind(path, b) == r,
        None => forall|a: int, b: int| in_scope(path, a, b) ==> route_behind(path, b) is None,
    }
}

/// Finds where the segment that starts at `lo` ends.
fn segment_end(s: &[char], lo: usize) -> (hi: usize)
    requires
        lo <= s@.len(),
    ensures
        lo <= hi <= s@.len(),
        forall|k: int| lo <= k < hi ==> #[trigger] s@[k] != '/',
        hi == s@.len() || s@[hi as int] == '/',
{
    let n: usize = s.len();
    let mut hi: usize = lo;
    while hi < n && s[hi] != '/'
        invariant
            n == s@.len(),
            lo <= hi <= n,
            forall|k: int| lo <= k < hi ==> #[trigger] s@[k] != '/',
        decreases n - hi,
    {
        hi += 1;
    }
    hi
}

/// Tells whether `pat` stands in `s` at `from`.
fn starts_at(s: &[char], from: usize, pat: &str) -> (r: bool)
    ensures
        r == occurs_at(s@, pat@, from as int),
{
    let p = chars_of(pat);
    slice_matches_at(s, p.as_slice(), from)
}

/// Tells whether `s` from `from` on is exactly `pat`.
fn rest_matches(s: &[char], from: usize, pat: &str) -> (r: bool)
    ensures
        r == rest_is(s@, from as int, pat@),
{
    let p = chars_of(pat);
    let n: usize = s.len();
    let m: usize = p.len();
    if from > n || n - from != m {
        return false;
    }
    slice_matches_at(s, p.as_slice(), from)
}

/// Picks the handler for what follows the repository.
fn route_from(path: &[char], b: usize) -> (r: Option<Route>)
    requires
        b <= path@.len(),
    ensures
        r == route_behind(path@, b as int),
{
    if rest_matches(path, b, "/git-upload-pack") {
        Some(Route::GitUploadPack)
    } else if rest_matches(path, b, "/git-receive-pack") {
        Some(Route::GitReceivePack)
    } else if rest_matches(path, b, "/info/refs") {
        Some(Route::InfoRefs)
    } else if rest_matches(path, b, "/HEAD") {
        Some(Route::GetTextFile)
    } else if rest_matches(path, b, "/objects/info/alternates") {
        Some(Route::GetTextFile)
    } else if rest_matches(path, b, "/objects/info/http-alternates") {
        Some(Route::GetTextFile)
    } else if rest_matches(path, b, "/objects/info/packs") {
        Some(Route::ObjectsInfoPacks)
    } else if starts_at(path, b, "/objects/info/") {
        Some(Route::GetTextFile)
    } else if starts_at(path, b, "/objects/pack/") {
        proof {
            reveal_strlit("/objects/pack/");
        }
        let n: usize = path.len();
        let start: usize = b + 14;
        let end: usize = segment_end(path, start);
        if start < end && end == n {
            Some(Route::ObjectsPack)
        } else {
            None
        }
    } else {
        None
    }
}

/// Picks the handler for a path.
pub fn route(path: &str) -> (r: Option<Route>)
    ensures
        routed(path@, r),
{
    let cs = chars_of(path);
    let p = cs.as_slice();
    let n: usize = p.len();
    if n == 0 || p[0] != '/' {
        return None;
    }
    let a: usize = segment_end(p, 1);
    if a == 1 || a == n {
        assert forall|a2: int, b2: int| !in_scope(path@, a2, b2) by {
            if in_scope(path@, a2, b2) {
                if a2 < a {
                    assert(path@[a2] == '/');
                } else if a2 > a {
                    assert(path@[a as int] == '/');
                }
            }
        }
        return None;
    }
    let b: usize = segment_end(p, a + 1);
    assert forall|a2: int, b2: int| in_scope(path@, a2, b2) implies a2 == a && b2 == b by {
        if a2 < a {
            assert(path@[a2] == '/');
        } else if a2 > a {
            assert(path@[a as int] == '/');
        }
        if a2 == a {
            if b2 < b {
                assert(path@[b2] == '/');
            } else if b2 > b {
                assert(path@[b as int] == '/');
            }
        }
    }
    if b == a + 1 {
        return None;
    }
    assert(in_scope(path@, a as int, b as int));
    route_from(p, b)
}

/// A path that is routed to the pack file handler is a pack request to the
/// classifier too.
pub proof fn lemma_pack_route_is_pack_operation(path: Seq<char>, b: int)
    requires
        route_behind(path, b) == Some(Route::ObjectsPack),
    ensures
        contains(path, "objects/pack/"@),
        file_operation(path) == GitOperation::ObjectsPack,
{
    reveal_strlit("/objects/pack/");
    reveal_strlit("objects/pack/");
    assert(occurs_at(path, "/objects/pack/"@, b));
    assert forall|k: int| 0 <= k < "objects/pack/"@.len() implies path[b + 1 + k]
        == #[trigger] "objects/pack/"@[k] by {
        assert(path[b + (k + 1)] == "/objects/pack/"@[k + 1]);
    }
    assert(occurs_at(path, "objects/pack/"@, b + 1));
}

/// A path that is routed to the text file handler asks for a file
/// operation that is known: the classifier never takes it for no operation.
pub proof fn lemma_text_route_is_file_operation(path: Seq<char>, b: int)
    requires
        route_behind(path, b) == Some(Route::GetTextFile),
    ensures
        file_operation(path) != GitOperation::Other,
{
    reveal_strlit("/HEAD");
    reveal_strlit("/objects/info/alternates");
    reveal_strlit("/objects/info/http-alternates");
    reveal_strlit("/objects/info/");
    reveal_strlit("objects/info/");
    if rest_is(path, b, "/HEAD"@) {
        assert(ends_with(path, "/HEAD"@));
    } else {
        assert(occurs_at(path, "/objects/info/"@, b)) by {
            if rest_is(path, b, "/objects/info/alternates"@) {
                assert forall|k: int| 0 <= k < "/objects/info/"@.len() implies path[b + k]
                    == #[trigger] "/objects/info/"@[k] by {
                    assert(path[b + k] == "/objects/info/alternates"@[k]);
                }
            } else if rest_is(path, b, "/objects/info/http-alternates"@) {
                assert forall|k: int| 0 <= k < "/objects/info/"@.len() implies path[b + k]
                    == #[trigger] "/objects/info/"@[k] by {
                    assert(path[b + k] == "/objects/info/http-alternates"@[k]);
                }
            }
        }
        assert forall|k: int| 0 <= k < "objects/info/"@.len() implies path[b + 1 + k]
            == #[trigger] "objects/info/"@[k] by {
            assert(path[b + (k + 1)] == "/objects/info/"@[k + 1]);
        }
        assert(occurs_at(path, "objects/info/"@, b + 1));
        assert(contains(path, "objects/info/"@));
    }
}

} // verus!
