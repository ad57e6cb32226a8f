//! The operations of the Git HTTP transport, and how a request is told apart.

use vstd::prelude::*;
use crate::text::{
    chars_of, contains, ends_with, find, first_occurrence, occurs_at,
    slice_has_substring, slice_has_suffix, slice_matches_at,
};

verus! {

/// What a request asks of a repository.
#[derive(Clone, Copy, Debug, PartialEq, Eq, Structural)]
pub enum GitOperation {
    /// GET /info/refs?service=git-upload-pack
    InfoRefsUploadPack,
    /// GET /info/refs?service=git-receive-pack
    InfoRefsReceivePack,
    /// POST /git-upload-pack
    UploadPack,
    /// POST /git-receive-pack
    ReceivePack,
    /// GET text endpoints like HEAD or objects/info/*
    GetText,
    /// GET objects/info/packs
    ObjectsInfoPacks,
    /// GET objects/pack/*.pack or *.idx
    ObjectsPack,
    /// Anything that is no Git operation.
    Other,
}

/// The request method, as far as the transport tells methods apart.
#[derive(Clone, Copy, Debug, PartialEq, Eq, Structural)]
pub enum HttpMethod {
    Get,
    Post,
    Other,
}

/// The repository prefix of a URL path: the path up to and including the
/// leftmost `.git`, or the whole path where it holds none.
pub open spec fn repo_prefix(path: Seq<char>) -> Seq<char> {
    if exists|i: int| first_occurrence(path, ".git"@, i) {
        let i = choose|i: int| first_occurrence(path, ".git"@, i);
        path.subrange(0, i + ".git"@.len())
    } else {
        path
    }
}

/// The operation of a `GET` request for a file, by its path alone: a pack
/// file, the list of packs, a text file (`HEAD`, anything under
/// `objects/info/`), or none that is known.
pub open spec fn file_operation(path: Seq<char>) -> GitOperation {
    if contains(path, "objects/pack/"@) {
        GitOperation::ObjectsPack
    } else if contains(path, "objects/info/packs"@) {
        GitOperation::ObjectsInfoPacks
    } else if ends_with(path, "/HEAD"@) || contains(path, "objects/info/"@) {
        GitOperation::GetText
    } else {
        GitOperation::Other
    }
}

/// The query string holds `param` as one whole `&`-separated parameter.
pub open spec fn has_param(query: Seq<char>, param: Seq<char>) -> bool {
    exists|i: int| param_at(query, param, i)
}

/// `param` stands in `query` at `i`, bounded on both sides by `&` or by an
/// end of the query.
pub open spec fn param_at(query: Seq<char>, param: Seq<char>, i: int) -> bool {
    &&& occurs_at(query, param, i)
    &&& (i == 0 || query[i - 1] == '&')
    &&& (i + param.len() == query.len() || query[i + param.len()] == '&')
}

/// The operation of a request, by method, path and query string. The rules
/// are tried from top to bottom and the first that applies decides.
pub open spec fn operation_of(method: HttpMethod, path: Seq<char>, query: Seq<char>) -> GitOperation {
    if contains(path, "objects/pack/"@) {
        GitOperation::ObjectsPack
    } else if contains(path, "objects/info/packs"@) {
        GitOperation::ObjectsInfoPacks
    } else if ends_with(path, "/info/refs"@) && has_param(query, "service=git-upload-pack"@) {
        GitOperation::InfoRefsUploadPack
    } else if ends_with(path, "/info/refs"@) && has_param(query, "service=git-receive-pack"@) {
        GitOperation::InfoRefsReceivePack
    } else if method == HttpMethod::Post && ends_with(path, "/git-upload-pack"@) {
        GitOperation::UploadPack
    } else if method == HttpMethod::Post && ends_with(path, "/git-receive-pack"@) {
        GitOperation::ReceivePack
    } else if method == HttpMethod::Get && (ends_with(path, "/HEAD"@) || contains(
        path,
        "objects/info/"@,
    )) {
        GitOperation::GetText
    } else {
        GitOperation::Other
    }
}

/// The leftmost occurrence of a pattern is unique.
pub proof fn lemma_first_occurrence_unique(s: Seq<char>, pat: Seq<char>, i: int, j: int)
    requires
        first_occurrence(s, pat, i),
        first_occurrence(s, pat, j),
    ensures
        i == j,
{
}

/// Cuts a URL path down to its repository prefix.
pub fn repo_prefix_from_uri_path(path: &str) -> (prefix: String)
    ensures
        prefix@ == repo_prefix(path@),
{
    let n: usize = path.unicode_len();
    match find(path, ".git") {
        Some(i) => {
            proof {
                reveal_strlit(".git");
                let c = choose|c: int| first_occurrence(path@, ".git"@, c);
                lemma_first_occurrence_unique(path@, ".git"@, i as int, c);
            }
            path.substring_char(0, i + 4).to_owned()
        },
        None => path.to_owned(),
    }
}

/// Tells which file operation a path asks for; a path that names no file
/// of the transport asks for none that is known.
pub fn op_from_path(path: &str) -> (op: GitOperation)
    ensures
        op == file_operation(path@),
        op == operation_of(HttpMethod::Get, path@, Seq::empty()),
        contains(path@, "objects/pack/"@) ==> op == GitOperation::ObjectsPack,
{
    proof {
        lemma_file_operation_is_get_classification(path@);
    }
    let cs = chars_of(path);
    let p = cs.as_slice();
    if slice_has_substring(p, "objects/pack/") {
        GitOperation::ObjectsPack
    } else if slice_has_substring(p, "objects/info/packs") {
        GitOperation::ObjectsInfoPacks
    } else if slice_has_suffix(p, "/HEAD") || slice_has_substring(p, "objects/info/") {
        GitOperation::GetText
    } else {
        GitOperation::Other
    }
}

/// Tells whether `param` is one whole parameter of the query.
fn slice_has_param(query: &[char], param: &str) -> (r: bool)
    ensures
        r == has_param(query@, param@),
{
    let p = chars_of(param);
    let n: usize = query.len();
    let m: usize = p.len();
    if m > n {
        return false;
    }
    let last: usize = n - m;
    let mut i: usize = 0;
    loop
        invariant
            n == query@.len(),
            m == param@.len(),
            p@ == param@,
            last == n - m,
            i <= last,
            forall|j: int| 0 <= j < i ==> !param_at(query@, param@, j),
        decreases last - i,
    {
        if (i == 0 || query[i - 1] == '&') && (i == last || query[i + m] == '&')
            && slice_matches_at(query, p.as_slice(), i) {
            assert(param_at(query@, param@, i as int));
            return true;
        }
        if i == last {
            return false;
        }
        i += 1;
    }
}

/// Tells whether the query string holds `param` as one whole parameter.
pub fn has_query_param(query: &str, param: &str) -> (r: bool)
    ensures
        r == has_param(query@, param@),
{
    let q = chars_of(query);
    slice_has_param(q.as_slice(), param)
}

/// Classifies a request.
pub fn classify(method: HttpMethod, path: &str, query: &str) -> (op: GitOperation)
    ensures
        op == operation_of(method, path@, query@),
        contains(path@, "objects/pack/"@) ==> op == GitOperation::ObjectsPack,
{
    let cs = chars_of(path);
    let p = cs.as_slice();
    let qs = chars_of(query);
    let q = qs.as_slice();
    if slice_has_substring(p, "objects/pack/") {
        GitOperation::ObjectsPack
    } else if slice_has_substring(p, "objects/info/packs") {
        GitOperation::ObjectsInfoPacks
    } else if slice_has_suffix(p, "/info/refs") && slice_has_param(q, "service=git-upload-pack") {
        GitOperation::InfoRefsUploadPack
    } else if slice_has_suffix(p, "/info/refs") && slice_has_param(q, "service=git-receive-pack") {
        GitOperation::InfoRefsReceivePack
    } else if method == HttpMethod::Post && slice_has_suffix(p, "/git-upload-pack") {
        GitOperation::UploadPack
    } else if method == HttpMethod::Post && slice_has_suffix(p, "/git-receive-pack") {
        GitOperation::ReceivePack
    } else if method == HttpMethod::Get && (slice_has_suffix(p, "/HEAD") || slice_has_substring(
        p,
        "objects/info/",
    )) {
        GitOperation::GetText
    } else {
        GitOperation::Other
    }
}

/// A path that names something under `objects/pack/` is a pack request,
/// whatever else the path, the method or the query hold.
pub proof fn lemma_pack_path_wins(method: HttpMethod, path: Seq<char>, query: Seq<char>)
    requires
        contains(path, "objects/pack/"@),
    ensures
        operation_of(method, path, query) == GitOperation::ObjectsPack,
        file_operation(path) == GitOperation::ObjectsPack,
{
}

/// The file operation of a path is what the classifier makes of a `GET`
/// request for that path without a query.
pub proof fn lemma_file_operation_is_get_classification(path: Seq<char>)
    ensures
        file_operation(path) == operation_of(HttpMethod::Get, path, Seq::empty()),
{
    reveal_strlit("service=git-upload-pack");
    reveal_strlit("service=git-receive-pack");
    assert forall|i: int| !param_at(Seq::<char>::empty(), "service=git-upload-pack"@, i) by {}
    assert forall|i: int| !param_at(Seq::<char>::empty(), "service=git-receive-pack"@, i) by {}
}

/// The repository prefix is a prefix of the path it was cut from.
pub proof fn lemma_repo_prefix_is_prefix(path: Seq<char>)
    ensures
        repo_prefix(path).is_prefix_of(path),
{
    if exists|i: int| first_occurrence(path, ".git"@, i) {
        let i = choose|i: int| first_occurrence(path, ".git"@, i);
        assert(repo_prefix(path) =~= path.subrange(0, i + ".git"@.len()));
    }
}

} // verus!
