//! The default policy: repositories under one root, public where they say
//! so themselves, reading open to everyone, nobody authenticated.

use vstd::prelude::*;
use crate::config::GitHttpConfig;
use crate::gate::{anonymous_by_default, default_allow_anonymous, is_write, AuthInput};
use crate::operation::GitOperation;
use crate::text::chars_of;

verus! {

/// The default policy of a server.
#[derive(Clone, Debug)]
pub struct ActixGitHttp {
    pub config: GitHttpConfig,
}

/// A white-space character.
pub open spec fn is_space(c: char) -> bool {
    let x = c as int;
    ||| 0x09 <= x <= 0x0d
    ||| x == 0x20
    ||| x == 0x85
    ||| x == 0xa0
    ||| x == 0x1680
    ||| 0x2000 <= x <= 0x200a
    ||| x == 0x2028
    ||| x == 0x2029
    ||| x == 0x202f
    ||| x == 0x205f
    ||| x == 0x3000
}

/// A character with the ASCII capitals folded onto the small letters.
pub open spec fn fold(c: char) -> int {
    let x = c as int;
    if 65 <= x <= 90 {
        x + 32
    } else {
        x
    }
}

/// `d` stands in `s` at `a`, ASCII case aside.
pub open spec fn reads_at(s: Seq<char>, a: int, d: Seq<char>) -> bool {
    &&& 0 <= a
    &&& a + d.len() <= s.len()
    &&& forall|k: int| 0 <= k < d.len() ==> fold(#[trigger] s[a + k]) == fold(d[k])
}

/// Everything of `s` from `lo` up to `hi` is white space.
pub open spec fn blank(s: Seq<char>, lo: int, hi: int) -> bool {
    forall|k: int| lo <= k < hi ==> is_space(#[trigger] s[k])
}

/// `lo` and `hi` bound one line of `s`: it starts at the start or behind a
/// newline, ends at the end or before a newline, and holds no newline.
pub open spec fn is_line(s: Seq<char>, lo: int, hi: int) -> bool {
    &&& 0 <= lo <= hi <= s.len()
    &&& (lo == 0 || s[lo - 1] == '\n')
    &&& (hi == s.len() || s[hi] == '\n')
    &&& forall|k: int| lo <= k < hi ==> #[trigger] s[k] != '\n'
}

/// The part of `s` from `lo` up to `hi` is `d` at `a`, ASCII case aside,
/// with nothing but white space around it.
pub open spec fn says_at(s: Seq<char>, lo: int, hi: int, d: Seq<char>, a: int) -> bool {
    &&& lo <= a
    &&& a + d.len() <= hi
    &&& blank(s, lo, a)
    &&& reads_at(s, a, d)
    &&& blank(s, a + d.len(), hi)
}

/// The part of `s` from `lo` up to `hi`, white space at its ends aside, is
/// `d`, ASCII case aside.
pub open spec fn says(s: Seq<char>, lo: int, hi: int, d: Seq<char>) -> bool {
    exists|a: int| says_at(s, lo, hi, d, a)
}

/// Some line of `s` says `d`.
pub open spec fn some_line_says(s: Seq<char>, d: Seq<char>) -> bool {
    exists|lo: int, hi: int| is_line(s, lo, hi) && says(s, lo, hi, d)
}

/// A repository's configuration opens it to everyone: one of its lines is
/// the directive `http.allowAnonymous = true`.
pub open spec fn allows_anonymous(config: Seq<char>) -> bool {
    some_line_says(config, "http.allowAnonymous = true"@)
}

/// A repository is public where it holds the export marker or its
/// configuration, if it could be read, opens it.
pub open spec fn public_repo(export_ok: bool, config: Option<Seq<char>>) -> bool {
    export_ok || (config is Some && allows_anonymous(config->Some_0))
}

/// Tells whether a character is white space.
pub fn is_whitespace(c: char) -> (r: bool)
    ensures
        r == is_space(c),
{
    let x: u32 = c as u32;
    (0x09 <= x && x <= 0x0d) || x == 0x20 || x == 0x85 || x == 0xa0 || x == 0x1680 || (0x2000 <= x
        && x <= 0x200a) || x == 0x2028 || x == 0x2029 || x == 0x202f || x == 0x205f || x == 0x3000
}

fn folded(c: char) -> (r: u32)
    ensures
        r == fold(c),
{
    let x: u32 = c as u32;
    if 65 <= x && x <= 90 {
        x + 32
    } else {
        x
    }
}

/// Tells whether the part of `s` from `lo` up to `hi` says `d`.
fn part_says(s: &[char], lo: usize, hi: usize, d: &[char]) -> (r: bool)
    requires
        lo <= hi <= s@.len(),
        d@.len() > 0,
        !is_space(d@[0]),
    ensures
        r == says(s@, lo as int, hi as int, d@),
{
    let m: usize = d.len();
    let mut a: usize = lo;
    while a < hi && is_whitespace(s[a])
        invariant
            lo <= a <= hi <= s@.len(),
            blank(s@, lo as int, a as int),
        decreases hi - a,
    {
        a += 1;
    }
    assert forall|b: int| b != a implies !says_at(s@, lo as int, hi as int, d@, b) by {
        if says_at(s@, lo as int, hi as int, d@, b) {
            if b < a {
                assert(is_space(s@[b]));
                assert(fold(s@[b + 0]) == fold(d@[0]));
            } else {
                assert(is_space(s@[a as int]));
            }
        }
    }
    if m > hi - a {
        return false;
    }
    let mut k: usize = 0;
    while k < m
        invariant
            m == d@.len(),
            lo <= a,
            a + m <= hi <= s@.len(),
            k <= m,
            blank(s@, lo as int, a as int),
            forall|b: int| b != a ==> !says_at(s@, lo as int, hi as int, d@, b),
            forall|j: int| 0 <= j < k ==> fold(#[trigger] s@[a + j]) == fold(d@[j]),
        decreases m - k,
    {
        if folded(s[a + k]) != folded(d[k]) {
            assert(!reads_at(s@, a as int, d@)) by {
                if reads_at(s@, a as int, d@) {
                    assert(fold(s@[a + k]) == fold(d@[k as int]));
                }
            }
            return false;
        }
        k += 1;
    }
    assert(reads_at(s@, a as int, d@));
    let mut e: usize = a + m;
    while e < hi
        invariant
            m == d@.len(),
            lo <= a,
            a + m <= e <= hi <= s@.len(),
            blank(s@, lo as int, a as int),
            reads_at(s@, a as int, d@),
            forall|b: int| b != a ==> !says_at(s@, lo as int, hi as int, d@, b),
            blank(s@, a + m, e as int),
        decreases hi - e,
    {
        if !is_whitespace(s[e]) {
            assert(!blank(s@, a + m, hi as int)) by {
                if blank(s@, a + m, hi as int) {
                    assert(is_space(s@[e as int]));
                }
            }
            return false;
        }
        e += 1;
    }
    assert(says_at(s@, lo as int, hi as int, d@, a as int));
    true
}

/// Tells whether some line of `s` says `d`.
fn any_line_says(s: &[char], d: &[char]) -> (r: bool)
    requires
        d@.len() > 0,
        !is_space(d@[0]),
    ensures
        r == some_line_says(s@, d@),
{
    let n: usize = s.len();
    let mut lo: usize = 0;
    loop
        invariant
            n == s@.len(),
            lo <= n,
            lo == 0 || s@[lo - 1] == '\n',
            d@.len() > 0,
            !is_space(d@[0]),
            forall|l: int, h: int| l < lo && is_line(s@, l, h) ==> !says(s@, l, h, d@),
        decreases n - lo,
    {
        let mut hi: usize = lo;
        while hi < n && s[hi] != '\n'
            invariant
                n == s@.len(),
                lo <= hi <= n,
                forall|k: int| lo <= k < hi ==> #[trigger] s@[k] != '\n',
            decreases n - hi,
        {
            hi += 1;
        }
        assert(is_line(s@, lo as int, hi as int));
        if part_says(s, lo, hi, d) {
            return true;
        }
        assert forall|l: int, h: int| l <= hi && is_line(s@, l, h) implies !says(s@, l, h, d@) by {
            if l >= lo {
                if l > lo {
                    assert(s@[l - 1] == '\n');
                }
                if h < hi {
                    assert(s@[h] == '\n');
                }
                if h > hi {
                    assert(s@[hi as int] == '\n');
                }
            }
        }
        if hi == n {
            return false;
        }
        lo = hi + 1;
    }
}

/// Tells whether a repository's configuration opens it to everyone.
pub fn config_allows_anonymous(config: &str) -> (r: bool)
    ensures
        r == allows_anonymous(config@),
{
    proof {
        reveal_strlit("http.allowAnonymous = true");
    }
    let text = chars_of(config);
    let directive = chars_of("http.allowAnonymous = true");
    any_line_says(text.as_slice(), directive.as_slice())
}

/// Calls `std::path::Path::join` on the root, with the path as its
/// argument. What comes of it depends on what the platform takes for an
/// absolute path, so nothing is claimed of the result.
#[verifier::external_body]
fn join_under(root: &str, path: &str) -> (joined: String) {
    std::path::Path::new(root).join(path).to_string_lossy().into_owned()
}

impl ActixGitHttp {
    /// Finds the location that a URL path stands for: the path, joined to
    /// the root as the platform joins paths.
    pub fn rewrite(&self, path: String) -> (location: String) {
        join_under(self.config.root.as_str(), path.as_str())
    }

    /// Turns nobody's credentials into admission.
    pub fn authenticate(&self, auth: AuthInput) -> (r: Result<(), ()>)
        ensures
            r is Err,
    {
        Err(())
    }

    /// Tells whether a repository is public, from what was found in it:
    /// whether the marker `git-daemon-export-ok` is there, and the text of
    /// its `config` file where that could be read.
    pub fn is_public_repo(&self, export_ok: bool, config: Option<&str>) -> (r: bool)
        ensures
            r == public_repo(
                export_ok,
                match config {
                    Some(c) => Some(c@),
                    None => None,
                },
            ),
    {
        if export_ok {
            return true;
        }
        match config {
            Some(c) => config_allows_anonymous(c),
            None => false,
        }
    }

    /// Tells whether an operation on a public repository needs no
    /// credentials: reading does not, writing does.
    pub fn allow_anonymous(&self, op: GitOperation) -> (r: bool)
        ensures
            r == anonymous_by_default(op),
            is_write(op) ==> !r,
    {
        default_allow_anonymous(op)
    }
}

} // verus!
