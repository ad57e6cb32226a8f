//! Checking the credentials of a request against one user and password.

use vstd::prelude::*;
use crate::gate::AuthInput;
use crate::text::matches_at;

verus! {

/// The user and password that a basic `Authorization` header carries, or
/// nothing where the header is none of that kind.
pub uninterp spec fn basic_credentials(header: Seq<char>) -> Option<(Seq<char>, Seq<char>)>;

/// The model of a user and password that may be absent.
pub open spec fn credentials_view(c: Option<(String, String)>) -> Option<(Seq<char>, Seq<char>)> {
    match c {
        Some((user, password)) => Some((user@, password@)),
        None => None,
    }
}

/// The header carries exactly this user and password.
pub open spec fn header_names(header: Option<Seq<char>>, user: Seq<char>, password: Seq<char>)
    -> bool {
    header is Some && basic_credentials(header->Some_0) == Some((user, password))
}

/// Calls `http_auth_basic::Credentials::from_header`, which splits the header
/// at its first space, refuses a second one, wants the scheme `basic` before
/// it in any case of letters, decodes what stands behind it as base64 and
/// UTF-8, and cuts that at the first colon into user and password. Trusted:
/// what comes back depends on the header alone; it is the user and password
/// that the header carries, or nothing where the call fails.
#[verifier::external_body]
fn parse_basic(header: String) -> (r: Option<(String, String)>)
    ensures
        credentials_view(r) == basic_credentials(header@),
{
    match http_auth_basic::Credentials::from_header(header) {
        Ok(c) => Some((c.user_id, c.password)),
        Err(_) => None,
    }
}

/// Tells whether two texts are the same.
pub fn same_text(a: &str, b: &str) -> (r: bool)
    ensures
        r == (a@ == b@),
{
    if a.unicode_len() != b.unicode_len() {
        return false;
    }
    let r = matches_at(a, b, 0);
    proof {
        if r {
            assert(a@ =~= b@);
        }
    }
    r
}

/// Tells whether what a header carried is exactly this user and password.
pub fn credentials_match(parsed: &Option<(String, String)>, user: &str, password: &str) -> (r: bool)
    ensures
        r == (credentials_view(*parsed) == Some((user@, password@))),
{
    match parsed {
        Some((u, p)) => same_text(u.as_str(), user) && same_text(p.as_str(), password),
        None => false,
    }
}

/// Admits the request whose header carries exactly this user and password,
/// and no other: not one without a header, not one whose header is
/// malformed.
pub fn authenticate_basic(auth: AuthInput, user: &str, password: &str) -> (r: Result<(), ()>)
    ensures
        r is Ok <==> header_names(auth@, user@, password@),
{
    match auth.authorization {
        Some(h) => {
            let parsed = parse_basic(h);
            if credentials_match(&parsed, user, password) {
                Ok(())
            } else {
                Err(())
            }
        },
        None => Err(()),
    }
}

} // verus!
