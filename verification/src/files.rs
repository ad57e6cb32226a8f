//! Static serving of repository files: text files that may change and are
//! never cached, and pack files that never change and are cached for a day.

use vstd::prelude::*;
use crate::gate::{
    decided, ensure_auth, says_anonymous, says_authentic, says_location, says_public, GitConfig,
};
use crate::operation::{
    file_operation, op_from_path, repo_prefix, repo_prefix_from_uri_path, GitOperation,
};
use crate::response::{
    challenge, header, headers_of, not_found, open_failure, Body, BodyView, Header, Response,
    ResponseView,
};
use crate::text::{ends_with, has_suffix};

verus! {

/// What the server found when it looked at a file.
#[derive(Clone, Copy, Debug, PartialEq, Eq, Structural)]
pub enum FileProbe {
    /// There is no such file.
    Missing,
    /// The file is there and could not be opened.
    Unreadable,
    /// The file is there and open.
    Readable,
}

/// A file request that was let through and waits for the server to look at
/// the file.
#[derive(Clone, Debug)]
pub struct Pending {
    /// The location of the file.
    pub file: String,
    /// The headers that go out with the file.
    pub headers: Vec<Header>,
}

/// What a file handler asks of the server next.
#[derive(Clone, Debug)]
pub enum FileStep {
    /// Send this response; the file is not touched.
    Reject(Response),
    /// Look at the file, then finish with what was found.
    Probe(Pending),
}

/// The headers that forbid caching.
pub open spec fn no_cache_headers() -> Seq<(Seq<char>, Seq<char>)> {
    seq![
        ("Pragma"@, "no-cache"@),
        ("Cache-Control"@, "no-cache, max-age=0, must-revalidate"@),
        ("Expires"@, "Fri, 01 Jan 1980 00:00:00 GMT"@),
    ]
}

/// The headers of a text file.
pub open spec fn text_headers() -> Seq<(Seq<char>, Seq<char>)> {
    no_cache_headers().push(("Content-Type"@, "text/plain"@))
}

/// The content type of a file under `objects/pack/`, by its suffix.
pub open spec fn pack_content_type(path: Seq<char>) -> Seq<char> {
    if ends_with(path, ".pack"@) {
        "application/x-git-packed-objects"@
    } else if ends_with(path, ".idx"@) {
        "application/x-git-packed-objects-toc"@
    } else {
        "application/x-git-loose-object"@
    }
}

/// The headers of a pack file served at `date` that may be kept until
/// `expires`.
pub open spec fn pack_headers(path: Seq<char>, date: Seq<char>, expires: Seq<char>) -> Seq<
    (Seq<char>, Seq<char>),
> {
    seq![
        ("Date"@, date),
        ("Expires"@, expires),
        ("Cache-Control"@, "public, max-age=86400"@),
        ("Content-Type"@, pack_content_type(path)),
    ]
}

/// The response for a file, given what the server found.
pub open spec fn file_response(
    probe: FileProbe,
    file: Seq<char>,
    headers: Seq<(Seq<char>, Seq<char>)>,
) -> ResponseView {
    match probe {
        FileProbe::Missing => not_found(),
        FileProbe::Unreadable => open_failure(),
        FileProbe::Readable => ResponseView { status: 200, headers, body: BodyView::File(file) },
    }
}

/// The number of seconds for which a pack file may be cached.
pub const PACK_MAX_AGE: u64 = 86400;

/// The last second that an HTTP date can name: the end of the year 9999.
pub const LAST_SECOND: u64 = 253_402_300_799;

/// The HTTP date of the time that lies so many seconds behind the start of
/// 1970, as in `Thu, 01 Jan 1970 00:00:00 GMT`.
pub uninterp spec fn http_date_text(seconds: u64) -> Seq<char>;

/// The time that a response gives as its date: the time of the request, or
/// the last second there is a date for.
pub open spec fn served_at(now: u64) -> u64 {
    if now <= LAST_SECOND {
        now
    } else {
        LAST_SECOND
    }
}

/// The time until which a pack file served at `now` may be kept: a day
/// later, or the last second there is a date for.
pub open spec fn expiry(now: u64) -> u64 {
    if now + PACK_MAX_AGE <= LAST_SECOND {
        (now + PACK_MAX_AGE) as u64
    } else {
        LAST_SECOND
    }
}

/// Calls `actix_web::http::header::HttpDate::from` on the time that lies
/// `seconds` behind the start of 1970, and `to_string` on what it gives.
/// Trusted: the text depends on the seconds alone, and is their HTTP date.
/// Times behind the year 9999, on which the formatter stops, are left out.
#[verifier::external_body]
fn format_http_date(seconds: u64) -> (text: String)
    requires
        seconds <= LAST_SECOND,
    ensures
        text@ == http_date_text(seconds),
{
    let time = std::time::UNIX_EPOCH + std::time::Duration::from_secs(seconds);
    actix_web::http::header::HttpDate::from(time).to_string()
}

/// Writes a time as an HTTP date. A time behind the year 9999 has none.
pub fn http_date(seconds: u64) -> (text: Option<String>)
    ensures
        text is Some <==> seconds <= LAST_SECOND,
        text is Some ==> text->Some_0@ == http_date_text(seconds),
{
    if seconds <= LAST_SECOND {
        Some(format_http_date(seconds))
    } else {
        None
    }
}

/// The time that a response served at `now` gives as its date.
pub fn pack_date(now: u64) -> (date: u64)
    ensures
        date == served_at(now),
{
    if now <= LAST_SECOND {
        now
    } else {
        LAST_SECOND
    }
}

/// The time until which a pack file served at `now` may be kept.
pub fn pack_expiry(now: u64) -> (expires: u64)
    ensures
        expires == expiry(now),
        expires <= LAST_SECOND,
{
    if now <= LAST_SECOND - PACK_MAX_AGE {
        now + PACK_MAX_AGE
    } else {
        LAST_SECOND
    }
}

/// Builds the headers that forbid caching.
pub fn no_cache() -> (hs: Vec<Header>)
    ensures
        headers_of(hs@) == no_cache_headers(),
{
    let mut hs: Vec<Header> = Vec::new();
    hs.push(header("Pragma", "no-cache"));
    hs.push(header("Cache-Control", "no-cache, max-age=0, must-revalidate"));
    hs.push(header("Expires", "Fri, 01 Jan 1980 00:00:00 GMT"));
    assert(headers_of(hs@) =~= no_cache_headers());
    hs
}

/// Builds the headers of a text file.
pub fn text_file_headers() -> (hs: Vec<Header>)
    ensures
        headers_of(hs@) == text_headers(),
{
    let mut hs = no_cache();
    hs.push(header("Content-Type", "text/plain"));
    assert(headers_of(hs@) =~= text_headers());
    hs
}

/// Picks the content type of a file under `objects/pack/`.
pub fn pack_file_type(path: &str) -> (t: &'static str)
    ensures
        t@ == pack_content_type(path@),
{
    if has_suffix(path, ".pack") {
        "application/x-git-packed-objects"
    } else if has_suffix(path, ".idx") {
        "application/x-git-packed-objects-toc"
    } else {
        "application/x-git-loose-object"
    }
}

/// Builds the headers of a pack file.
pub fn pack_file_headers(path: &str, date: &str, expires: &str) -> (hs: Vec<Header>)
    ensures
        headers_of(hs@) == pack_headers(path@, date@, expires@),
{
    let mut hs: Vec<Header> = Vec::new();
    hs.push(header("Date", date));
    hs.push(header("Expires", expires));
    hs.push(header("Cache-Control", "public, max-age=86400"));
    hs.push(header("Content-Type", pack_file_type(path)));
    assert(headers_of(hs@) =~= pack_headers(path@, date@, expires@));
    hs
}

impl Pending {
    /// Ends a file request with what the server found: the file with its
    /// headers, or the plain message for a file that is missing or cannot be
    /// opened.
    pub fn finish(self, probe: FileProbe) -> (r: Response)
        ensures
            r@ == file_response(probe, self.file@, headers_of(self.headers@)),
    {
        match probe {
            FileProbe::Missing => Response::message(404, "File not found"),
            FileProbe::Unreadable => Response::message(500, "Failed to open file"),
            FileProbe::Readable => Response {
                status: 200,
                headers: self.headers,
                body: Body::File(self.file),
            },
        }
    }
}

/// A step is what the policy's answers make of a file request. The
/// repository is where the policy says the path's prefix lies, and that
/// repository decides with `op` and the header whether the request is let
/// through. One that is turned away gets the challenge, and no file is
/// named. One that is let through goes on to the file that lies where the
/// same policy says the whole path lies, with these headers.
pub open spec fn file_decided<T: GitConfig>(
    service: &T,
    op: GitOperation,
    path: Seq<char>,
    authorization: Option<String>,
    headers: Seq<(Seq<char>, Seq<char>)>,
    step: FileStep,
) -> bool {
    exists|repository: String, through: bool|
        #![trigger
            says_location(service, repo_prefix(path), repository),
            decided(service, repository@, op, authorization, through)
        ]
        {
            &&& says_location(service, repo_prefix(path), repository)
            &&& decided(service, repository@, op, authorization, through)
            &&& match step {
                FileStep::Reject(r) => !through && r@ == challenge(),
                FileStep::Probe(p) => {
                    &&& through
                    &&& says_location(service, path, p.file)
                    &&& headers_of(p.headers@) == headers
                },
            }
        }
}

/// Takes a file request up to the point where the file is looked at: the
/// repository is found from the path's prefix, authorization is decided
/// for `op`, and the file is found from the whole path, by the same policy.
fn admit_file<T: GitConfig>(
    service: &T,
    path: &str,
    op: GitOperation,
    authorization: Option<String>,
    headers: Vec<Header>,
) -> (step: FileStep)
    ensures
        file_decided(service, op, path@, authorization, headers_of(headers@), step),
        match step {
            FileStep::Reject(r) => r@ == challenge(),
            FileStep::Probe(p) => p.headers == headers,
        },
{
    let prefix = repo_prefix_from_uri_path(path);
    let ghost asked = prefix;
    let repo_path = service.rewrite(prefix);
    assert(says_location(service, repo_prefix(path@), repo_path)) by {
        assert(asked@ == repo_prefix(path@));
    }
    let admission = ensure_auth(service, repo_path.as_str(), op, authorization);
    assert(decided(service, repo_path@, op, authorization, admission is Ok));
    match admission {
        Err(r) => FileStep::Reject(r),
        Ok(()) => {
            let whole = path.to_owned();
            let ghost named = whole;
            let file = service.rewrite(whole);
            assert(says_location(service, path@, file)) by {
                assert(named@ == path@);
            }
            FileStep::Probe(Pending { file, headers })
        },
    }
}

/// Handles a request for a text file (`HEAD`, anything under
/// `objects/info/`). The policy's answers decide on the request, for the
/// file operation of its path: one that is turned away gets the challenge;
/// every other one goes on to the file with the headers that forbid caching
/// and the type `text/plain`.
pub fn get_text_file<T: GitConfig>(service: &T, path: &str, authorization: Option<String>) -> (step:
    FileStep)
    ensures
        file_decided(
            service,
            file_operation(path@),
            path@,
            authorization,
            text_headers(),
            step,
        ),
        match step {
            FileStep::Reject(r) => r@ == challenge(),
            FileStep::Probe(p) => headers_of(p.headers@) == text_headers(),
        },
{
    admit_file(service, path, op_from_path(path), authorization, text_file_headers())
}

/// Handles a request for the list of packs, `objects/info/packs`: as a text
/// file, under its own operation.
pub fn objects_info_packs<T: GitConfig>(
    service: &T,
    path: &str,
    authorization: Option<String>,
) -> (step: FileStep)
    ensures
        file_decided(
            service,
            GitOperation::ObjectsInfoPacks,
            path@,
            authorization,
            text_headers(),
            step,
        ),
        match step {
            FileStep::Reject(r) => r@ == challenge(),
            FileStep::Probe(p) => headers_of(p.headers@) == text_headers(),
        },
{
    admit_file(service, path, GitOperation::ObjectsInfoPacks, authorization, text_file_headers())
}

/// Handles a request for a file under `objects/pack/`, at the time `now`
/// in seconds since the start of 1970. The policy's answers decide on the
/// request, for the operation `ObjectsPack`: one that is turned away gets
/// the challenge; every other one goes on to the file with the headers of a
/// pack file: the date of the request, the expiry a day later, the type by
/// the path's suffix.
pub fn objects_pack<T: GitConfig>(
    service: &T,
    path: &str,
    authorization: Option<String>,
    now: u64,
) -> (step: FileStep)
    ensures
        file_decided(
            service,
            GitOperation::ObjectsPack,
            path@,
            authorization,
            pack_headers(path@, http_date_text(served_at(now)), http_date_text(expiry(now))),
            step,
        ),
        match step {
            FileStep::Reject(r) => r@ == challenge(),
            FileStep::Probe(p) => headers_of(p.headers@) == pack_headers(
                path@,
                http_date_text(served_at(now)),
                http_date_text(expiry(now)),
            ),
        },
{
    let date = format_http_date(pack_date(now));
    let expires = format_http_date(pack_expiry(now));
    admit_file(
        service,
        path,
        GitOperation::ObjectsPack,
        authorization,
        pack_file_headers(path, date.as_str(), expires.as_str()),
    )
}

/// A request for a public repository and an operation that may go
/// anonymous goes on to the file, whatever the authenticator would say:
/// where the policy has no other answer to the two questions, the step
/// names the file that the whole path stands for, with the headers of its
/// handler, and what is sent then depends on the file alone.
pub proof fn lemma_open_request_reaches_file<T: GitConfig>(
    service: &T,
    op: GitOperation,
    path: Seq<char>,
    authorization: Option<String>,
    headers: Seq<(Seq<char>, Seq<char>)>,
    step: FileStep,
)
    requires
        file_decided(service, op, path, authorization, headers, step),
        forall|repository: Seq<char>, public: bool|
            says_public(service, repository, public) ==> public,
        forall|anon_ok: bool| says_anonymous(service, op, anon_ok) ==> anon_ok,
    ensures
        step is Probe,
        says_location(service, path, step->Probe_0.file),
        headers_of(step->Probe_0.headers@) == headers,
        forall|probe: FileProbe| #[trigger]
            file_response(probe, step->Probe_0.file@, headers) == match probe {
                FileProbe::Missing => not_found(),
                FileProbe::Unreadable => open_failure(),
                FileProbe::Readable => ResponseView {
                    status: 200,
                    headers,
                    body: BodyView::File(step->Probe_0.file@),
                },
            },
{
}

/// A request that may not pass unasked goes by the authenticator alone:
/// where the operation may not go anonymous, the request goes on to the
/// file if the authenticator can only say yes, and gets the challenge,
/// with no file named, if it can only say no.
pub proof fn lemma_closed_request_goes_by_authenticator<T: GitConfig>(
    service: &T,
    op: GitOperation,
    path: Seq<char>,
    authorization: Option<String>,
    headers: Seq<(Seq<char>, Seq<char>)>,
    step: FileStep,
    yes: bool,
)
    requires
        file_decided(service, op, path, authorization, headers, step),
        forall|anon_ok: bool| says_anonymous(service, op, anon_ok) ==> !anon_ok,
        forall|outcome: Result<(), ()>|
            says_authentic(service, authorization, outcome) ==> (outcome is Ok) == yes,
    ensures
        yes ==> step is Probe && says_location(service, path, step->Probe_0.file),
        !yes ==> step is Reject && step->Reject_0@ == challenge(),
{
}

/// A file that is missing is answered with 404 and the plain message,
/// whichever handler and headers the request came with.
pub proof fn lemma_missing_file_is_not_found(
    file: Seq<char>,
    headers: Seq<(Seq<char>, Seq<char>)>,
)
    ensures
        file_response(FileProbe::Missing, file, headers) == not_found(),
        not_found().status == 404,
        not_found().body == BodyView::Text("File not found"@),
{
}

} // verus!
