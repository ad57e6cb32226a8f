use git_http_backend::files::{
    get_text_file, http_date, no_cache, objects_info_packs, objects_pack, pack_date, pack_expiry,
    pack_file_headers, pack_file_type, text_file_headers, FileProbe, FileStep, Pending,
    LAST_SECOND, PACK_MAX_AGE,
};
use git_http_backend::gate::{AuthInput, GitConfig};
use git_http_backend::operation::GitOperation;
use git_http_backend::response::{Body, Header, Response};
use std::cell::RefCell;

struct Open {
    public: bool,
    ops: RefCell<Vec<GitOperation>>,
    repos: RefCell<Vec<String>>,
}

impl Open {
    fn new(public: bool) -> Open {
        Open { public, ops: RefCell::new(Vec::new()), repos: RefCell::new(Vec::new()) }
    }
}

impl GitConfig for Open {
    fn rewrite(&self, path: String) -> String {
        format!("/srv/git{}", path)
    }

    fn authenticate(&self, _auth: AuthInput) -> Result<(), ()> {
        Err(())
    }

    fn is_public_repo(&self, repo_path: &str) -> bool {
        self.repos.borrow_mut().push(repo_path.to_string());
        self.public
    }

    fn allow_anonymous(&self, op: GitOperation) -> bool {
        self.ops.borrow_mut().push(op);
        true
    }
}

fn pairs(hs: &[Header]) -> Vec<(String, String)> {
    hs.iter().map(|h| (h.name.clone(), h.value.clone())).collect()
}

fn pair(n: &str, v: &str) -> (String, String) {
    (n.to_string(), v.to_string())
}

fn pending(step: FileStep) -> Pending {
    match step {
        FileStep::Probe(p) => p,
        FileStep::Reject(r) => panic!("rejected with {}", r.status),
    }
}

fn rejected(step: FileStep) -> Response {
    match step {
        FileStep::Reject(r) => r,
        FileStep::Probe(p) => panic!("went on to {}", p.file),
    }
}

fn get(r: &Response, name: &str) -> Option<String> {
    r.headers.iter().find(|h| h.name == name).map(|h| h.value.clone())
}

#[test]
fn pack_file_type_and_caching() {
    let policy = Open::new(true);
    let now = 1_793_095_200;
    let date = "Tue, 27 Oct 2026 10:00:00 GMT";
    let expires = "Wed, 28 Oct 2026 10:00:00 GMT";
    let step = objects_pack(&policy, "/ns/r.git/objects/pack/foo.pack", None, now);
    let r = pending(step).finish(FileProbe::Readable);
    assert_eq!(r.status, 200);
    assert_eq!(get(&r, "Content-Type").unwrap(), "application/x-git-packed-objects");
    assert_eq!(get(&r, "Cache-Control").unwrap(), "public, max-age=86400");
    assert_eq!(get(&r, "Date").unwrap(), date);
    assert_eq!(get(&r, "Expires").unwrap(), expires);
    assert_eq!(r.headers.len(), 4);
    assert_eq!(r.body, Body::File("/srv/git/ns/r.git/objects/pack/foo.pack".to_string()));

    let step = objects_pack(&policy, "/ns/r.git/objects/pack/foo.idx", None, now);
    let r = pending(step).finish(FileProbe::Readable);
    assert_eq!(get(&r, "Content-Type").unwrap(), "application/x-git-packed-objects-toc");
    assert_eq!(get(&r, "Cache-Control").unwrap(), "public, max-age=86400");
}

#[test]
fn other_suffix_is_loose_object() {
    assert_eq!(pack_file_type("/r.git/objects/pack/foo.pack"), "application/x-git-packed-objects");
    assert_eq!(pack_file_type("/r.git/objects/pack/foo.idx"), "application/x-git-packed-objects-toc");
    assert_eq!(pack_file_type("/r.git/objects/pack/foo.bitmap"), "application/x-git-loose-object");
    assert_eq!(pack_file_type("/r.git/objects/pack/foo.pack.tmp"), "application/x-git-loose-object");
    assert_eq!(pack_file_type("/r.git/objects/pack/foo"), "application/x-git-loose-object");
    assert_eq!(pack_file_type(""), "application/x-git-loose-object");
}

#[test]
fn head_is_plain_text_never_cached() {
    let policy = Open::new(true);
    let r = pending(get_text_file(&policy, "/ns/r.git/HEAD", None)).finish(FileProbe::Readable);
    assert_eq!(r.status, 200);
    assert_eq!(get(&r, "Content-Type").unwrap(), "text/plain");
    assert_eq!(get(&r, "Cache-Control").unwrap(), "no-cache, max-age=0, must-revalidate");
    assert_eq!(get(&r, "Pragma").unwrap(), "no-cache");
    assert_eq!(get(&r, "Expires").unwrap(), "Fri, 01 Jan 1980 00:00:00 GMT");
    assert_eq!(r.headers.len(), 4);
    assert_eq!(r.body, Body::File("/srv/git/ns/r.git/HEAD".to_string()));
}

#[test]
fn missing_file_is_not_found_in_both_handlers() {
    let policy = Open::new(true);
    let r = pending(get_text_file(&policy, "/ns/r.git/HEAD", None)).finish(FileProbe::Missing);
    assert_eq!(r, Response { status: 404, headers: vec![], body: Body::Text("File not found".to_string()) });
    let step = objects_pack(&policy, "/ns/r.git/objects/pack/foo.pack", None, 0);
    let r = pending(step).finish(FileProbe::Missing);
    assert_eq!(r, Response { status: 404, headers: vec![], body: Body::Text("File not found".to_string()) });
    let r = pending(objects_info_packs(&policy, "/ns/r.git/objects/info/packs", None))
        .finish(FileProbe::Missing);
    assert_eq!(r.status, 404);
}

#[test]
fn unreadable_file_is_server_error() {
    let policy = Open::new(true);
    let r = pending(get_text_file(&policy, "/ns/r.git/HEAD", None)).finish(FileProbe::Unreadable);
    assert_eq!(
        r,
        Response { status: 500, headers: vec![], body: Body::Text("Failed to open file".to_string()) }
    );
    let step = objects_pack(&policy, "/ns/r.git/objects/pack/foo.idx", None, 0);
    assert_eq!(pending(step).finish(FileProbe::Unreadable).status, 500);
}

#[test]
fn private_repository_is_challenged_before_the_file() {
    let policy = Open::new(false);
    for r in [
        rejected(get_text_file(&policy, "/ns/r.git/HEAD", None)),
        rejected(objects_info_packs(&policy, "/ns/r.git/objects/info/packs", None)),
        rejected(objects_pack(&policy, "/ns/r.git/objects/pack/a.pack", None, 0)),
    ] {
        assert_eq!(r.status, 401);
        assert_eq!(pairs(&r.headers), vec![pair("WWW-Authenticate", "Basic realm=\"git\"")]);
        assert_eq!(r.body, Body::Empty);
    }
}

#[test]
fn gate_sees_repository_prefix_and_operation() {
    let policy = Open::new(true);
    let _ = get_text_file(&policy, "/ns/r.git/HEAD", None);
    let _ = get_text_file(&policy, "/ns/r.git/objects/info/packs", None);
    let _ = get_text_file(&policy, "/ns/r.git/objects/pack/p.pack", None);
    let _ = objects_info_packs(&policy, "/ns/r.git/objects/info/packs", None);
    let _ = objects_pack(&policy, "/ns/r.git/objects/pack/p.pack", None, 0);
    assert_eq!(
        *policy.ops.borrow(),
        vec![
            GitOperation::GetText,
            GitOperation::ObjectsInfoPacks,
            GitOperation::ObjectsPack,
            GitOperation::ObjectsInfoPacks,
            GitOperation::ObjectsPack
        ]
    );
    assert_eq!(*policy.repos.borrow(), vec!["/srv/git/ns/r.git".to_string(); 5]);
}

#[test]
fn header_lists() {
    assert_eq!(
        pairs(&no_cache()),
        vec![
            pair("Pragma", "no-cache"),
            pair("Cache-Control", "no-cache, max-age=0, must-revalidate"),
            pair("Expires", "Fri, 01 Jan 1980 00:00:00 GMT"),
        ]
    );
    assert_eq!(pairs(&text_file_headers())[3], pair("Content-Type", "text/plain"));
    assert_eq!(
        pairs(&pack_file_headers("x.idx", "now", "later")),
        vec![
            pair("Date", "now"),
            pair("Expires", "later"),
            pair("Cache-Control", "public, max-age=86400"),
            pair("Content-Type", "application/x-git-packed-objects-toc"),
        ]
    );
}

#[test]
fn pack_expires_a_day_later() {
    assert_eq!(PACK_MAX_AGE, 86400);
    assert_eq!(pack_expiry(0), 86400);
    assert_eq!(pack_expiry(1_793_095_200), 1_793_181_600);
    assert_eq!(pack_expiry(LAST_SECOND - 86400), LAST_SECOND);
    assert_eq!(pack_expiry(LAST_SECOND - 86401), LAST_SECOND - 1);
    assert_eq!(pack_expiry(LAST_SECOND - 86399), LAST_SECOND);
    assert_eq!(pack_expiry(LAST_SECOND), LAST_SECOND);
    assert_eq!(pack_expiry(u64::MAX), LAST_SECOND);
    assert_eq!(pack_date(0), 0);
    assert_eq!(pack_date(LAST_SECOND), LAST_SECOND);
    assert_eq!(pack_date(LAST_SECOND + 1), LAST_SECOND);
    assert_eq!(pack_date(u64::MAX), LAST_SECOND);
}

#[test]
fn http_dates() {
    assert_eq!(http_date(0).unwrap(), "Thu, 01 Jan 1970 00:00:00 GMT");
    assert_eq!(http_date(86399).unwrap(), "Thu, 01 Jan 1970 23:59:59 GMT");
    assert_eq!(http_date(951_782_400).unwrap(), "Tue, 29 Feb 2000 00:00:00 GMT");
    assert_eq!(http_date(1_793_095_200).unwrap(), "Tue, 27 Oct 2026 10:00:00 GMT");
    assert_eq!(http_date(LAST_SECOND).unwrap(), "Fri, 31 Dec 9999 23:59:59 GMT");
    assert_eq!(http_date(LAST_SECOND + 1), None);
    assert_eq!(http_date(u64::MAX), None);
}

#[test]
fn pack_dates_at_the_end_of_time() {
    let policy = Open::new(true);
    let step = objects_pack(&policy, "/ns/r.git/objects/pack/foo.pack", None, u64::MAX);
    let r = pending(step).finish(FileProbe::Readable);
    assert_eq!(get(&r, "Date").unwrap(), "Fri, 31 Dec 9999 23:59:59 GMT");
    assert_eq!(get(&r, "Expires").unwrap(), "Fri, 31 Dec 9999 23:59:59 GMT");
    let step = objects_pack(&policy, "/ns/r.git/objects/pack/foo.pack", None, 0);
    let r = pending(step).finish(FileProbe::Readable);
    assert_eq!(get(&r, "Date").unwrap(), "Thu, 01 Jan 1970 00:00:00 GMT");
    assert_eq!(get(&r, "Expires").unwrap(), "Fri, 02 Jan 1970 00:00:00 GMT");
}

struct Counting {
    public: bool,
    asked: RefCell<Vec<String>>,
    ops: RefCell<Vec<GitOperation>>,
}

impl GitConfig for Counting {
    fn rewrite(&self, path: String) -> String {
        self.asked.borrow_mut().push(path.clone());
        format!("/data{}", path)
    }

    fn authenticate(&self, _auth: AuthInput) -> Result<(), ()> {
        Err(())
    }

    fn is_public_repo(&self, _repo_path: &str) -> bool {
        self.public
    }

    fn allow_anonymous(&self, op: GitOperation) -> bool {
        self.ops.borrow_mut().push(op);
        op != GitOperation::Other
    }
}

fn counting(public: bool) -> Counting {
    Counting { public, asked: RefCell::new(Vec::new()), ops: RefCell::new(Vec::new()) }
}

#[test]
fn refused_request_never_names_the_file() {
    let policy = counting(false);
    let _ = rejected(get_text_file(&policy, "/ns/r.git/HEAD", None));
    let _ = rejected(objects_info_packs(&policy, "/ns/r.git/objects/info/packs", None));
    let _ = rejected(objects_pack(&policy, "/ns/r.git/objects/pack/a.pack", None, 0));
    assert_eq!(*policy.asked.borrow(), vec!["/ns/r.git".to_string(); 3]);
}

#[test]
fn admitted_request_names_prefix_then_whole_path() {
    let policy = counting(true);
    let p = pending(get_text_file(&policy, "/ns/r.git/HEAD", None));
    assert_eq!(p.file, "/data/ns/r.git/HEAD");
    let p = pending(objects_pack(&policy, "/ns/r.git/objects/pack/a.pack.idx", None, 0));
    assert_eq!(p.file, "/data/ns/r.git/objects/pack/a.pack.idx");
    assert_eq!(
        p.finish(FileProbe::Readable).headers[3].value,
        "application/x-git-packed-objects-toc"
    );
    assert_eq!(
        *policy.asked.borrow(),
        vec![
            "/ns/r.git".to_string(),
            "/ns/r.git/HEAD".to_string(),
            "/ns/r.git".to_string(),
            "/ns/r.git/objects/pack/a.pack.idx".to_string(),
        ]
    );
}

#[test]
fn unknown_file_is_authorized_as_no_known_operation() {
    let policy = counting(true);
    let r = rejected(get_text_file(&policy, "/ns/repo.git/unknown", None));
    assert_eq!(r.status, 401);
    assert_eq!(*policy.ops.borrow(), vec![GitOperation::Other]);
    assert_eq!(*policy.asked.borrow(), vec!["/ns/repo.git".to_string()]);
}
