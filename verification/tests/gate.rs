use git_http_backend::gate::{
    default_allow_anonymous, ensure_auth, gate, verdict, AuthInput, GateStep, GitConfig,
};
use git_http_backend::operation::GitOperation;
use git_http_backend::response::{Body, Response};
use std::cell::{Cell, RefCell};

struct Policy {
    public: bool,
    accept: bool,
    asked: Cell<u32>,
    seen: RefCell<Option<Option<String>>>,
}

impl Policy {
    fn new(public: bool, accept: bool) -> Policy {
        Policy { public, accept, asked: Cell::new(0), seen: RefCell::new(None) }
    }
}

impl GitConfig for Policy {
    fn rewrite(&self, path: String) -> String {
        format!("/srv{}", path)
    }

    fn authenticate(&self, auth: AuthInput) -> Result<(), ()> {
        self.asked.set(self.asked.get() + 1);
        *self.seen.borrow_mut() = Some(auth.authorization);
        if self.accept {
            Ok(())
        } else {
            Err(())
        }
    }

    fn is_public_repo(&self, _repo_path: &str) -> bool {
        self.public
    }

    fn allow_anonymous(&self, op: GitOperation) -> bool {
        default_allow_anonymous(op)
    }
}

const ALL: [GitOperation; 8] = [
    GitOperation::InfoRefsUploadPack,
    GitOperation::InfoRefsReceivePack,
    GitOperation::UploadPack,
    GitOperation::ReceivePack,
    GitOperation::GetText,
    GitOperation::ObjectsInfoPacks,
    GitOperation::ObjectsPack,
    GitOperation::Other,
];

const READS: [GitOperation; 5] = [
    GitOperation::InfoRefsUploadPack,
    GitOperation::UploadPack,
    GitOperation::GetText,
    GitOperation::ObjectsInfoPacks,
    GitOperation::ObjectsPack,
];

fn assert_challenge(r: &Response) {
    assert_eq!(r.status, 401);
    assert_eq!(r.headers.len(), 1);
    assert_eq!(r.headers[0].name, "WWW-Authenticate");
    assert_eq!(r.headers[0].value, "Basic realm=\"git\"");
    assert_eq!(r.body, Body::Empty);
}

#[test]
fn default_policy_opens_reads_only() {
    for op in ALL {
        assert_eq!(default_allow_anonymous(op), READS.contains(&op));
    }
}

#[test]
fn public_read_is_admitted_without_asking() {
    for op in READS {
        let policy = Policy::new(true, false);
        assert!(ensure_auth(&policy, "/srv/ns/r.git", op, None).is_ok());
        assert_eq!(policy.asked.get(), 0);
        let policy = Policy::new(true, false);
        assert!(ensure_auth(&policy, "/srv/ns/r.git", op, Some("Basic x".to_string())).is_ok());
        assert_eq!(policy.asked.get(), 0);
    }
}

#[test]
fn write_always_asks_the_authenticator() {
    for op in [GitOperation::ReceivePack, GitOperation::InfoRefsReceivePack] {
        for public in [true, false] {
            let policy = Policy::new(public, false);
            let r = ensure_auth(&policy, "/srv/ns/r.git", op, None);
            assert_challenge(&r.unwrap_err());
            assert_eq!(policy.asked.get(), 1);

            let policy = Policy::new(public, true);
            assert!(ensure_auth(&policy, "/srv/ns/r.git", op, Some("Basic abc".to_string())).is_ok());
            assert_eq!(policy.asked.get(), 1);
        }
    }
}

#[test]
fn private_read_asks_the_authenticator() {
    for op in READS {
        let policy = Policy::new(false, false);
        assert_challenge(&ensure_auth(&policy, "/srv/ns/r.git", op, None).unwrap_err());
        assert_eq!(policy.asked.get(), 1);
        let policy = Policy::new(false, true);
        assert!(ensure_auth(&policy, "/srv/ns/r.git", op, None).is_ok());
        assert_eq!(policy.asked.get(), 1);
    }
}

#[test]
fn unknown_operation_is_never_anonymous() {
    let policy = Policy::new(true, false);
    assert_challenge(&ensure_auth(&policy, "/srv/x", GitOperation::Other, None).unwrap_err());
    assert_eq!(policy.asked.get(), 1);
}

#[test]
fn header_is_forwarded_as_it_came() {
    let policy = Policy::new(false, true);
    let _ = ensure_auth(&policy, "/r", GitOperation::GetText, Some("Bearer t0k".to_string()));
    assert_eq!(*policy.seen.borrow(), Some(Some("Bearer t0k".to_string())));
    let policy = Policy::new(false, true);
    let _ = ensure_auth(&policy, "/r", GitOperation::GetText, None);
    assert_eq!(*policy.seen.borrow(), Some(None));
}

#[test]
fn gate_steps() {
    assert!(matches!(gate(true, true, Some("x".to_string())), GateStep::Admit));
    for (public, anon) in [(true, false), (false, true), (false, false)] {
        match gate(public, anon, Some("x".to_string())) {
            GateStep::Authenticate(input) => assert_eq!(input.authorization, Some("x".to_string())),
            GateStep::Admit => panic!("admitted"),
        }
        match gate(public, anon, None) {
            GateStep::Authenticate(input) => assert_eq!(input.authorization, None),
            GateStep::Admit => panic!("admitted"),
        }
    }
}

#[test]
fn verdict_is_through_or_challenge() {
    assert!(verdict(Ok(())).is_ok());
    assert_challenge(&verdict(Err(())).unwrap_err());
}

#[test]
fn rejection_names_no_repository() {
    let r = Response::unauthorized();
    assert_challenge(&r);
    assert_eq!(r, verdict(Err(())).unwrap_err());
}
