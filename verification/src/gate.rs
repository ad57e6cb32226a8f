//! The authorization gate: who is let through to a repository.

use vstd::prelude::*;
use crate::operation::GitOperation;
use crate::response::{challenge, Response};

verus! {

/// The credentials of a request: the `Authorization` header as it came, or
/// nothing where the request had none.
#[derive(Clone, Debug)]
pub struct AuthInput {
    pub authorization: Option<String>,
}

/// The model of a header value that may be absent.
pub open spec fn header_view(h: Option<String>) -> Option<Seq<char>> {
    match h {
        Some(s) => Some(s@),
        None => None,
    }
}

impl View for AuthInput {
    type V = Option<Seq<char>>;

    open spec fn view(&self) -> Option<Seq<char>> {
        header_view(self.authorization)
    }
}

/// The policy that the embedding server supplies. One implementation is
/// active per server and shared by all requests.
pub trait GitConfig {
    /// Turns a URL path into the location it stands for.
    fn rewrite(&self, path: String) -> String;

    /// Checks the credentials of a request: `Ok` lets it through.
    fn authenticate(&self, auth: AuthInput) -> Result<(), ()>;

    /// Tells whether the repository at this location is public.
    fn is_public_repo(&self, repo_path: &str) -> bool;

    /// Tells whether an operation on a public repository needs no credentials.
    fn allow_anonymous(&self, op: GitOperation) -> bool;
}

/// What happens next with a request.
#[derive(Clone, Debug)]
pub enum GateStep {
    /// Let the request through; the authenticator is not asked.
    Admit,
    /// Ask the authenticator, with these credentials.
    Authenticate(AuthInput),
}

/// The operations that read, for which a public repository asks no
/// credentials unless the policy says otherwise.
pub open spec fn anonymous_by_default(op: GitOperation) -> bool {
    match op {
        GitOperation::InfoRefsUploadPack => true,
        GitOperation::UploadPack => true,
        GitOperation::GetText => true,
        GitOperation::ObjectsInfoPacks => true,
        GitOperation::ObjectsPack => true,
        GitOperation::InfoRefsReceivePack => false,
        GitOperation::ReceivePack => false,
        GitOperation::Other => false,
    }
}

/// The operations that write.
pub open spec fn is_write(op: GitOperation) -> bool {
    op == GitOperation::ReceivePack || op == GitOperation::InfoRefsReceivePack
}

/// The request passes without the authenticator being asked.
pub open spec fn passes_unasked(is_public: bool, anon_ok: bool) -> bool {
    is_public && anon_ok
}

/// The request is admitted, given what the authenticator answers when asked.
pub open spec fn admitted(is_public: bool, anon_ok: bool, outcome: Result<(), ()>) -> bool {
    passes_unasked(is_public, anon_ok) || outcome is Ok
}

/// The default answer to whether an operation may go without credentials.
pub fn default_allow_anonymous(op: GitOperation) -> (r: bool)
    ensures
        r == anonymous_by_default(op),
        is_write(op) ==> !r,
{
    match op {
        GitOperation::InfoRefsUploadPack
        | GitOperation::UploadPack
        | GitOperation::GetText
        | GitOperation::ObjectsInfoPacks
        | GitOperation::ObjectsPack => true,
        GitOperation::InfoRefsReceivePack | GitOperation::ReceivePack => false,
        GitOperation::Other => false,
    }
}

/// Decides the next step for a request. A public repository and an operation that
/// may go anonymous pass at once; every other request goes to the
/// authenticator with the header as it came, absent or not.
pub fn gate(is_public: bool, anon_ok: bool, authorization: Option<String>) -> (step: GateStep)
    ensures
        passes_unasked(is_public, anon_ok) <==> step is Admit,
        !passes_unasked(is_public, anon_ok) ==> step == GateStep::Authenticate(
            AuthInput { authorization },
        ),
{
    if is_public && anon_ok {
        GateStep::Admit
    } else {
        GateStep::Authenticate(AuthInput { authorization })
    }
}

/// Turns the authenticator's answer into the outcome for the request:
/// through, or the challenge.
pub fn verdict(outcome: Result<(), ()>) -> (r: Result<(), Response>)
    ensures
        r is Ok <==> outcome is Ok,
        r is Err ==> r->Err_0@ == challenge(),
{
    match outcome {
        Ok(()) => Ok(()),
        Err(()) => Err(Response::unauthorized()),
    }
}

/// The policy can answer `public` when asked whether the repository at
/// `repo_path` is public.
pub open spec fn says_public<T: GitConfig>(service: &T, repo_path: Seq<char>, public: bool) -> bool {
    exists|p: &str| #[trigger] p@ == repo_path && call_ensures(T::is_public_repo, (service, p), public)
}

/// The policy can answer `location` when asked where `path` lies.
pub open spec fn says_location<T: GitConfig>(service: &T, path: Seq<char>, location: String) -> bool {
    exists|p: String| #[trigger] p@ == path && call_ensures(T::rewrite, (service, p), location)
}

/// The policy can answer `anon_ok` when asked whether `op` may go without
/// credentials.
pub open spec fn says_anonymous<T: GitConfig>(service: &T, op: GitOperation, anon_ok: bool) -> bool {
    call_ensures(T::allow_anonymous, (service, op), anon_ok)
}

/// The policy's authenticator can answer `outcome` when it is handed the
/// header as it came.
pub open spec fn says_authentic<T: GitConfig>(
    service: &T,
    authorization: Option<String>,
    outcome: Result<(), ()>,
) -> bool {
    call_ensures(T::authenticate, (service, AuthInput { authorization }), outcome)
}

/// A request is let through, or not, by what the policy answers: it asks
/// whether the repository is public and whether the operation may go
/// without credentials; where both hold the request is through, and else
/// it is through exactly when the authenticator, handed the header as it
/// came, says yes.
pub open spec fn decided<T: GitConfig>(
    service: &T,
    repo_path: Seq<char>,
    op: GitOperation,
    authorization: Option<String>,
    through: bool,
) -> bool {
    exists|public: bool, anon_ok: bool|
        {
            &&& #[trigger] says_public(service, repo_path, public)
            &&& #[trigger] says_anonymous(service, op, anon_ok)
            &&& if passes_unasked(public, anon_ok) {
                through
            } else {
                exists|outcome: Result<(), ()>| #[trigger]
                    says_authentic(service, authorization, outcome) && through == (outcome is Ok)
            }
        }
}

/// Decides on one request against a policy. The request is let through or
/// turned away by what the policy answers to the three questions, and one
/// that is turned away gets the challenge and nothing else.
pub fn ensure_auth<T: GitConfig>(
    service: &T,
    repo_path: &str,
    op: GitOperation,
    authorization: Option<String>,
) -> (r: Result<(), Response>)
    ensures
        decided(service, repo_path@, op, authorization, r is Ok),
        r is Err ==> r->Err_0@ == challenge(),
{
    let is_public = service.is_public_repo(repo_path);
    let anon_ok = service.allow_anonymous(op);
    assert(says_public(service, repo_path@, is_public));
    assert(says_anonymous(service, op, anon_ok));
    match gate(is_public, anon_ok, authorization) {
        GateStep::Admit => Ok(()),
        GateStep::Authenticate(input) => {
            let outcome = service.authenticate(input);
            assert(says_authentic(service, authorization, outcome));
            verdict(outcome)
        },
    }
}

/// A public repository and an operation that may go anonymous: the request
/// is admitted and the authenticator is not asked, whatever it would say.
/// Every operation that reads is such an operation under the default policy.
pub proof fn lemma_public_read_passes_unasked(op: GitOperation, outcome: Result<(), ()>)
    requires
        anonymous_by_default(op),
    ensures
        passes_unasked(true, anonymous_by_default(op)),
        admitted(true, anonymous_by_default(op), outcome),
{
}

/// Under the default policy an operation that writes never passes unasked,
/// public repository or not: it is admitted exactly when the authenticator
/// says yes.
pub proof fn lemma_write_needs_authentication(
    op: GitOperation,
    is_public: bool,
    outcome: Result<(), ()>,
)
    requires
        is_write(op),
    ensures
        !passes_unasked(is_public, anonymous_by_default(op)),
        admitted(is_public, anonymous_by_default(op), outcome) <==> outcome is Ok,
{
}

} // verus!
