//! The smart protocol: which pack subprocess answers a request, how it is
//! started, and what goes out around the bytes it writes.

use vstd::prelude::*;
use crate::files::{no_cache, no_cache_headers};
use crate::gate::{
    decided, ensure_auth, says_anonymous, says_authentic, says_location, says_public, GitConfig,
};
use crate::operation::{
    has_param, has_query_param, repo_prefix, repo_prefix_from_uri_path, GitOperation,
};
use crate::pktline::{announcement, service_announcement, PackService};
use crate::response::{
    challenge, header, not_found, spawn_failure, Body, BodyView, Header, Response, ResponseView,
};

verus! {

/// One run of a pack subprocess for one request.
#[derive(Clone, Debug)]
pub struct Exchange {
    /// The service that runs.
    pub service: PackService,
    /// Whether it only advertises refs, reading no request body.
    pub advertise: bool,
    /// The repository it runs against.
    pub repository: String,
}

/// What a smart handler asks of the server next.
#[derive(Clone, Debug)]
pub enum SmartStep {
    /// Send this response; no subprocess is started.
    Reject(Response),
    /// Start the subprocess, then respond with whether it started.
    Spawn(Exchange),
}

/// The service behind a smart operation; none behind any other.
pub open spec fn smart_service(op: GitOperation) -> Option<PackService> {
    match op {
        GitOperation::InfoRefsUploadPack => Some(PackService::UploadPack),
        GitOperation::UploadPack => Some(PackService::UploadPack),
        GitOperation::InfoRefsReceivePack => Some(PackService::ReceivePack),
        GitOperation::ReceivePack => Some(PackService::ReceivePack),
        _ => None,
    }
}

/// The operations that only advertise refs.
pub open spec fn advertises(op: GitOperation) -> bool {
    op == GitOperation::InfoRefsUploadPack || op == GitOperation::InfoRefsReceivePack
}

/// The operation that a ref request asks for, by its query string.
pub open spec fn advertised_operation(query: Seq<char>) -> GitOperation {
    if has_param(query, "service=git-upload-pack"@) {
        GitOperation::InfoRefsUploadPack
    } else if has_param(query, "service=git-receive-pack"@) {
        GitOperation::InfoRefsReceivePack
    } else {
        GitOperation::Other
    }
}

/// The subcommand that runs a service.
pub open spec fn service_name(service: PackService) -> Seq<char> {
    match service {
        PackService::UploadPack => "upload-pack"@,
        PackService::ReceivePack => "receive-pack"@,
    }
}

/// The arguments of the subprocess: the service, the flag for one stateless
/// turn, the flag for advertising where that is all it does, the repository.
pub open spec fn subprocess_arguments(
    service: PackService,
    advertise: bool,
    repository: Seq<char>,
) -> Seq<Seq<char>> {
    if advertise {
        seq![service_name(service), "--stateless-rpc"@, "--advertise-refs"@, repository]
    } else {
        seq![service_name(service), "--stateless-rpc"@, repository]
    }
}

/// The content type of a smart response.
pub open spec fn smart_content_type(service: PackService, advertise: bool) -> Seq<char> {
    match (service, advertise) {
        (PackService::UploadPack, true) => "application/x-git-upload-pack-advertisement"@,
        (PackService::ReceivePack, true) => "application/x-git-receive-pack-advertisement"@,
        (PackService::UploadPack, false) => "application/x-git-upload-pack-result"@,
        (PackService::ReceivePack, false) => "application/x-git-receive-pack-result"@,
    }
}

/// The headers of a smart response: an advertisement must not be cached and
/// says so; a result carries its type and nothing on caching.
pub open spec fn smart_headers(service: PackService, advertise: bool) -> Seq<
    (Seq<char>, Seq<char>),
> {
    if advertise {
        no_cache_headers().push(("Content-Type"@, smart_content_type(service, advertise)))
    } else {
        seq![("Content-Type"@, smart_content_type(service, advertise))]
    }
}

/// What goes out before the subprocess's own bytes.
pub open spec fn preamble(service: PackService, advertise: bool) -> Seq<u8> {
    if advertise {
        announcement(service)
    } else {
        Seq::empty()
    }
}

/// The response of an exchange, given whether the subprocess started.
pub open spec fn smart_response(service: PackService, advertise: bool, spawned: bool)
    -> ResponseView {
    if spawned {
        ResponseView {
            status: 200,
            headers: smart_headers(service, advertise),
            body: BodyView::Relay(preamble(service, advertise)),
        }
    } else {
        spawn_failure()
    }
}

/// The texts of a list of strings.
pub open spec fn texts_of(v: Seq<String>) -> Seq<Seq<char>> {
    Seq::new(v.len(), |i: int| v[i]@)
}

/// Plans the exchange for an operation against a repository; only the four
/// smart operations have one.
pub fn plan_exchange(op: GitOperation, repository: String) -> (plan: Option<Exchange>)
    ensures
        plan is Some <==> smart_service(op) is Some,
        plan is Some ==> {
            &&& Some(plan->Some_0.service) == smart_service(op)
            &&& plan->Some_0.advertise == advertises(op)
            &&& plan->Some_0.repository == repository
        },
{
    match op {
        GitOperation::InfoRefsUploadPack => Some(
            Exchange { service: PackService::UploadPack, advertise: true, repository },
        ),
        GitOperation::InfoRefsReceivePack => Some(
            Exchange { service: PackService::ReceivePack, advertise: true, repository },
        ),
        GitOperation::UploadPack => Some(
            Exchange { service: PackService::UploadPack, advertise: false, repository },
        ),
        GitOperation::ReceivePack => Some(
            Exchange { service: PackService::ReceivePack, advertise: false, repository },
        ),
        _ => None,
    }
}

/// Tells which operation a ref request asks for.
pub fn advertised_op(query: &str) -> (op: GitOperation)
    ensures
        op == advertised_operation(query@),
{
    if has_query_param(query, "service=git-upload-pack") {
        GitOperation::InfoRefsUploadPack
    } else if has_query_param(query, "service=git-receive-pack") {
        GitOperation::InfoRefsReceivePack
    } else {
        GitOperation::Other
    }
}

impl Exchange {
    /// The arguments to start the subprocess with.
    pub fn arguments(&self) -> (args: Vec<String>)
        ensures
            texts_of(args@) == subprocess_arguments(
                self.service,
                self.advertise,
                self.repository@,
            ),
    {
        let mut args: Vec<String> = Vec::new();
        match self.service {
            PackService::UploadPack => args.push("upload-pack".to_owned()),
            PackService::ReceivePack => args.push("receive-pack".to_owned()),
        }
        args.push("--stateless-rpc".to_owned());
        if self.advertise {
            args.push("--advertise-refs".to_owned());
        }
        args.push(self.repository.clone());
        assert(texts_of(args@) =~= subprocess_arguments(
            self.service,
            self.advertise,
            self.repository@,
        ));
        args
    }

    /// Whether the request body is passed on to the subprocess.
    pub fn relays_request_body(&self) -> (r: bool)
        ensures
            r == !self.advertise,
    {
        !self.advertise
    }

    /// The content type of the response.
    pub fn content_type(&self) -> (t: &'static str)
        ensures
            t@ == smart_content_type(self.service, self.advertise),
    {
        match (self.service, self.advertise) {
            (PackService::UploadPack, true) => "application/x-git-upload-pack-advertisement",
            (PackService::ReceivePack, true) => "application/x-git-receive-pack-advertisement",
            (PackService::UploadPack, false) => "application/x-git-upload-pack-result",
            (PackService::ReceivePack, false) => "application/x-git-receive-pack-result",
        }
    }

    /// Ends the planning with whether the subprocess started. A subprocess
    /// that did not start is answered with a bare 500. One that did is
    /// answered with the headers of its kind and a body that relays its
    /// output, behind the announcement where it advertises.
    pub fn respond(&self, spawned: bool) -> (r: Response)
        ensures
            r@ == smart_response(self.service, self.advertise, spawned),
    {
        if !spawned {
            let r = Response { status: 500, headers: Vec::new(), body: Body::Empty };
            assert(r@.headers =~= Seq::empty());
            return r;
        }
        let mut headers: Vec<Header> = if self.advertise {
            no_cache()
        } else {
            Vec::new()
        };
        headers.push(header("Content-Type", self.content_type()));
        let lead: Vec<u8> = if self.advertise {
            service_announcement(self.service)
        } else {
            Vec::new()
        };
        let r = Response { status: 200, headers, body: Body::Relay(lead) };
        assert(r@.headers =~= smart_headers(self.service, self.advertise));
        assert(lead@ =~= preamble(self.service, self.advertise));
        r
    }
}

/// A step is what the policy's answers make of a smart request: the
/// repository is where the policy says the path's prefix lies, and that
/// repository decides with `op` and the header whether the request is let
/// through. One that is turned away gets the challenge. One that is let
/// through starts the subprocess of its operation against that repository,
/// or is answered as a file that is missing where the operation has none.
pub open spec fn exchange_decided<T: GitConfig>(
    service: &T,
    op: GitOperation,
    path: Seq<char>,
    authorization: Option<String>,
    step: SmartStep,
) -> bool {
    exists|repository: String, through: bool|
        #![trigger
            says_location(service, repo_prefix(path), repository),
            decided(service, repository@, op, authorization, through)
        ]
        {
            &&& says_location(service, repo_prefix(path), repository)
            &&& decided(service, repository@, op, authorization, through)
            &&& match step {
                SmartStep::Reject(r) => if through {
                    smart_service(op) is None && r@ == not_found()
                } else {
                    r@ == challenge()
                },
                SmartStep::Spawn(x) => {
                    &&& through
                    &&& Some(x.service) == smart_service(op)
                    &&& x.advertise == advertises(op)
                    &&& x.repository == repository
                },
            }
        }
}

/// Takes a smart request up to the point where the subprocess is started.
/// The repository is found from the path's prefix and authorization is
/// decided for `op`, whatever `op` is. A request that is turned away gets
/// the challenge. One that is let through goes on to the subprocess of its
/// operation; where the operation has none, there is nothing to send and the
/// request is answered as a file that is missing.
pub fn smart_exchange<T: GitConfig>(
    service: &T,
    op: GitOperation,
    path: &str,
    authorization: Option<String>,
) -> (step: SmartStep)
    ensures
        exchange_decided(service, op, path@, authorization, step),
        match step {
            SmartStep::Reject(r) => r@ == challenge() || (smart_service(op) is None && r@
                == not_found()),
            SmartStep::Spawn(x) => Some(x.service) == smart_service(op) && x.advertise
                == advertises(op),
        },
{
    let prefix = repo_prefix_from_uri_path(path);
    let ghost asked = prefix;
    let repository = service.rewrite(prefix);
    assert(says_location(service, repo_prefix(path@), repository)) by {
        assert(asked@ == repo_prefix(path@));
    }
    let admission = ensure_auth(service, repository.as_str(), op, authorization);
    assert(decided(service, repository@, op, authorization, admission is Ok));
    match admission {
        Err(r) => SmartStep::Reject(r),
        Ok(()) => match plan_exchange(op, repository) {
            Some(plan) => SmartStep::Spawn(plan),
            None => SmartStep::Reject(Response::message(404, "File not found")),
        },
    }
}

/// Handles `POST git-upload-pack`: the smart request for the operation
/// `UploadPack`. The repository is where the policy says the path's prefix
/// lies; the policy's answers for that repository decide whether the
/// request is turned away with the challenge or goes on to `upload-pack`,
/// which then reads the request body.
pub fn git_upload_pack<T: GitConfig>(service: &T, path: &str, authorization: Option<String>) -> (step:
    SmartStep)
    ensures
        exchange_decided(service, GitOperation::UploadPack, path@, authorization, step),
        match step {
            SmartStep::Reject(r) => r@ == challenge(),
            SmartStep::Spawn(x) => x.service == PackService::UploadPack && !x.advertise,
        },
{
    smart_exchange(service, GitOperation::UploadPack, path, authorization)
}

/// Handles `POST git-receive-pack`: the smart request for the operation
/// `ReceivePack`. The repository is where the policy says the path's prefix
/// lies; the policy's answers for that repository decide whether the
/// request is turned away with the challenge or goes on to `receive-pack`,
/// which then reads the request body.
pub fn git_receive_pack<T: GitConfig>(
    service: &T,
    path: &str,
    authorization: Option<String>,
) -> (step: SmartStep)
    ensures
        exchange_decided(service, GitOperation::ReceivePack, path@, authorization, step),
        match step {
            SmartStep::Reject(r) => r@ == challenge(),
            SmartStep::Spawn(x) => x.service == PackService::ReceivePack && !x.advertise,
        },
{
    smart_exchange(service, GitOperation::ReceivePack, path, authorization)
}

/// Handles `GET info/refs`. The query names the service to advertise; a
/// query that names none is a request for no operation that is known. The
/// policy's answers decide on the request for that operation and the
/// repository that the path's prefix stands for.
pub fn info_refs<T: GitConfig>(
    service: &T,
    path: &str,
    query: &str,
    authorization: Option<String>,
) -> (step: SmartStep)
    ensures
        exchange_decided(service, advertised_operation(query@), path@, authorization, step),
        match step {
            SmartStep::Reject(r) => r@ == challenge() || (advertised_operation(query@)
                == GitOperation::Other && r@ == not_found()),
            SmartStep::Spawn(x) => x.advertise && Some(x.service) == smart_service(
                advertised_operation(query@),
            ),
        },
{
    smart_exchange(service, advertised_op(query), path, authorization)
}

/// A smart request whose operation may not go anonymous goes by the
/// authenticator alone, public repository or not: the subprocess is started
/// if the authenticator can only say yes, and the request gets the
/// challenge if it can only say no.
pub proof fn lemma_closed_exchange_goes_by_authenticator<T: GitConfig>(
    service: &T,
    op: GitOperation,
    path: Seq<char>,
    authorization: Option<String>,
    step: SmartStep,
    yes: bool,
)
    requires
        exchange_decided(service, op, path, authorization, step),
        smart_service(op) is Some,
        forall|anon_ok: bool| says_anonymous(service, op, anon_ok) ==> !anon_ok,
        forall|outcome: Result<(), ()>|
            says_authentic(service, authorization, outcome) ==> (outcome is Ok) == yes,
    ensures
        yes ==> step is Spawn,
        !yes ==> step is Reject && step->Reject_0@ == challenge(),
{
}

/// A smart request for a public repository and an operation that may go
/// anonymous starts the subprocess of its operation, whatever the
/// authenticator would say.
pub proof fn lemma_open_exchange_is_started<T: GitConfig>(
    service: &T,
    op: GitOperation,
    path: Seq<char>,
    authorization: Option<String>,
    step: SmartStep,
)
    requires
        exchange_decided(service, op, path, authorization, step),
        smart_service(op) is Some,
        forall|repository: Seq<char>, public: bool|
            says_public(service, repository, public) ==> public,
        forall|anon_ok: bool| says_anonymous(service, op, anon_ok) ==> anon_ok,
    ensures
        step is Spawn,
        Some(step->Spawn_0.service) == smart_service(op),
        step->Spawn_0.advertise == advertises(op),
        says_location(service, repo_prefix(path), step->Spawn_0.repository),
{
}

} // verus!
