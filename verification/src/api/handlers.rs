//! What the HTTP handlers decide: which requests are accepted, which
//! deployments are queued, and which status answers each outcome.
use vstd::prelude::*;
use vstd::string::*;
use crate::error::{AppError, DeploymentError, ValidationError};
use crate::deployment::pipeline::{Deployment, DeploymentConfig, DeploymentQueue};
use crate::providers::github::{GitHubProvider, WebhookEvent, webhook_event_of, expected_signature, strip_sha256_prefix};
use crate::text::str_eq;

verus! {

pub struct HealthResponse {
    pub status: String,
    pub version: String,
}

pub struct ErrorResponse {
    pub error: String,
    pub code: u16,
}

pub struct CreateDeploymentRequest {
    pub project_name: String,
    pub owner: String,
    pub repo: String,
    pub branch: String,
    pub commit_sha: Option<String>,
    pub domain: Option<String>,
    pub notify_email: Option<String>,
}

pub struct ChatRequest {
    pub message: String,
}

pub struct ChatResponse {
    pub response: String,
}

pub struct AnalyzeCodeRequest {
    pub code: String,
    pub language: String,
}

pub struct HealthReadyResponse {
    pub status: String,
    pub version: String,
    pub checks: HealthChecks,
}

pub struct HealthChecks {
    pub queue: HealthCheckResult,
    pub github: HealthCheckResult,
    pub s3: HealthCheckResult,
    pub cloudflare: HealthCheckResult,
}

pub struct HealthCheckResult {
    pub status: String,
    pub latency: Option<u64>,
    pub error: Option<String>,
}

pub struct WebhookPushPayload {
    pub git_ref: String,
    pub repository: WebhookRepository,
    pub head_commit: Option<WebhookCommit>,
}

pub struct WebhookRepository {
    pub name: String,
    pub full_name: String,
    pub default_branch: String,
}

pub struct WebhookCommit {
    pub id: String,
    pub message: String,
}

// ---------------------------------------------------------------------------
// Health

/// The answer of the liveness probe.
pub fn health_response(version: &str) -> (r: HealthResponse)
    ensures
        r.status@ == "ok"@,
        r.version@ == version@,
{
    HealthResponse { status: "ok".to_owned(), version: version.to_owned() }
}

impl HealthCheckResult {
    /// A check that passed after `latency` milliseconds.
    pub fn passed(latency: u64) -> (r: HealthCheckResult)
        ensures
            r.status@ == "ok"@,
            r.latency == Some(latency),
            r.error is None,
    {
        HealthCheckResult { status: "ok".to_owned(), latency: Some(latency), error: None }
    }

    /// A check that failed with `error` after `latency` milliseconds.
    pub fn degraded(latency: u64, error: String) -> (r: HealthCheckResult)
        ensures
            r.status@ == "degraded"@,
            r.latency == Some(latency),
            r.error == Some(error),
    {
        HealthCheckResult { status: "degraded".to_owned(), latency: Some(latency), error: Some(error) }
    }
}

/// The readiness of the service: ready when GitHub, the store and Cloudflare
/// all answered.
pub open spec fn ready(checks: HealthChecks) -> bool {
    checks.github.status@ == "ok"@ && checks.s3.status@ == "ok"@ && checks.cloudflare.status@ == "ok"@
}

/// The readiness answer: `ok` with 200 when every outside service answered,
/// `degraded` with 503 otherwise.
pub fn health_ready_response(version: &str, checks: HealthChecks) -> (r: (HealthReadyResponse, u16))
    ensures
        ready(checks) ==> r.0.status@ == "ok"@ && r.1 == 200,
        !ready(checks) ==> r.0.status@ == "degraded"@ && r.1 == 503,
        r.0.version@ == version@,
        r.0.checks == checks,
{
    let all_ok = str_eq(checks.github.status.as_str(), "ok") && str_eq(checks.s3.status.as_str(), "ok")
        && str_eq(checks.cloudflare.status.as_str(), "ok");
    let (status, code) = if all_ok { ("ok", 200u16) } else { ("degraded", 503u16) };
    (HealthReadyResponse { status: status.to_owned(), version: version.to_owned(), checks }, code)
}

// ---------------------------------------------------------------------------
// Deployments

/// What came of a request to create a deployment.
pub enum SubmitOutcome {
    /// Queued under this identifier: 201.
    Created(u128),
    /// The configuration is invalid: 400.
    Rejected(AppError),
    /// The queue is full: 503.
    QueueFull(AppError),
}

impl SubmitOutcome {
    pub open spec fn spec_status(self) -> u16 {
        match self {
            SubmitOutcome::Created(_) => 201,
            SubmitOutcome::Rejected(_) => 400,
            SubmitOutcome::QueueFull(_) => 503,
        }
    }

    pub fn status(&self) -> (s: u16)
        ensures
            s == self.spec_status(),
    {
        match self {
            SubmitOutcome::Created(_) => 201,
            SubmitOutcome::Rejected(_) => 400,
            SubmitOutcome::QueueFull(_) => 503,
        }
    }
}

impl CreateDeploymentRequest {
    pub open spec fn spec_config(self) -> DeploymentConfig {
        DeploymentConfig {
            project_name: self.project_name,
            owner: self.owner,
            repo: self.repo,
            branch: self.branch,
            commit_sha: self.commit_sha,
            domain: self.domain,
            notify_email: self.notify_email,
        }
    }

    /// The deployment configuration the request describes.
    pub fn into_config(self) -> (c: DeploymentConfig)
        ensures
            c == self.spec_config(),
    {
        DeploymentConfig {
            project_name: self.project_name,
            owner: self.owner,
            repo: self.repo,
            branch: self.branch,
            commit_sha: self.commit_sha,
            domain: self.domain,
            notify_email: self.notify_email,
        }
    }
}

/// `d` is a deployment just created at `now`: pending, not started, without a
/// result and with an empty log.
pub open spec fn is_fresh(d: Deployment, now: i64) -> bool {
    &&& d.state == crate::deployment::pipeline::DeploymentState::Pending
    &&& d.result is None
    &&& d.started_at is None
    &&& d.logs@.len() == 0
    &&& d.created_at == now
    &&& d.updated_at == now
}

/// The error of a queue that is full.
pub open spec fn queue_full(q: DeploymentQueue) -> AppError {
    AppError::Deployment(DeploymentError::QueueFull { current: q.items().len() as usize, capacity: q.spec_capacity() })
}

/// Creates the deployment that `config` describes under identifier `id` at
/// time `now`, and queues it.
pub fn submit_deployment(queue: &mut DeploymentQueue, config: DeploymentConfig, id: u128, now: i64) -> (r: SubmitOutcome)
    requires
        old(queue).inv(),
    ensures
        final(queue).inv(),
        final(queue).spec_capacity() == old(queue).spec_capacity(),
        config.validation_outcome() is Err ==> r == SubmitOutcome::Rejected(config.validation_outcome()->Err_0)
            && final(queue).items() == old(queue).items(),
        config.validation_outcome() is Ok && old(queue).items().len() >= old(queue).spec_capacity() ==>
            r == SubmitOutcome::QueueFull(queue_full(*old(queue))) && final(queue).items() == old(queue).items(),
        config.validation_outcome() is Ok && old(queue).items().len() < old(queue).spec_capacity() ==>
            r == SubmitOutcome::Created(id) && final(queue).items().len() == old(queue).items().len() + 1
            && final(queue).items().take(old(queue).items().len() as int) == old(queue).items()
            && final(queue).items().last().id == id
            && final(queue).items().last().config == config
            && is_fresh(final(queue).items().last(), now),
{
    let deployment = match Deployment::new_with(config, id, now) {
        Ok(d) => d,
        Err(e) => return SubmitOutcome::Rejected(e),
    };
    let ghost before = queue.items();
    match queue.enqueue(deployment) {
        Ok(()) => {
            assert(queue.items().take(before.len() as int) =~= before);
            SubmitOutcome::Created(id)
        },
        Err(e) => SubmitOutcome::QueueFull(e),
    }
}

/// The refusal of a chat request with no message.
pub fn check_chat_request(request: &ChatRequest) -> (r: Option<&'static str>)
    ensures
        r is Some <==> request.message@.len() == 0,
        r matches Some(m) ==> m@ == "message cannot be empty"@,
{
    if request.message.as_str().is_empty() {
        return Some("message cannot be empty");
    }
    None
}

/// The refusal of an analysis request without code or without a language.
pub fn check_analyze_request(request: &AnalyzeCodeRequest) -> (r: Option<&'static str>)
    ensures
        request.code@.len() == 0 ==> (r matches Some(m) && m@ == "code cannot be empty"@),
        request.code@.len() > 0 && request.language@.len() == 0 ==> (r matches Some(m) && m@ == "language cannot be empty"@),
        request.code@.len() > 0 && request.language@.len() > 0 ==> r is None,
{
    if request.code.as_str().is_empty() {
        return Some("code cannot be empty");
    }
    if request.language.as_str().is_empty() {
        return Some("language cannot be empty");
    }
    None
}

} // verus!

verus! {

// ---------------------------------------------------------------------------
// GitHub webhooks

/// The answer to a webhook delivery.
pub enum WebhookReply {
    /// No signature header: 401.
    MissingSignature,
    /// A signature header that is not text: 400.
    InvalidSignatureHeader,
    /// No webhook secret is configured: 500.
    SecretNotConfigured,
    /// The signature does not match the payload: 401.
    InvalidSignature,
    /// The signature could not be checked: 400.
    SignatureError(AppError),
    /// An event other than a push, which is acknowledged and ignored: 200.
    Ignored(String),
    /// A push payload that does not parse, with the parser's message: 400.
    InvalidPayload(String),
    /// A repository name that is not `owner/name`: 400.
    InvalidRepositoryName,
    /// The push does not describe a valid deployment: 400.
    InvalidDeployment(AppError),
    /// The queue is full: 503.
    QueueFull(AppError),
    /// A deployment was queued under this identifier: 200.
    Queued(u128),
}

impl WebhookReply {
    pub open spec fn spec_status(self) -> u16 {
        match self {
            WebhookReply::MissingSignature => 401,
            WebhookReply::InvalidSignatureHeader => 400,
            WebhookReply::SecretNotConfigured => 500,
            WebhookReply::InvalidSignature => 401,
            WebhookReply::SignatureError(_) => 400,
            WebhookReply::Ignored(_) => 200,
            WebhookReply::InvalidPayload(_) => 400,
            WebhookReply::InvalidRepositoryName => 400,
            WebhookReply::InvalidDeployment(_) => 400,
            WebhookReply::QueueFull(_) => 503,
            WebhookReply::Queued(_) => 200,
        }
    }

    pub fn status(&self) -> (s: u16)
        ensures
            s == self.spec_status(),
    {
        match self {
            WebhookReply::MissingSignature => 401,
            WebhookReply::InvalidSignatureHeader => 400,
            WebhookReply::SecretNotConfigured => 500,
            WebhookReply::InvalidSignature => 401,
            WebhookReply::SignatureError(_) => 400,
            WebhookReply::Ignored(_) => 200,
            WebhookReply::InvalidPayload(_) => 400,
            WebhookReply::InvalidRepositoryName => 400,
            WebhookReply::InvalidDeployment(_) => 400,
            WebhookReply::QueueFull(_) => 503,
            WebhookReply::Queued(_) => 200,
        }
    }
}

/// What to do with a webhook delivery once its headers and signature are
/// checked.
pub enum WebhookCheck {
    /// Answer at once.
    Reply(WebhookReply),
    /// A signed push: parse its payload and queue a deployment.
    ParsePush,
}

/// The event name a delivery carries; `unknown` when the header is absent or
/// not text.
pub open spec fn event_name(event_type: Option<&str>) -> Seq<char> {
    match event_type {
        Some(e) => e@,
        None => "unknown"@,
    }
}

/// Checks a webhook delivery: the signature header is there and is text, a
/// secret is configured, the signature matches the body, and the event is a
/// push.
pub fn github_webhook_check(
    signature: Option<Option<&str>>,
    secret: Option<&str>,
    event_type: Option<&str>,
    body: &[u8],
) -> (r: WebhookCheck)
    requires
        body@.len() < 0x1000_0000_0000_0000,
    ensures
        signature is None ==> r == WebhookCheck::Reply(WebhookReply::MissingSignature),
        signature == Some::<Option<&str>>(None) ==> r == WebhookCheck::Reply(WebhookReply::InvalidSignatureHeader),
        signature matches Some(Some(sig)) ==> {
            match secret {
                None => r == WebhookCheck::Reply(WebhookReply::SecretNotConfigured),
                Some(key) => if key.spec_bytes().len() == 0 {
                    r == WebhookCheck::Reply(WebhookReply::SignatureError(
                        AppError::Validation(ValidationError::Empty { field: "secret" })))
                } else if sig.spec_bytes().len() == 0 {
                    r == WebhookCheck::Reply(WebhookReply::SignatureError(
                        AppError::Validation(ValidationError::Empty { field: "signature" })))
                } else if expected_signature(key.spec_bytes(), body@) != strip_sha256_prefix(sig.spec_bytes()) {
                    r == WebhookCheck::Reply(WebhookReply::InvalidSignature)
                } else if webhook_event_of(event_name(event_type)) != WebhookEvent::Push {
                    r matches WebhookCheck::Reply(WebhookReply::Ignored(e)) && e@ == event_name(event_type)
                } else {
                    r == WebhookCheck::ParsePush
                },
            }
        },
{
    let sig = match signature {
        None => return WebhookCheck::Reply(WebhookReply::MissingSignature),
        Some(None) => return WebhookCheck::Reply(WebhookReply::InvalidSignatureHeader),
        Some(Some(s)) => s,
    };
    let key = match secret {
        None => return WebhookCheck::Reply(WebhookReply::SecretNotConfigured),
        Some(k) => k,
    };
    match GitHubProvider::verify_webhook_signature(key, sig, body) {
        Ok(true) => {},
        Ok(false) => return WebhookCheck::Reply(WebhookReply::InvalidSignature),
        Err(e) => return WebhookCheck::Reply(WebhookReply::SignatureError(e)),
    }
    let event_text: &str = match event_type {
        Some(e) => e,
        None => "unknown",
    };
    let event = GitHubProvider::parse_webhook_event(event_text);
    if event != WebhookEvent::Push {
        return WebhookCheck::Reply(WebhookReply::Ignored(event_text.to_owned()));
    }
    WebhookCheck::ParsePush
}

/// The branch a ref names: the ref without `refs/heads/`, if it has that prefix.
pub open spec fn branch_of_ref(r: Seq<char>) -> Seq<char> {
    if r.len() >= 11 && r.take(11) == "refs/heads/"@ { r.skip(11) } else { r }
}

/// `s` holds exactly one `/`, at position `i`.
pub open spec fn only_slash_at(s: Seq<char>, i: int) -> bool {
    &&& 0 <= i < s.len()
    &&& s[i] == '/'
    &&& forall|j: int| 0 <= j < s.len() && j != i ==> s[j] != '/'
}

/// `owner/name` split at its one `/`; `None` unless there is exactly one.
pub open spec fn split_full_name(s: Seq<char>) -> Option<(Seq<char>, Seq<char>)> {
    if exists|i: int| only_slash_at(s, i) {
        let i = choose|i: int| only_slash_at(s, i);
        Some((s.take(i), s.skip(i + 1)))
    } else {
        None
    }
}

fn strip_refs_heads(git_ref: &str) -> (b: String)
    ensures
        b@ == branch_of_ref(git_ref@),
{
    let n = git_ref.unicode_len();
    if n >= 11 {
        let head = git_ref.substring_char(0, 11);
        if str_eq(head, "refs/heads/") {
            return git_ref.substring_char(11, n).to_owned();
        }
    }
    git_ref.to_owned()
}

fn split_on_slash(s: &str) -> (r: Option<(String, String)>)
    ensures
        match split_full_name(s@) {
            Some((a, b)) => r matches Some(p) && p.0@ == a && p.1@ == b,
            None => r is None,
        },
{
    let n = s.unicode_len();
    let mut found: Option<usize> = None;
    let mut i: usize = 0;
    while i < n
        invariant
            n == s@.len(),
            i <= n,
            match found {
                None => forall|j: int| 0 <= j < i ==> s@[j] != '/',
                Some(p) => p < i && s@[p as int] == '/' && forall|j: int| 0 <= j < i && j != p ==> s@[j] != '/',
            },
        decreases n - i,
    {
        if s.get_char(i) == '/' {
            match found {
                None => {
                    found = Some(i);
                },
                Some(p) => {
                    assert forall|k: int| !only_slash_at(s@, k) by {
                        if only_slash_at(s@, k) {
                            if k != p { assert(s@[p as int] == '/'); } else { assert(s@[i as int] == '/'); }
                        }
                    }
                    return None;
                },
            }
        }
        i = i + 1;
    }
    match found {
        None => {
            assert forall|k: int| !only_slash_at(s@, k) by {}
            None
        },
        Some(p) => {
            assert(only_slash_at(s@, p as int));
            assert forall|k: int| only_slash_at(s@, k) implies k == p by {
                if k != p { assert(s@[p as int] == '/'); }
            }
            let owner = s.substring_char(0, p).to_owned();
            let name = s.substring_char(p + 1, n).to_owned();
            Some((owner, name))
        },
    }
}

/// The deployment a push describes: project and repository named after the
/// repository, owner from its full name, branch from the ref, commit from the
/// head commit.
pub open spec fn push_config(payload: WebhookPushPayload, owner: Seq<char>, name: Seq<char>, c: DeploymentConfig) -> bool {
    &&& c.project_name@ == name
    &&& c.owner@ == owner
    &&& c.repo@ == name
    &&& c.branch@ == branch_of_ref(payload.git_ref@)
    &&& c.commit_sha == match payload.head_commit { Some(h) => Some(h.id), None => None }
    &&& c.domain is None
    &&& c.notify_email is None
}

/// Queues the deployment that a signed push describes, under identifier `id`
/// at time `now`.
pub fn github_webhook_enqueue(queue: &mut DeploymentQueue, payload: &WebhookPushPayload, id: u128, now: i64) -> (r: WebhookReply)
    requires
        old(queue).inv(),
    ensures
        final(queue).inv(),
        final(queue).spec_capacity() == old(queue).spec_capacity(),
        split_full_name(payload.repository.full_name@) is None ==> r == WebhookReply::InvalidRepositoryName
            && final(queue).items() == old(queue).items(),
        split_full_name(payload.repository.full_name@) matches Some((owner, name)) ==> exists|c: DeploymentConfig| {
            &&& #[trigger] push_config(*payload, owner, name, c)
            &&& c.validation_outcome() is Err ==> r == WebhookReply::InvalidDeployment(c.validation_outcome()->Err_0)
                && final(queue).items() == old(queue).items()
            &&& c.validation_outcome() is Ok && old(queue).items().len() >= old(queue).spec_capacity()
                ==> r == WebhookReply::QueueFull(queue_full(*old(queue))) && final(queue).items() == old(queue).items()
            &&& c.validation_outcome() is Ok && old(queue).items().len() < old(queue).spec_capacity()
                ==> r == WebhookReply::Queued(id) && final(queue).items().len() == old(queue).items().len() + 1
                && final(queue).items().take(old(queue).items().len() as int) == old(queue).items()
                && final(queue).items().last().id == id
                && final(queue).items().last().config == c
                && is_fresh(final(queue).items().last(), now)
        },
{
    let branch = strip_refs_heads(payload.git_ref.as_str());
    let (owner, name) = match split_on_slash(payload.repository.full_name.as_str()) {
        Some(p) => p,
        None => return WebhookReply::InvalidRepositoryName,
    };
    let commit_sha = match &payload.head_commit {
        Some(c) => Some(c.id.clone()),
        None => None,
    };
    let config = DeploymentConfig {
        project_name: name.clone(),
        owner,
        repo: name,
        branch,
        commit_sha,
        domain: None,
        notify_email: None,
    };
    let ghost c = config;
    assert(push_config(*payload, c.owner@, c.repo@, c));
    match submit_deployment(queue, config, id, now) {
        SubmitOutcome::Created(i) => WebhookReply::Queued(i),
        SubmitOutcome::Rejected(e) => WebhookReply::InvalidDeployment(e),
        SubmitOutcome::QueueFull(e) => WebhookReply::QueueFull(e),
    }
}

} // verus!
