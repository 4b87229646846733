//! GitHub: the requests this service sends to the REST API, how it reads the
//! answers, when it retries, and how it checks webhook signatures.
use vstd::prelude::*;
use vstd::string::*;
use crate::error::{AppError, GitHubError, StorageError, ValidationError, Result};
use crate::config::GitHubConfig;
use crate::validation::{
    validate_github_owner, validate_github_repo, validate_git_branch, github_owner_outcome,
    github_repo_outcome, git_branch_outcome, invalid,
};
use crate::deployment::pipeline::first_error;
use crate::text::{str_eq, hex_string, hex_of_bytes, parse_u32, parse_u64, u32_text, u64_text};
use crate::crypto::{hmac_sha256, hmac_sha256_tag};

verus! {

pub const GITHUB_API_BASE: &'static str = "https://api.github.com";
pub const TIMEOUT_SECONDS: u64 = 30;
pub const MAX_RETRIES: u32 = 3;
pub const INITIAL_RETRY_INTERVAL_MS: u64 = 500;
pub const MAX_RETRY_INTERVAL_MS: u64 = 10000;
pub const ARCHIVE_SIZE_LIMIT_BYTES: usize = 104857600;

#[derive(Debug, Clone)]
pub struct Repository {
    pub id: u64,
    pub name: String,
    pub full_name: String,
    pub default_branch: String,
    pub clone_url: String,
    pub private: bool,
}

#[derive(Debug, Clone)]
pub struct Branch {
    pub name: String,
    pub commit: CommitRef,
}

#[derive(Debug, Clone)]
pub struct CommitRef {
    pub sha: String,
    pub url: String,
}

#[derive(Debug, Clone)]
pub struct Commit {
    pub sha: String,
    pub message: String,
    pub author: Option<CommitAuthor>,
}

#[derive(Debug, Clone)]
pub struct CommitAuthor {
    pub name: String,
    pub email: String,
    pub date: String,
}

#[derive(Debug, Clone)]
pub struct WebhookPayload {
    pub event_type: WebhookEvent,
    pub repository: String,
    pub branch: String,
    pub commit_sha: String,
}

#[derive(Debug, Clone, Copy, PartialEq, Eq, Structural)]
pub enum WebhookEvent {
    Push,
    PullRequest,
    Release,
    Unknown,
}

// ---------------------------------------------------------------------------
// Percent-encoding of path segments

pub open spec fn is_unreserved(c: u8) -> bool {
    (48 <= c <= 57) || (65 <= c <= 90) || (97 <= c <= 122) || c == 45 || c == 46 || c == 95 || c == 126
}

pub open spec fn hex_upper(d: nat) -> char {
    if d < 10 { (48 + d) as char } else { (55 + d) as char }
}

/// Every byte kept when it is a letter, a digit or one of `-._~`, and written
/// as `%` and two uppercase hexadecimal digits otherwise.
pub open spec fn percent_encoded(b: Seq<u8>) -> Seq<char>
    decreases b.len(),
{
    if b.len() == 0 {
        Seq::empty()
    } else {
        let c = b.last();
        percent_encoded(b.drop_last()) + if is_unreserved(c) {
            seq![c as char]
        } else {
            seq!['%', hex_upper((c / 16) as nat), hex_upper((c % 16) as nat)]
        }
    }
}

/// Percent-encodes `s` with `urlencoding::encode`, which keeps ASCII letters,
/// digits and `-._~` and writes every other byte of the UTF-8 text as `%XX`
/// with uppercase hexadecimal digits.
#[verifier::external_body]
pub(crate) fn url_encode(s: &str) -> (r: String)
    ensures
        r@ == percent_encoded(s.spec_bytes()),
{
    urlencoding::encode(s).into_owned()
}

// ---------------------------------------------------------------------------
// Requests

pub struct GitHubProvider {
    token: String,
}

/// The error of a required value that is empty.
pub open spec fn empty_error(field: &'static str) -> Result<()> {
    invalid(ValidationError::Empty { field })
}

/// The API path under `https://api.github.com/repos/` for an owner and a
/// repository.
pub open spec fn repo_path(owner: Seq<u8>, repo: Seq<u8>) -> Seq<char> {
    "https://api.github.com/repos/"@ + percent_encoded(owner) + "/"@ + percent_encoded(repo)
}

/// `r` is `Ok(url)` with `url` showing `text`, or is the error `outcome`.
pub open spec fn url_or_error(r: Result<String>, outcome: Result<()>, text: Seq<char>) -> bool {
    match outcome {
        Err(e) => r == Err::<String, AppError>(e),
        Ok(()) => r matches Ok(url) && url@ == text,
    }
}

impl GitHubProvider {
    pub closed spec fn spec_token(&self) -> String {
        self.token
    }

    pub fn new(config: &GitHubConfig) -> (p: GitHubProvider)
        ensures
            p.spec_token() == config.token,
    {
        GitHubProvider { token: config.token.clone() }
    }

    /// The value of the `Authorization` header of every request.
    pub fn authorization(&self) -> (h: String)
        ensures
            h@ == "Bearer "@ + self.spec_token()@,
    {
        let mut h = "Bearer ".to_owned();
        h.append(self.token.as_str());
        h
    }

    fn repo_base(owner: &str, repo: &str) -> (url: String)
        ensures
            url@ == repo_path(owner.spec_bytes(), repo.spec_bytes()),
    {
        let mut url = "https://api.github.com/repos/".to_owned();
        let o = url_encode(owner);
        let r = url_encode(repo);
        url.append(o.as_str());
        url.append("/");
        url.append(r.as_str());
        url
    }

    /// The URL that fetches a repository, once owner and repository are valid.
    pub fn repository_url(owner: &str, repo: &str) -> (r: Result<String>)
        ensures
            url_or_error(r,
                first_error(github_owner_outcome(owner.spec_bytes()), github_repo_outcome(repo.spec_bytes())),
                repo_path(owner.spec_bytes(), repo.spec_bytes())),
    {
        if let Err(e) = validate_github_owner(owner) {
            return Err(e);
        }
        if let Err(e) = validate_github_repo(repo) {
            return Err(e);
        }
        Ok(Self::repo_base(owner, repo))
    }

    /// The URL that fetches a branch, once owner, repository and branch are
    /// valid.
    pub fn branch_url(owner: &str, repo: &str, branch: &str) -> (r: Result<String>)
        ensures
            url_or_error(r,
                first_error(github_owner_outcome(owner.spec_bytes()),
                first_error(github_repo_outcome(repo.spec_bytes()), git_branch_outcome(branch.spec_bytes()))),
                repo_path(owner.spec_bytes(), repo.spec_bytes()) + "/branches/"@ + percent_encoded(branch.spec_bytes())),
    {
        if let Err(e) = validate_github_owner(owner) {
            return Err(e);
        }
        if let Err(e) = validate_github_repo(repo) {
            return Err(e);
        }
        if let Err(e) = validate_git_branch(branch) {
            return Err(e);
        }
        let mut url = Self::repo_base(owner, repo);
        url.append("/branches/");
        let b = url_encode(branch);
        url.append(b.as_str());
        Ok(url)
    }

    /// The URL that fetches a commit, once owner and repository are valid and
    /// the SHA is not empty.
    pub fn commit_url(owner: &str, repo: &str, sha: &str) -> (r: Result<String>)
        ensures
            url_or_error(r,
                first_error(github_owner_outcome(owner.spec_bytes()),
                first_error(github_repo_outcome(repo.spec_bytes()),
                    if sha.spec_bytes().len() == 0 { empty_error("sha") } else { Ok(()) })),
                repo_path(owner.spec_bytes(), repo.spec_bytes()) + "/commits/"@ + percent_encoded(sha.spec_bytes())),
    {
        if let Err(e) = validate_github_owner(owner) {
            return Err(e);
        }
        if let Err(e) = validate_github_repo(repo) {
            return Err(e);
        }
        if sha.as_bytes().len() == 0 {
            return Err(AppError::Validation(ValidationError::Empty { field: "sha" }));
        }
        let mut url = Self::repo_base(owner, repo);
        url.append("/commits/");
        let s = url_encode(sha);
        url.append(s.as_str());
        Ok(url)
    }

    /// The URL that downloads the tarball of a git reference, once owner and
    /// repository are valid and the reference is not empty.
    pub fn archive_url(owner: &str, repo: &str, git_ref: &str) -> (r: Result<String>)
        ensures
            url_or_error(r,
                first_error(github_owner_outcome(owner.spec_bytes()),
                first_error(github_repo_outcome(repo.spec_bytes()),
                    if git_ref.spec_bytes().len() == 0 { empty_error("git_ref") } else { Ok(()) })),
                repo_path(owner.spec_bytes(), repo.spec_bytes()) + "/tarball/"@ + percent_encoded(git_ref.spec_bytes())),
    {
        if let Err(e) = validate_github_owner(owner) {
            return Err(e);
        }
        if let Err(e) = validate_github_repo(repo) {
            return Err(e);
        }
        if git_ref.as_bytes().len() == 0 {
            return Err(AppError::Validation(ValidationError::Empty { field: "git_ref" }));
        }
        let mut url = Self::repo_base(owner, repo);
        url.append("/tarball/");
        let g = url_encode(git_ref);
        url.append(g.as_str());
        Ok(url)
    }
}

} // verus!

verus! {

// ---------------------------------------------------------------------------
// Reading answers

/// What to do with an answer of the API.
pub enum ResponseCheck {
    /// The answer is good; read its body as the result.
    Accept,
    /// The request failed with this error.
    Reject(AppError),
    /// The request failed; read the body and report it with `invalid_response`.
    RejectWithBody,
}

pub open spec fn is_success(status: u16) -> bool {
    200 <= status <= 299
}

/// The seconds to wait that a `Retry-After` header asks for: its value when
/// it is text that reads as a `u64`, and 60 otherwise.
pub open spec fn retry_after_seconds(header: Option<String>) -> u64 {
    match header {
        Some(v) => match u64_text(crate::deployment::pipeline::bytes(v)) {
            Some(s) => s,
            None => 60,
        },
        None => 60,
    }
}

/// How an answer with `status` and the given rate-limit headers is taken.
/// `retry_after` is `None` when the header is absent and `Some(None)` when it is
/// present but not text; `remaining` is the `X-RateLimit-Remaining` text, if any.
pub open spec fn response_check(
    status: u16,
    retry_after: Option<Option<String>>,
    remaining: Option<String>,
    owner: Seq<char>,
    repo: Seq<char>,
    r: ResponseCheck,
) -> bool {
    if status == 401 {
        r == ResponseCheck::Reject(AppError::GitHub(GitHubError::AuthFailed))
    } else if status == 403 && retry_after is Some {
        r == ResponseCheck::Reject(AppError::GitHub(GitHubError::RateLimited {
            retry_after_seconds: retry_after_seconds(retry_after.unwrap()),
        }))
    } else if status == 403 && (remaining matches Some(t) && u32_text(crate::deployment::pipeline::bytes(t)) == Some(0u32)) {
        r == ResponseCheck::Reject(AppError::GitHub(GitHubError::RateLimited { retry_after_seconds: 60 }))
    } else if status == 404 {
        match r {
            ResponseCheck::Reject(AppError::GitHub(GitHubError::RepoNotFound { owner: o, repo: p })) =>
                o@ == owner && p@ == repo,
            _ => false,
        }
    } else if !is_success(status) {
        r == ResponseCheck::RejectWithBody
    } else {
        r == ResponseCheck::Accept
    }
}

/// The status line of an HTTP status code as `http::StatusCode` shows it:
/// the code, a space and its canonical reason phrase.
pub uninterp spec fn status_line(status: u16) -> Seq<char>;

/// Renders `status` with `http::StatusCode::from_u16` and its `Display`, which
/// writes the code, a space and the canonical reason phrase (or
/// `<unknown status code>`). The contract names the text `status_line(status)`
/// and states its first four characters. `from_u16` accepts exactly the codes
/// from 100 to 999, which `requires` keeps to.
#[verifier::external_body]
pub(crate) fn status_text(status: u16) -> (s: String)
    requires
        100 <= status <= 999,
    ensures
        s@ == status_line(status),
        s@.len() >= 4,
        s@.take(4) == crate::text::decimal_chars(status as nat) + " "@,
{
    match reqwest::StatusCode::from_u16(status) {
        Ok(code) => code.to_string(),
        Err(_) => String::new(),
    }
}

impl GitHubProvider {
    /// Decides how to take an answer of the API.
    pub fn handle_response(
        status: u16,
        retry_after: Option<Option<String>>,
        remaining: Option<String>,
        owner: &str,
        repo: &str,
    ) -> (r: ResponseCheck)
        ensures
            response_check(status, retry_after, remaining, owner@, repo@, r),
    {
        if status == 401 {
            return ResponseCheck::Reject(AppError::GitHub(GitHubError::AuthFailed));
        }
        if status == 403 {
            if let Some(header) = retry_after {
                let seconds = match &header {
                    Some(text) => match parse_u64(text.as_str()) {
                        Some(s) => s,
                        None => 60,
                    },
                    None => 60,
                };
                return ResponseCheck::Reject(AppError::GitHub(GitHubError::RateLimited { retry_after_seconds: seconds }));
            }
            let left = match &remaining {
                Some(text) => parse_u32(text.as_str()),
                None => None,
            };
            if left == Some(0u32) {
                return ResponseCheck::Reject(AppError::GitHub(GitHubError::RateLimited { retry_after_seconds: 60 }));
            }
        }
        if status == 404 {
            return ResponseCheck::Reject(AppError::GitHub(GitHubError::RepoNotFound {
                owner: owner.to_owned(),
                repo: repo.to_owned(),
            }));
        }
        if !(200 <= status && status <= 299) {
            return ResponseCheck::RejectWithBody;
        }
        ResponseCheck::Accept
    }

    /// Like `handle_response`, for an answer about a branch: a 404 names the
    /// branch that was not found.
    pub fn handle_branch_response(
        status: u16,
        retry_after: Option<Option<String>>,
        remaining: Option<String>,
        owner: &str,
        repo: &str,
        branch: &str,
    ) -> (r: ResponseCheck)
        ensures
            status == 404 ==> match r {
                ResponseCheck::Reject(AppError::GitHub(GitHubError::BranchNotFound { owner: o, repo: p, branch: b })) =>
                    o@ == owner@ && p@ == repo@ && b@ == branch@,
                _ => false,
            },
            status != 404 ==> response_check(status, retry_after, remaining, owner@, repo@, r),
    {
        if status == 404 {
            return ResponseCheck::Reject(AppError::GitHub(GitHubError::BranchNotFound {
                owner: owner.to_owned(),
                repo: repo.to_owned(),
                branch: branch.to_owned(),
            }));
        }
        Self::handle_response(status, retry_after, remaining, owner, repo)
    }

    /// The error for an unsuccessful answer: its status line (the code and its
    /// reason phrase) and its body.
    pub fn rejection(status: u16, body: &str) -> (e: AppError)
        requires
            100 <= status <= 999,
        ensures
            e matches AppError::GitHub(GitHubError::InvalidResponse { reason })
                && reason@ == status_line(status) + ": "@ + body@,
    {
        let mut reason = status_text(status);
        reason.append(": ");
        reason.append(body);
        AppError::GitHub(GitHubError::InvalidResponse { reason })
    }

    /// Refuses an archive larger than the limit.
    pub fn check_archive_size(size_bytes: u64) -> (r: Result<()>)
        ensures
            r is Ok <==> size_bytes <= ARCHIVE_SIZE_LIMIT_BYTES,
            r is Err ==> r == Err::<(), AppError>(AppError::Storage(StorageError::SizeLimitExceeded {
                size_bytes,
                limit_bytes: ARCHIVE_SIZE_LIMIT_BYTES as u64,
            })),
    {
        if size_bytes > ARCHIVE_SIZE_LIMIT_BYTES as u64 {
            return Err(AppError::Storage(StorageError::SizeLimitExceeded {
                size_bytes,
                limit_bytes: ARCHIVE_SIZE_LIMIT_BYTES as u64,
            }));
        }
        Ok(())
    }
}

// ---------------------------------------------------------------------------
// Retries

/// What came of one attempt to send a request.
pub enum AttemptOutcome {
    /// An answer arrived with this status.
    Answered { status: u16 },
    /// No answer; `retryable` when the failure was a timeout or a refused
    /// connection; `reason` describes it.
    Failed { retryable: bool, reason: String },
}

/// What to do after an attempt.
pub enum RetryDecision {
    /// Wait the back-off delay and try again.
    Retry,
    /// Take the answer as it is.
    Accept,
    /// Give up with this error.
    Fail(AppError),
}

/// The statuses that ask for a later attempt.
pub open spec fn is_throttled(status: u16) -> bool {
    status == 429 || status == 503
}

/// The decision after the `attempts`-th attempt, given whether the back-off
/// still offers a delay.
pub open spec fn retry_decision_spec(
    operation: &'static str,
    attempts: u32,
    outcome: AttemptOutcome,
    backoff_available: bool,
    d: RetryDecision,
) -> bool {
    match outcome {
        AttemptOutcome::Answered { status } =>
            if is_throttled(status) && attempts >= MAX_RETRIES {
                d == RetryDecision::Fail(AppError::GitHub(GitHubError::RateLimited { retry_after_seconds: 0 }))
            } else if is_throttled(status) && backoff_available {
                d == RetryDecision::Retry
            } else {
                d == RetryDecision::Accept
            },
        AttemptOutcome::Failed { retryable, reason } =>
            if attempts < MAX_RETRIES && retryable && backoff_available {
                d == RetryDecision::Retry
            } else {
                match d {
                    RetryDecision::Fail(AppError::GitHub(GitHubError::RequestFailed { operation: op, reason: why })) =>
                        op == operation && why@ == reason@,
                    _ => false,
                }
            },
    }
}

impl GitHubProvider {
    /// Decides, after the `attempts`-th attempt of `operation`, whether to retry,
    /// to take the answer or to give up.
    pub fn retry_decision(
        operation: &'static str,
        attempts: u32,
        outcome: AttemptOutcome,
        backoff_available: bool,
    ) -> (d: RetryDecision)
        ensures
            retry_decision_spec(operation, attempts, outcome, backoff_available, d),
    {
        match outcome {
            AttemptOutcome::Answered { status } => {
                if status == 429 || status == 503 {
                    if attempts >= MAX_RETRIES {
                        return RetryDecision::Fail(AppError::GitHub(GitHubError::RateLimited { retry_after_seconds: 0 }));
                    }
                    if backoff_available {
                        return RetryDecision::Retry;
                    }
                }
                RetryDecision::Accept
            },
            AttemptOutcome::Failed { retryable, reason } => {
                if attempts >= MAX_RETRIES {
                    return RetryDecision::Fail(AppError::GitHub(GitHubError::RequestFailed { operation, reason }));
                }
                if retryable && backoff_available {
                    return RetryDecision::Retry;
                }
                RetryDecision::Fail(AppError::GitHub(GitHubError::RequestFailed { operation, reason }))
            },
        }
    }
}

} // verus!

verus! {

// ---------------------------------------------------------------------------
// Webhooks

/// The event named by an `X-GitHub-Event` header.
pub open spec fn webhook_event_of(event_type: Seq<char>) -> WebhookEvent {
    if event_type == "push"@ {
        WebhookEvent::Push
    } else if event_type == "pull_request"@ {
        WebhookEvent::PullRequest
    } else if event_type == "release"@ {
        WebhookEvent::Release
    } else {
        WebhookEvent::Unknown
    }
}

/// The signature text without its `sha256=` prefix, if it has one.
pub open spec fn strip_sha256_prefix(sig: Seq<u8>) -> Seq<u8> {
    if sig.len() >= 7 && sig.take(7) == seq![115u8, 104u8, 97u8, 50u8, 53u8, 54u8, 61u8] {
        sig.skip(7)
    } else {
        sig
    }
}

/// The signature GitHub sends for `payload` under `secret`: the lowercase
/// hexadecimal HMAC-SHA256 tag, as UTF-8 bytes.
pub open spec fn expected_signature(secret: Seq<u8>, payload: Seq<u8>) -> Seq<u8> {
    vstd::utf8::encode_utf8(hex_of_bytes(hmac_sha256_tag(secret, payload)))
}

/// Compares two byte strings without stopping at the first difference.
fn constant_time_compare(a: &[u8], b: &[u8]) -> (r: bool)
    ensures
        r == (a@ == b@),
{
    if a.len() != b.len() {
        return false;
    }
    let n = a.len();
    let mut result: u8 = 0;
    let mut i: usize = 0;
    while i < n
        invariant
            n == a@.len(),
            n == b@.len(),
            i <= n,
            (result == 0) == (forall|j: int| 0 <= j < i ==> a@[j] == b@[j]),
        decreases n - i,
    {
        let x = a[i];
        let y = b[i];
        let next = result | (x ^ y);
        assert((next == 0) == (result == 0 && x == y)) by (bit_vector)
            requires
                next == result | (x ^ y),
        ;
        result = next;
        i = i + 1;
    }
    if result == 0 {
        assert(a@ =~= b@);
    }
    result == 0
}

impl GitHubProvider {
    pub fn parse_webhook_event(event_type: &str) -> (e: WebhookEvent)
        ensures
            e == webhook_event_of(event_type@),
    {
        if str_eq(event_type, "push") {
            WebhookEvent::Push
        } else if str_eq(event_type, "pull_request") {
            WebhookEvent::PullRequest
        } else if str_eq(event_type, "release") {
            WebhookEvent::Release
        } else {
            WebhookEvent::Unknown
        }
    }

    /// Checks a webhook's `X-Hub-Signature-256` against the payload: whether,
    /// without its `sha256=` prefix, it is the hexadecimal HMAC-SHA256 of the
    /// payload under the secret. An empty secret or signature is an error.
    pub fn verify_webhook_signature(secret: &str, signature: &str, payload: &[u8]) -> (r: Result<bool>)
        requires
            payload@.len() < 0x1000_0000_0000_0000,
        ensures
            secret.spec_bytes().len() == 0 ==> r == Err::<bool, AppError>(AppError::Validation(ValidationError::Empty { field: "secret" })),
            secret.spec_bytes().len() > 0 && signature.spec_bytes().len() == 0 ==> r == Err::<bool, AppError>(
                AppError::Validation(ValidationError::Empty { field: "signature" })),
            secret.spec_bytes().len() > 0 && signature.spec_bytes().len() > 0 ==> r == Ok::<bool, AppError>(
                expected_signature(secret.spec_bytes(), payload@) == strip_sha256_prefix(signature.spec_bytes())),
    {
        if secret.as_bytes().len() == 0 {
            return Err(AppError::Validation(ValidationError::Empty { field: "secret" }));
        }
        let sig_all = signature.as_bytes();
        if sig_all.len() == 0 {
            return Err(AppError::Validation(ValidationError::Empty { field: "signature" }));
        }
        let prefix = "sha256=".as_bytes();
        proof {
            reveal_strlit("sha256=");
        }
        assert(prefix@ =~= seq![115u8, 104u8, 97u8, 50u8, 53u8, 54u8, 61u8]) by {
            vstd::string::is_ascii_spec_bytes("sha256=");
        }
        let sig: &[u8] = if sig_all.len() >= 7 {
            let (head, tail) = sig_all.split_at(7);
            if constant_time_compare(head, prefix) { tail } else { sig_all }
        } else {
            sig_all
        };
        let tag = hmac_sha256(secret.as_bytes(), payload);
        let expected = hex_string(tag.as_slice());
        Ok(constant_time_compare(expected.as_str().as_bytes(), sig))
    }
}

} // verus!
