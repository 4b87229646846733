//! Deployments: their life-cycle state machine, their records and the queue
//! that holds them.
use vstd::prelude::*;
use vstd::string::*;
use vstd::utf8::encode_utf8;
use crate::error::{AppError, DeploymentError, Result};
use crate::validation::{
    validate_project_name, validate_github_owner, validate_github_repo, validate_git_branch,
    validate_email, validate_domain, project_name_outcome, github_owner_outcome,
    github_repo_outcome, git_branch_outcome, email_outcome, domain_outcome,
};
use crate::platform::{now_millis, new_v4_id, uuid_to_string, uuid_hyphenated};
use crate::text::{decimal_chars, push_decimal};

verus! {

pub const DEPLOYMENT_TIMEOUT_SECONDS: u64 = 600;
pub const CLONE_TIMEOUT_SECONDS: u64 = 120;
pub const BUILD_TIMEOUT_SECONDS: u64 = 300;
pub const UPLOAD_TIMEOUT_SECONDS: u64 = 120;
pub const CONFIG_TIMEOUT_SECONDS: u64 = 60;

#[derive(Debug, Clone, Copy, PartialEq, Eq, Structural)]
pub enum DeploymentState {
    Pending,
    Cloning,
    Building,
    Uploading,
    Configuring,
    Deployed,
    Failed,
    Cancelled,
}

impl DeploymentState {
    pub open spec fn spec_is_terminal(self) -> bool {
        self == DeploymentState::Deployed || self == DeploymentState::Failed || self == DeploymentState::Cancelled
    }

    pub open spec fn spec_is_active(self) -> bool {
        self == DeploymentState::Cloning || self == DeploymentState::Building
            || self == DeploymentState::Uploading || self == DeploymentState::Configuring
    }

    /// The stage that follows a successful stage; the terminal states have none.
    pub open spec fn next_stage(self) -> Option<DeploymentState> {
        match self {
            DeploymentState::Pending => Some(DeploymentState::Cloning),
            DeploymentState::Cloning => Some(DeploymentState::Building),
            DeploymentState::Building => Some(DeploymentState::Uploading),
            DeploymentState::Uploading => Some(DeploymentState::Configuring),
            DeploymentState::Configuring => Some(DeploymentState::Deployed),
            _ => None,
        }
    }

    /// A deployment moves only out of a non-terminal state, and only to the next
    /// stage, to `Failed` or to `Cancelled`.
    pub open spec fn spec_can_transition_to(self, next: DeploymentState) -> bool {
        &&& !self.spec_is_terminal()
        &&& (self.next_stage() == Some(next) || next == DeploymentState::Failed
            || next == DeploymentState::Cancelled)
    }

    /// Position of a state along the pipeline; every allowed move raises it.
    pub open spec fn rank(self) -> int {
        match self {
            DeploymentState::Pending => 0,
            DeploymentState::Cloning => 1,
            DeploymentState::Building => 2,
            DeploymentState::Uploading => 3,
            DeploymentState::Configuring => 4,
            _ => 5,
        }
    }

    /// The lowercase name of the state.
    pub open spec fn name(self) -> &'static str {
        match self {
            DeploymentState::Pending => "pending",
            DeploymentState::Cloning => "cloning",
            DeploymentState::Building => "building",
            DeploymentState::Uploading => "uploading",
            DeploymentState::Configuring => "configuring",
            DeploymentState::Deployed => "deployed",
            DeploymentState::Failed => "failed",
            DeploymentState::Cancelled => "cancelled",
        }
    }

    pub fn is_terminal(&self) -> (r: bool)
        ensures
            r == self.spec_is_terminal(),
    {
        match self {
            DeploymentState::Deployed | DeploymentState::Failed | DeploymentState::Cancelled => true,
            _ => false,
        }
    }

    pub fn is_active(&self) -> (r: bool)
        ensures
            r == self.spec_is_active(),
    {
        match self {
            DeploymentState::Cloning | DeploymentState::Building | DeploymentState::Uploading
            | DeploymentState::Configuring => true,
            _ => false,
        }
    }

    pub fn can_transition_to(&self, next: DeploymentState) -> (r: bool)
        ensures
            r == self.spec_can_transition_to(next),
    {
        match (self, next) {
            (DeploymentState::Pending, DeploymentState::Cloning) => true,
            (DeploymentState::Pending, DeploymentState::Cancelled) => true,
            (DeploymentState::Pending, DeploymentState::Failed) => true,
            (DeploymentState::Cloning, DeploymentState::Building) => true,
            (DeploymentState::Cloning, DeploymentState::Failed) => true,
            (DeploymentState::Cloning, DeploymentState::Cancelled) => true,
            (DeploymentState::Building, DeploymentState::Uploading) => true,
            (DeploymentState::Building, DeploymentState::Failed) => true,
            (DeploymentState::Building, DeploymentState::Cancelled) => true,
            (DeploymentState::Uploading, DeploymentState::Configuring) => true,
            (DeploymentState::Uploading, DeploymentState::Failed) => true,
            (DeploymentState::Uploading, DeploymentState::Cancelled) => true,
            (DeploymentState::Configuring, DeploymentState::Deployed) => true,
            (DeploymentState::Configuring, DeploymentState::Failed) => true,
            (DeploymentState::Configuring, DeploymentState::Cancelled) => true,
            _ => false,
        }
    }

    /// Seconds a stage may run before it times out; the whole pipeline's limit
    /// for the states that are not stages.
    pub fn timeout_seconds(&self) -> (r: u64)
        ensures
            r == match *self {
                DeploymentState::Cloning => CLONE_TIMEOUT_SECONDS,
                DeploymentState::Building => BUILD_TIMEOUT_SECONDS,
                DeploymentState::Uploading => UPLOAD_TIMEOUT_SECONDS,
                DeploymentState::Configuring => CONFIG_TIMEOUT_SECONDS,
                _ => DEPLOYMENT_TIMEOUT_SECONDS,
            },
    {
        match self {
            DeploymentState::Cloning => CLONE_TIMEOUT_SECONDS,
            DeploymentState::Building => BUILD_TIMEOUT_SECONDS,
            DeploymentState::Uploading => UPLOAD_TIMEOUT_SECONDS,
            DeploymentState::Configuring => CONFIG_TIMEOUT_SECONDS,
            _ => DEPLOYMENT_TIMEOUT_SECONDS,
        }
    }

    /// The lowercase name shown for the state.
    pub fn as_str(&self) -> (s: &'static str)
        ensures
            s == self.name(),
    {
        match self {
            DeploymentState::Pending => "pending",
            DeploymentState::Cloning => "cloning",
            DeploymentState::Building => "building",
            DeploymentState::Uploading => "uploading",
            DeploymentState::Configuring => "configuring",
            DeploymentState::Deployed => "deployed",
            DeploymentState::Failed => "failed",
            DeploymentState::Cancelled => "cancelled",
        }
    }
}

} // verus!

verus! {

/// The UTF-8 bytes of a string's characters.
pub open spec fn bytes(s: String) -> Seq<u8> {
    encode_utf8(s@)
}

/// The first error of two checks run one after the other.
pub open spec fn first_error(a: Result<()>, b: Result<()>) -> Result<()> {
    if a is Err { a } else { b }
}

#[derive(Debug, Clone)]
pub struct DeploymentConfig {
    pub project_name: String,
    pub owner: String,
    pub repo: String,
    pub branch: String,
    pub commit_sha: Option<String>,
    pub domain: Option<String>,
    pub notify_email: Option<String>,
}

impl DeploymentConfig {
    /// The outcome of validating a configuration: the project name, owner,
    /// repository and branch in that order, then the notification address and
    /// the domain where they are given.
    pub open spec fn validation_outcome(self) -> Result<()> {
        first_error(project_name_outcome(bytes(self.project_name)),
        first_error(github_owner_outcome(bytes(self.owner)),
        first_error(github_repo_outcome(bytes(self.repo)),
        first_error(git_branch_outcome(bytes(self.branch)),
        first_error(match self.notify_email { Some(e) => email_outcome(bytes(e)), None => Ok(()) },
                    match self.domain { Some(d) => domain_outcome(bytes(d)), None => Ok(()) })))))
    }

    pub fn validate(&self) -> (r: Result<()>)
        ensures
            r == self.validation_outcome(),
    {
        if let Err(e) = validate_project_name(self.project_name.as_str()) {
            return Err(e);
        }
        if let Err(e) = validate_github_owner(self.owner.as_str()) {
            return Err(e);
        }
        if let Err(e) = validate_github_repo(self.repo.as_str()) {
            return Err(e);
        }
        if let Err(e) = validate_git_branch(self.branch.as_str()) {
            return Err(e);
        }
        if let Some(email) = &self.notify_email {
            if let Err(e) = validate_email(email.as_str()) {
                return Err(e);
            }
        }
        if let Some(domain) = &self.domain {
            if let Err(e) = validate_domain(domain.as_str()) {
                return Err(e);
            }
        }
        Ok(())
    }
}

#[derive(Debug, Clone)]
pub struct DeploymentResult {
    pub url: Option<String>,
    pub duration_seconds: u64,
    pub error: Option<String>,
}

#[derive(Debug, Clone, Copy, PartialEq, Eq, Structural)]
pub enum LogLevel {
    Info,
    Warn,
    Error,
}

/// One entry of a deployment's log; `timestamp` is in milliseconds since the
/// Unix epoch.
#[derive(Debug, Clone)]
pub struct DeploymentLog {
    pub timestamp: i64,
    pub level: LogLevel,
    pub message: String,
}

/// A deployment. `id` holds the 128 bits of its UUID; the times are
/// milliseconds since the Unix epoch.
#[derive(Debug, Clone)]
pub struct Deployment {
    pub id: u128,
    pub config: DeploymentConfig,
    pub state: DeploymentState,
    pub result: Option<DeploymentResult>,
    pub created_at: i64,
    pub updated_at: i64,
    pub started_at: Option<i64>,
    pub logs: Vec<DeploymentLog>,
}

/// `d` is `old` moved to `next` at time `now` by an allowed transition.
pub open spec fn transitioned(old: Deployment, d: Deployment, next: DeploymentState, now: i64) -> bool {
    &&& d.state == next
    &&& d.updated_at == now
    &&& d.started_at == (if next.spec_is_active() && old.started_at is None { Some(now) } else { old.started_at })
    &&& d.id == old.id
    &&& d.config == old.config
    &&& d.result == old.result
    &&& d.created_at == old.created_at
    &&& d.logs == old.logs
}

/// `after` is `before` with one more entry of `level` whose message is `message`.
pub open spec fn logged(before: Seq<DeploymentLog>, after: Seq<DeploymentLog>, level: LogLevel, message: Seq<char>) -> bool {
    &&& after.len() == before.len() + 1
    &&& after.take(before.len() as int) == before
    &&& after.last().level == level
    &&& after.last().message@ == message
}

/// The error that refuses to move a deployment out of its terminal state `s`.
pub open spec fn is_already_terminal(r: Result<()>, s: DeploymentState) -> bool {
    match r {
        Err(AppError::Deployment(DeploymentError::AlreadyTerminal { state })) => state@ == s.name()@,
        _ => false,
    }
}

/// `r` records a failure with message `error`, no URL and no duration.
pub open spec fn is_failure_result(r: Option<DeploymentResult>, error: Seq<char>) -> bool {
    match r {
        Some(res) => res.url is None && res.duration_seconds == 0 && match res.error {
            Some(msg) => msg@ == error,
            None => false,
        },
        None => false,
    }
}

/// A deployment has a start time once it has been in an active state, and never
/// before it left `Pending`.
pub open spec fn started_consistent(d: Deployment) -> bool {
    &&& d.state.spec_is_active() ==> d.started_at is Some
    &&& d.state == DeploymentState::Pending ==> d.started_at is None
}

impl Deployment {
    /// Creates a deployment of `config` once the configuration is valid, with the
    /// identifier and creation time given.
    pub fn new_with(config: DeploymentConfig, id: u128, now: i64) -> (r: Result<Deployment>)
        ensures
            r is Ok <==> config.validation_outcome() is Ok,
            r matches Err(e) ==> config.validation_outcome() == Err::<(), AppError>(e),
            r matches Ok(d) ==> {
                &&& d.id == id
                &&& d.config == config
                &&& d.state == DeploymentState::Pending
                &&& d.result is None
                &&& d.created_at == now
                &&& d.updated_at == now
                &&& d.started_at is None
                &&& d.logs@.len() == 0
            },
    {
        if let Err(e) = config.validate() {
            return Err(e);
        }
        Ok(Deployment {
            id,
            config,
            state: DeploymentState::Pending,
            result: None,
            created_at: now,
            updated_at: now,
            started_at: None,
            logs: Vec::new(),
        })
    }
}

} // verus!

verus! {

/// Whole seconds from `started` to `now` (both in milliseconds), never negative.
pub open spec fn elapsed_between(started: i64, now: i64) -> u64 {
    if now <= started { 0 } else { ((now - started) / 1000) as u64 }
}

impl Deployment {
    /// Creates a deployment of `config`: validates it, then draws a fresh random
    /// identifier and reads the clock for the creation time.
    pub fn new(config: DeploymentConfig) -> (r: Result<Deployment>)
        ensures
            r is Ok <==> config.validation_outcome() is Ok,
            r matches Err(e) ==> config.validation_outcome() == Err::<(), AppError>(e),
            r matches Ok(d) ==> {
                &&& d.config == config
                &&& d.state == DeploymentState::Pending
                &&& d.result is None
                &&& d.created_at == d.updated_at
                &&& d.started_at is None
                &&& d.logs@.len() == 0
            },
    {
        if let Err(e) = config.validate() {
            return Err(e);
        }
        let now = now_millis();
        let id = new_v4_id();
        Deployment::new_with(config, id, now)
    }

    /// Moves the deployment to `next` at time `now` when the life cycle allows it.
    fn transition(&mut self, next: DeploymentState, now: i64) -> (r: Result<()>)
        ensures
            r is Ok <==> old(self).state.spec_can_transition_to(next),
            r is Ok ==> transitioned(*old(self), *final(self), next, now),
            r is Err ==> *final(self) == *old(self),
            r is Err ==> (r matches Err(AppError::Deployment(DeploymentError::InvalidTransition { from, to }))
                && from@ == old(self).state.name()@ && to@ == next.name()@),
    {
        if !self.state.can_transition_to(next) {
            return Err(AppError::Deployment(DeploymentError::InvalidTransition {
                from: self.state.as_str().to_owned(),
                to: next.as_str().to_owned(),
            }));
        }
        self.state = next;
        self.updated_at = now;
        if next.is_active() && self.started_at.is_none() {
            self.started_at = Some(now);
        }
        Ok(())
    }

    fn log(&mut self, level: LogLevel, message: String, now: i64)
        ensures
            final(self).logs@ == old(self).logs@.push(DeploymentLog { timestamp: now, level, message }),
            final(self).id == old(self).id,
            final(self).config == old(self).config,
            final(self).state == old(self).state,
            final(self).result == old(self).result,
            final(self).created_at == old(self).created_at,
            final(self).updated_at == old(self).updated_at,
            final(self).started_at == old(self).started_at,
    {
        self.logs.push(DeploymentLog { timestamp: now, level, message });
    }

    /// Cancels the deployment at time `now`, unless it has already ended.
    pub fn cancel_at(&mut self, now: i64) -> (r: Result<()>)
        ensures
            r is Err <==> old(self).state.spec_is_terminal(),
            r is Err ==> *final(self) == *old(self) && is_already_terminal(r, old(self).state),
            r is Ok ==> {
                &&& final(self).state == DeploymentState::Cancelled
                &&& final(self).updated_at == now
                &&& final(self).started_at == old(self).started_at
                &&& final(self).id == old(self).id
                &&& final(self).config == old(self).config
                &&& final(self).result == old(self).result
                &&& final(self).created_at == old(self).created_at
                &&& logged(old(self).logs@, final(self).logs@, LogLevel::Info, "Deployment cancelled"@)
                &&& final(self).logs@.last().timestamp == now
            },
    {
        if self.state.is_terminal() {
            return Err(AppError::Deployment(DeploymentError::AlreadyTerminal {
                state: self.state.as_str().to_owned(),
            }));
        }
        if let Err(e) = self.transition(DeploymentState::Cancelled, now) {
            return Err(e);
        }
        let ghost before = self.logs@;
        self.log(LogLevel::Info, "Deployment cancelled".to_owned(), now);
        assert(self.logs@.take(before.len() as int) =~= before);
        Ok(())
    }

    /// Cancels the deployment now, unless it has already ended.
    pub fn cancel(&mut self) -> (r: Result<()>)
        ensures
            r is Err <==> old(self).state.spec_is_terminal(),
            r is Err ==> *final(self) == *old(self) && is_already_terminal(r, old(self).state),
            r is Ok ==> {
                &&& final(self).state == DeploymentState::Cancelled
                &&& final(self).started_at == old(self).started_at
                &&& final(self).id == old(self).id
                &&& final(self).config == old(self).config
                &&& final(self).result == old(self).result
                &&& final(self).created_at == old(self).created_at
                &&& logged(old(self).logs@, final(self).logs@, LogLevel::Info, "Deployment cancelled"@)
            },
    {
        if self.state.is_terminal() {
            return self.cancel_at(0);
        }
        let now = now_millis();
        self.cancel_at(now)
    }

    /// Marks the deployment failed with `error` at time `now`, unless it has
    /// already ended.
    pub fn fail_at(&mut self, error: &str, now: i64) -> (r: Result<()>)
        ensures
            r is Err <==> old(self).state.spec_is_terminal(),
            r is Err ==> *final(self) == *old(self) && is_already_terminal(r, old(self).state),
            r is Ok ==> {
                &&& final(self).state == DeploymentState::Failed
                &&& final(self).updated_at == now
                &&& final(self).started_at == old(self).started_at
                &&& final(self).id == old(self).id
                &&& final(self).config == old(self).config
                &&& final(self).created_at == old(self).created_at
                &&& logged(old(self).logs@, final(self).logs@, LogLevel::Error, error@)
                &&& final(self).logs@.last().timestamp == now
                &&& is_failure_result(final(self).result, error@)
            },
    {
        if self.state.is_terminal() {
            return Err(AppError::Deployment(DeploymentError::AlreadyTerminal {
                state: self.state.as_str().to_owned(),
            }));
        }
        if let Err(e) = self.transition(DeploymentState::Failed, now) {
            return Err(e);
        }
        let ghost before = self.logs@;
        self.log(LogLevel::Error, error.to_owned(), now);
        assert(self.logs@.take(before.len() as int) =~= before);
        self.result = Some(DeploymentResult { url: None, duration_seconds: 0, error: Some(error.to_owned()) });
        Ok(())
    }

    /// Marks the deployment failed with `error` now, unless it has already ended.
    pub fn fail(&mut self, error: &str) -> (r: Result<()>)
        ensures
            r is Err <==> old(self).state.spec_is_terminal(),
            r is Err ==> *final(self) == *old(self) && is_already_terminal(r, old(self).state),
            r is Ok ==> {
                &&& final(self).state == DeploymentState::Failed
                &&& final(self).started_at == old(self).started_at
                &&& final(self).id == old(self).id
                &&& final(self).config == old(self).config
                &&& final(self).created_at == old(self).created_at
                &&& logged(old(self).logs@, final(self).logs@, LogLevel::Error, error@)
                &&& is_failure_result(final(self).result, error@)
            },
    {
        if self.state.is_terminal() {
            return self.fail_at(error, 0);
        }
        let now = now_millis();
        self.fail_at(error, now)
    }

    /// Whole seconds between the start of the deployment and `now`, if it has
    /// started.
    pub fn elapsed_seconds_at(&self, now: i64) -> (r: Option<u64>)
        ensures
            r == match self.started_at {
                Some(s) => Some(elapsed_between(s, now)),
                None => None,
            },
    {
        match self.started_at {
            None => None,
            Some(started) => {
                if now <= started {
                    Some(0)
                } else {
                    let diff: i128 = now as i128 - started as i128;
                    Some((diff / 1000) as u64)
                }
            },
        }
    }

    /// Whole seconds since the deployment started, if it has, by the clock.
    pub fn elapsed_seconds(&self) -> (r: Option<u64>)
        ensures
            r is Some <==> self.started_at is Some,
    {
        let now = now_millis();
        self.elapsed_seconds_at(now)
    }
}

} // verus!

verus! {

/// First position in `s` of a deployment with identifier `id`.
pub open spec fn first_with_id(s: Seq<Deployment>, id: u128, i: int) -> bool {
    &&& 0 <= i < s.len()
    &&& s[i].id == id
    &&& forall|j: int| 0 <= j < i ==> s[j].id != id
}

pub open spec fn holds_id(s: Seq<Deployment>, id: u128) -> bool {
    exists|i: int| 0 <= i < s.len() && #[trigger] s[i].id == id
}

/// A bounded first-in first-out queue of deployments.
pub struct DeploymentQueue {
    deployments: Vec<Deployment>,
    capacity: usize,
}

impl DeploymentQueue {
    /// The deployments in the order they were enqueued.
    pub closed spec fn items(&self) -> Seq<Deployment> {
        self.deployments@
    }

    pub closed spec fn spec_capacity(&self) -> usize {
        self.capacity
    }

    /// The queue never holds more deployments than its capacity.
    pub open spec fn inv(&self) -> bool {
        self.items().len() <= self.spec_capacity()
    }

    pub fn new(capacity: usize) -> (q: DeploymentQueue)
        ensures
            q.inv(),
            q.items() == Seq::<Deployment>::empty(),
            q.spec_capacity() == capacity,
    {
        DeploymentQueue { deployments: Vec::new(), capacity }
    }

    pub fn capacity(&self) -> (c: usize)
        ensures
            c == self.spec_capacity(),
    {
        self.capacity
    }

    pub fn len(&self) -> (n: usize)
        ensures
            n == self.items().len(),
    {
        self.deployments.len()
    }

    pub fn is_empty(&self) -> (b: bool)
        ensures
            b == (self.items().len() == 0),
    {
        self.deployments.len() == 0
    }

    /// Appends `deployment` at the back, unless the queue is full.
    pub fn enqueue(&mut self, deployment: Deployment) -> (r: Result<()>)
        requires
            old(self).inv(),
        ensures
            final(self).inv(),
            final(self).spec_capacity() == old(self).spec_capacity(),
            r is Err <==> old(self).items().len() >= old(self).spec_capacity(),
            r is Ok ==> final(self).items() == old(self).items().push(deployment),
            r is Err ==> final(self).items() == old(self).items(),
            r matches Err(e) ==> e == AppError::Deployment(DeploymentError::QueueFull {
                current: old(self).items().len() as usize,
                capacity: old(self).spec_capacity(),
            }),
    {
        if self.deployments.len() >= self.capacity {
            return Err(AppError::Deployment(DeploymentError::QueueFull {
                current: self.deployments.len(),
                capacity: self.capacity,
            }));
        }
        self.deployments.push(deployment);
        Ok(())
    }

    /// Takes the deployment at the front, if any.
    pub fn dequeue(&mut self) -> (r: Option<Deployment>)
        requires
            old(self).inv(),
        ensures
            final(self).inv(),
            final(self).spec_capacity() == old(self).spec_capacity(),
            old(self).items().len() == 0 ==> r is None && final(self).items() == old(self).items(),
            old(self).items().len() > 0 ==> r == Some(old(self).items()[0])
                && final(self).items() == old(self).items().drop_first(),
    {
        if self.deployments.len() == 0 {
            return None;
        }
        Some(self.deployments.remove(0))
    }

    /// Position of the first deployment with identifier `id`.
    fn position(&self, id: u128) -> (r: Option<usize>)
        ensures
            match r {
                Some(i) => first_with_id(self.items(), id, i as int),
                None => !holds_id(self.items(), id),
            },
    {
        let n = self.deployments.len();
        let mut i: usize = 0;
        while i < n
            invariant
                n == self.items().len(),
                forall|j: int| 0 <= j < i ==> self.items()[j].id != id,
            decreases n - i,
        {
            if self.deployments[i].id == id {
                return Some(i);
            }
            i = i + 1;
        }
        None
    }

    /// The first deployment with identifier `id`.
    pub fn find(&self, id: u128) -> (r: Option<&Deployment>)
        ensures
            r is None <==> !holds_id(self.items(), id),
            r matches Some(d) ==> exists|i: int| first_with_id(self.items(), id, i) && self.items()[i] == *d,
    {
        match self.position(id) {
            Some(i) => Some(&self.deployments[i]),
            None => None,
        }
    }

    /// Cancels the first deployment with identifier `id`.
    pub fn cancel(&mut self, id: u128) -> (r: Result<()>)
        requires
            old(self).inv(),
        ensures
            final(self).inv(),
            final(self).spec_capacity() == old(self).spec_capacity(),
            final(self).items().len() == old(self).items().len(),
            !holds_id(old(self).items(), id) ==> final(self).items() == old(self).items() && (r matches Err(
                AppError::Deployment(DeploymentError::NotFound { id: text })) && text@ == uuid_hyphenated(id)),
            forall|i: int| first_with_id(old(self).items(), id, i) ==> {
                &&& (r is Err <==> old(self).items()[i].state.spec_is_terminal())
                &&& r is Err ==> final(self).items() == old(self).items() && is_already_terminal(r, old(self).items()[i].state)
                &&& r is Ok ==> final(self).items()[i].state == DeploymentState::Cancelled
                    && final(self).items()[i].id == id
                    && final(self).items()[i].config == old(self).items()[i].config
                    && logged(old(self).items()[i].logs@, final(self).items()[i].logs@, LogLevel::Info, "Deployment cancelled"@)
                &&& forall|j: int| 0 <= j < old(self).items().len() && j != i ==> final(self).items()[j] == old(self).items()[j]
            },
    {
        match self.position(id) {
            None => Err(AppError::Deployment(DeploymentError::NotFound { id: uuid_to_string(id) })),
            Some(i) => {
                let ghost before = self.deployments@;
                let mut d = self.deployments.remove(i);
                let r = d.cancel();
                self.deployments.insert(i, d);
                assert(self.deployments@ =~= before.update(i as int, self.deployments@[i as int]));
                r
            },
        }
    }

    /// Removes and returns the first deployment with identifier `id`.
    pub fn remove(&mut self, id: u128) -> (r: Option<Deployment>)
        requires
            old(self).inv(),
        ensures
            final(self).inv(),
            final(self).spec_capacity() == old(self).spec_capacity(),
            !holds_id(old(self).items(), id) ==> r is None && final(self).items() == old(self).items(),
            forall|i: int| first_with_id(old(self).items(), id, i) ==>
                r == Some(old(self).items()[i]) && final(self).items() == old(self).items().remove(i),
    {
        match self.position(id) {
            None => None,
            Some(i) => Some(self.deployments.remove(i)),
        }
    }

    /// All deployments, front first.
    pub fn iter(&self) -> (r: &Vec<Deployment>)
        ensures
            r@ == self.items(),
    {
        &self.deployments
    }
}

} // verus!

verus! {

pub open spec fn is_pending(d: Deployment) -> bool {
    d.state == DeploymentState::Pending
}

pub open spec fn is_active_deployment(d: Deployment) -> bool {
    d.state.spec_is_active()
}

pub open spec fn is_terminal_deployment(d: Deployment) -> bool {
    d.state.spec_is_terminal()
}

pub open spec fn is_live_deployment(d: Deployment) -> bool {
    !d.state.spec_is_terminal()
}

/// The deployments of `s` that have not ended, in order.
pub open spec fn live_part(s: Seq<Deployment>) -> Seq<Deployment> {
    s.filter(|d: Deployment| is_live_deployment(d))
}

/// The deployments of `s` that have ended, in order.
pub open spec fn ended_part(s: Seq<Deployment>) -> Seq<Deployment> {
    s.filter(|d: Deployment| is_terminal_deployment(d))
}

pub open spec fn derefs(s: Seq<&Deployment>) -> Seq<Deployment> {
    s.map_values(|d: &Deployment| *d)
}

impl DeploymentQueue {
    /// The deployments still waiting in `Pending`, front first.
    pub fn pending(&self) -> (r: Vec<&Deployment>)
        ensures
            derefs(r@) == self.items().filter(|d: Deployment| is_pending(d)),
    {
        let n = self.deployments.len();
        let mut r: Vec<&Deployment> = Vec::new();
        let mut i: usize = 0;
        while i < n
            invariant
                n == self.items().len(),
                i <= n,
                derefs(r@) == self.items().take(i as int).filter(|d: Deployment| is_pending(d)),
            decreases n - i,
        {
            proof {
                reveal_with_fuel(Seq::filter, 1);
                assert(self.items().take(i + 1).drop_last() =~= self.items().take(i as int));
            }
            let d = &self.deployments[i];
            if d.state == DeploymentState::Pending {
                r.push(d);
            }
            assert(derefs(r@) =~= self.items().take(i + 1).filter(|d: Deployment| is_pending(d)));
            i = i + 1;
        }
        assert(self.items().take(n as int) =~= self.items());
        r
    }

    /// The deployments in an active stage, front first.
    pub fn active(&self) -> (r: Vec<&Deployment>)
        ensures
            derefs(r@) == self.items().filter(|d: Deployment| is_active_deployment(d)),
    {
        let n = self.deployments.len();
        let mut r: Vec<&Deployment> = Vec::new();
        let mut i: usize = 0;
        while i < n
            invariant
                n == self.items().len(),
                i <= n,
                derefs(r@) == self.items().take(i as int).filter(|d: Deployment| is_active_deployment(d)),
            decreases n - i,
        {
            proof {
                reveal_with_fuel(Seq::filter, 1);
                assert(self.items().take(i + 1).drop_last() =~= self.items().take(i as int));
            }
            let d = &self.deployments[i];
            if d.state.is_active() {
                r.push(d);
            }
            assert(derefs(r@) =~= self.items().take(i + 1).filter(|d: Deployment| is_active_deployment(d)));
            i = i + 1;
        }
        assert(self.items().take(n as int) =~= self.items());
        r
    }

    /// Removes every deployment in a terminal state and returns them, keeping
    /// the order of both the removed and the remaining ones.
    pub fn cleanup_terminal(&mut self) -> (removed: Vec<Deployment>)
        requires
            old(self).inv(),
        ensures
            final(self).inv(),
            final(self).spec_capacity() == old(self).spec_capacity(),
            removed@ == ended_part(old(self).items()),
            final(self).items() == live_part(old(self).items()),
    {
        let ghost orig = self.deployments@;
        let mut remaining: Vec<Deployment> = Vec::new();
        std::mem::swap(&mut remaining, &mut self.deployments);
        let mut removed: Vec<Deployment> = Vec::new();
        let mut kept: Vec<Deployment> = Vec::new();
        while remaining.len() > 0
            invariant
                remaining@.len() <= orig.len(),
                remaining@ == orig.skip(orig.len() - remaining@.len()),
                removed@ == orig.take(orig.len() - remaining@.len()).filter(|d: Deployment| is_terminal_deployment(d)),
                kept@ == orig.take(orig.len() - remaining@.len()).filter(|d: Deployment| is_live_deployment(d)),
            decreases remaining@.len(),
        {
            let ghost k = orig.len() - remaining@.len();
            proof {
                reveal_with_fuel(Seq::filter, 1);
                assert(orig.take(k + 1).drop_last() =~= orig.take(k));
                assert(orig.take(k + 1).last() == orig[k]);
                assert(orig[k] == remaining@[0]);
            }
            let d = remaining.remove(0);
            if d.state.is_terminal() {
                removed.push(d);
            } else {
                kept.push(d);
            }
            assert(remaining@ =~= orig.skip(orig.len() - remaining@.len()));
            assert(removed@ =~= orig.take(k + 1).filter(|d: Deployment| is_terminal_deployment(d)));
            assert(kept@ =~= orig.take(k + 1).filter(|d: Deployment| is_live_deployment(d)));
        }
        assert(orig.take(orig.len() as int) =~= orig);
        proof {
            orig.filter_lemma(|d: Deployment| is_live_deployment(d));
        }
        self.deployments = kept;
        removed
    }
}

} // verus!

verus! {

impl DeploymentQueue {
    /// The first deployment with identifier `id`, for changing it in place.
    pub fn find_mut(&mut self, id: u128) -> (r: Option<&mut Deployment>)
        ensures
            r is None <==> !holds_id(old(self).items(), id),
            r is None ==> final(self).items() == old(self).items(),
            final(self).spec_capacity() == old(self).spec_capacity(),
            final(self).items().len() == old(self).items().len(),
            r matches Some(d) ==> exists|i: int| #[trigger] first_with_id(old(self).items(), id, i)
                && *d == old(self).items()[i]
                && final(self).items() == old(self).items().update(i, *final(d)),
    {
        match self.position(id) {
            Some(i) => Some(&mut self.deployments[i]),
            None => None,
        }
    }
}

} // verus!

verus! {

// ---------------------------------------------------------------------------
// Running the pipeline
//
// The pipeline alternates outside work (GitHub, the store, Cloudflare) with
// decisions. Each method below takes what the last piece of outside work
// produced, records it on the deployment, and names the next piece of work or
// the end of the run.

/// A stage of the pipeline, each with its own time limit.
#[derive(Debug, Clone, Copy, PartialEq, Eq, Structural)]
pub enum PipelineStage {
    Clone,
    Build,
    Upload,
    Configure,
}

/// The next piece of outside work, or the end of the run.
pub enum PipelineAction {
    /// Fetch the branch's head commit, within `timeout_seconds`.
    FetchBranch { owner: String, repo: String, branch: String, timeout_seconds: u64 },
    /// Download the tarball of the commit, within `timeout_seconds`.
    DownloadArchive { owner: String, repo: String, commit_sha: String, timeout_seconds: u64 },
    /// Store the archive under `key`, within `timeout_seconds`.
    Upload { key: String, timeout_seconds: u64 },
    /// List the DNS records named `domain`, within `timeout_seconds`.
    ListDnsRecords { domain: String, timeout_seconds: u64 },
    /// Create `record` for `domain`, within what is left of the same stage.
    CreateDnsRecord { domain: String, record: crate::providers::cloudflare::CreateDnsRecord },
    /// The run is over: the deployment's URL, or why it failed.
    Finish(Result<String>),
}

pub open spec fn log_entry(l: DeploymentLog) -> (i64, LogLevel, Seq<char>) {
    (l.timestamp, l.level, l.message@)
}

/// The log of `d`, each entry as time, level and text.
pub open spec fn log_entries(d: Deployment) -> Seq<(i64, LogLevel, Seq<char>)> {
    d.logs@.map_values(|l: DeploymentLog| log_entry(l))
}

/// `new` is `old` with its log left aside.
pub open spec fn same_but_logs(old: Deployment, new: Deployment) -> bool {
    &&& new.id == old.id
    &&& new.config == old.config
    &&& new.state == old.state
    &&& new.result == old.result
    &&& new.created_at == old.created_at
    &&& new.updated_at == old.updated_at
    &&& new.started_at == old.started_at
}

/// `new` is `old` moved to `next` at `now`, its log left aside.
pub open spec fn moved(old: Deployment, new: Deployment, next: DeploymentState, now: i64) -> bool {
    &&& new.state == next
    &&& new.updated_at == now
    &&& new.started_at == (if next.spec_is_active() && old.started_at is None { Some(now) } else { old.started_at })
    &&& new.id == old.id
    &&& new.config == old.config
    &&& new.result == old.result
    &&& new.created_at == old.created_at
}

/// `a` ends the run with the refusal to move out of `from` into `to`.
pub open spec fn ends_with_invalid_transition(a: PipelineAction, from: DeploymentState, to: DeploymentState) -> bool {
    match a {
        PipelineAction::Finish(Err(AppError::Deployment(DeploymentError::InvalidTransition { from: f, to: t }))) =>
            f@ == from.name()@ && t@ == to.name()@,
        _ => false,
    }
}

/// `a` ends the run with the error `e`.
pub open spec fn ends_with(a: PipelineAction, e: AppError) -> bool {
    a == PipelineAction::Finish(Err(e))
}

/// The domain a deployment is served under: the configured one, or
/// `<project>.example.com`.
pub open spec fn deployment_domain(c: DeploymentConfig) -> Seq<char> {
    match c.domain {
        Some(d) => d@,
        None => c.project_name@ + ".example.com"@,
    }
}

/// The key an archive is stored under.
pub open spec fn artifact_key(d: Deployment, stamp: Seq<char>) -> Seq<char> {
    "deployments/"@ + d.config.project_name@ + "/"@ + uuid_hyphenated(d.id) + "/"@ + stamp
}

impl Deployment {
    fn log_now(&mut self, level: LogLevel, message: String, now: i64)
        ensures
            same_but_logs(*old(self), *final(self)),
            log_entries(*final(self)) == log_entries(*old(self)).push((now, level, message@)),
    {
        let ghost before = self.logs@;
        self.log(level, message, now);
        assert(self.logs@.map_values(|l: DeploymentLog| log_entry(l))
            =~= before.map_values(|l: DeploymentLog| log_entry(l)).push((now, level, message@)));
    }

    /// Moves to `next` and logs `message` as information; the run ends when the
    /// life cycle does not allow the move.
    fn enter(&mut self, next: DeploymentState, message: &str, now: i64) -> (r: Result<()>)
        ensures
            r is Ok <==> old(self).state.spec_can_transition_to(next),
            r is Err ==> *final(self) == *old(self)
                && ends_with_invalid_transition(PipelineAction::Finish(Err(r->Err_0)), old(self).state, next),
            r is Ok ==> moved(*old(self), *final(self), next, now)
                && log_entries(*final(self)) == log_entries(*old(self)).push((now, LogLevel::Info, message@)),
    {
        if let Err(e) = self.transition(next, now) {
            return Err(e);
        }
        self.log_now(LogLevel::Info, message.to_owned(), now);
        Ok(())
    }

    /// Starts a run: the deployment moves to `Cloning` and the branch is fetched.
    pub fn begin_pipeline(&mut self, now: i64) -> (a: PipelineAction)
        ensures
            !old(self).state.spec_can_transition_to(DeploymentState::Cloning) ==> *final(self) == *old(self)
                && ends_with_invalid_transition(a, old(self).state, DeploymentState::Cloning),
            old(self).state.spec_can_transition_to(DeploymentState::Cloning) ==> {
                &&& moved(*old(self), *final(self), DeploymentState::Cloning, now)
                &&& log_entries(*final(self)) == log_entries(*old(self)).push((now, LogLevel::Info, "Cloning repository..."@))
                &&& a matches PipelineAction::FetchBranch { owner, repo, branch, timeout_seconds }
                    && owner == old(self).config.owner && repo == old(self).config.repo
                    && branch == old(self).config.branch && timeout_seconds == CLONE_TIMEOUT_SECONDS
            },
    {
        if let Err(e) = self.enter(DeploymentState::Cloning, "Cloning repository...", now) {
            return PipelineAction::Finish(Err(e));
        }
        PipelineAction::FetchBranch {
            owner: self.config.owner.clone(),
            repo: self.config.repo.clone(),
            branch: self.config.branch.clone(),
            timeout_seconds: CLONE_TIMEOUT_SECONDS,
        }
    }

    /// Takes the branch's head commit (or why it could not be fetched): the
    /// commit to build is the configured one or else the head; the deployment
    /// moves to `Building` and the archive is downloaded.
    pub fn after_branch(&mut self, fetched: std::result::Result<String, String>, now: i64) -> (a: PipelineAction)
        ensures
            fetched matches Err(reason) ==> *final(self) == *old(self) && match a {
                PipelineAction::Finish(Err(AppError::Deployment(DeploymentError::CloneFailed { owner, repo, branch, reason: why }))) =>
                    owner == old(self).config.owner && repo == old(self).config.repo && branch == old(self).config.branch
                        && why == reason,
                _ => false,
            },
            fetched matches Ok(head) ==> {
                let commit = match old(self).config.commit_sha { Some(c) => c, None => head };
                let resolved = log_entries(*old(self)).push((now, LogLevel::Info, "Resolved commit: "@ + commit@));
                &&& !old(self).state.spec_can_transition_to(DeploymentState::Building) ==> same_but_logs(*old(self), *final(self))
                    && log_entries(*final(self)) == resolved
                    && ends_with_invalid_transition(a, old(self).state, DeploymentState::Building)
                &&& old(self).state.spec_can_transition_to(DeploymentState::Building) ==>
                    moved(*old(self), *final(self), DeploymentState::Building, now)
                    && log_entries(*final(self)) == resolved.push((now, LogLevel::Info, "Building from commit "@ + commit@ + "..."@))
                    && (a matches PipelineAction::DownloadArchive { owner, repo, commit_sha, timeout_seconds }
                        && owner == old(self).config.owner && repo == old(self).config.repo
                        && commit_sha == commit && timeout_seconds == BUILD_TIMEOUT_SECONDS)
            },
    {
        let head = match fetched {
            Err(reason) => {
                return PipelineAction::Finish(Err(AppError::Deployment(DeploymentError::CloneFailed {
                    owner: self.config.owner.clone(),
                    repo: self.config.repo.clone(),
                    branch: self.config.branch.clone(),
                    reason,
                })));
            },
            Ok(h) => h,
        };
        let commit = match &self.config.commit_sha {
            Some(c) => c.clone(),
            None => head,
        };
        let mut resolved = "Resolved commit: ".to_owned();
        resolved.append(commit.as_str());
        self.log_now(LogLevel::Info, resolved, now);
        let mut building = "Building from commit ".to_owned();
        building.append(commit.as_str());
        building.append("...");
        if let Err(e) = self.enter(DeploymentState::Building, building.as_str(), now) {
            return PipelineAction::Finish(Err(e));
        }
        PipelineAction::DownloadArchive {
            owner: self.config.owner.clone(),
            repo: self.config.repo.clone(),
            commit_sha: commit,
            timeout_seconds: BUILD_TIMEOUT_SECONDS,
        }
    }
}

} // verus!

verus! {

/// The CNAME record that points a deployment's domain at the origin.
pub open spec fn origin_record(r: crate::providers::cloudflare::CreateDnsRecord, domain: Seq<char>) -> bool {
    &&& r.type_@ == "CNAME"@
    &&& r.name@ == domain
    &&& r.content@ == "origin.example.com"@
    &&& r.ttl == 1
    &&& r.proxied
}

/// The text of a stage's time-out and the state it reports.
pub open spec fn stage_timeout(stage: PipelineStage) -> (Seq<char>, u64, Seq<char>) {
    match stage {
        PipelineStage::Clone => ("clone"@, CLONE_TIMEOUT_SECONDS, "cloning"@),
        PipelineStage::Build => ("build"@, BUILD_TIMEOUT_SECONDS, "building"@),
        PipelineStage::Upload => ("upload"@, UPLOAD_TIMEOUT_SECONDS, "uploading"@),
        PipelineStage::Configure => ("configuration"@, CONFIG_TIMEOUT_SECONDS, "configuring"@),
    }
}

impl Deployment {
    /// Takes the downloaded archive's size (or why it could not be downloaded):
    /// an empty archive fails the deployment; otherwise the deployment moves to
    /// `Uploading` and the archive is stored under a key made of the project,
    /// the identifier and `stamp`.
    pub fn after_archive(&mut self, downloaded: std::result::Result<u64, String>, stamp: &str, now: i64) -> (a: PipelineAction)
        ensures
            downloaded matches Err(reason) ==> *final(self) == *old(self) && match a {
                PipelineAction::Finish(Err(AppError::Deployment(DeploymentError::BuildFailed { reason: why }))) =>
                    why@ == "failed to download archive: "@ + reason@,
                _ => false,
            },
            downloaded == Ok::<u64, String>(0) ==> {
                &&& !old(self).state.spec_can_transition_to(DeploymentState::Failed) ==> *final(self) == *old(self)
                    && ends_with_invalid_transition(a, old(self).state, DeploymentState::Failed)
                &&& old(self).state.spec_can_transition_to(DeploymentState::Failed) ==>
                    moved(*old(self), *final(self), DeploymentState::Failed, now)
                    && log_entries(*final(self)) == log_entries(*old(self)).push((now, LogLevel::Error, "Empty archive received"@))
                    && match a {
                        PipelineAction::Finish(Err(AppError::Deployment(DeploymentError::BuildFailed { reason }))) =>
                            reason@ == "empty archive"@,
                        _ => false,
                    }
            },
            match downloaded { Ok(size) => size > 0 ==> {
                let fetched = log_entries(*old(self)).push(
                    (now, LogLevel::Info, "Downloaded "@ + decimal_chars(size as nat) + " bytes"@));
                &&& !old(self).state.spec_can_transition_to(DeploymentState::Uploading) ==> same_but_logs(*old(self), *final(self))
                    && log_entries(*final(self)) == fetched
                    && ends_with_invalid_transition(a, old(self).state, DeploymentState::Uploading)
                &&& old(self).state.spec_can_transition_to(DeploymentState::Uploading) ==>
                    moved(*old(self), *final(self), DeploymentState::Uploading, now)
                    && log_entries(*final(self)) == fetched.push((now, LogLevel::Info, "Uploading artifacts..."@))
                    && (a matches PipelineAction::Upload { key, timeout_seconds }
                        && key@ == artifact_key(*old(self), stamp@) && timeout_seconds == UPLOAD_TIMEOUT_SECONDS)
            }, Err(_) => true },
    {
        let size = match downloaded {
            Err(reason) => {
                let mut why = "failed to download archive: ".to_owned();
                why.append(reason.as_str());
                return PipelineAction::Finish(Err(AppError::Deployment(DeploymentError::BuildFailed { reason: why })));
            },
            Ok(s) => s,
        };
        if size == 0 {
            if let Err(e) = self.transition(DeploymentState::Failed, now) {
                return PipelineAction::Finish(Err(e));
            }
            self.log_now(LogLevel::Error, "Empty archive received".to_owned(), now);
            return PipelineAction::Finish(Err(AppError::Deployment(DeploymentError::BuildFailed {
                reason: "empty archive".to_owned(),
            })));
        }
        let mut fetched = "Downloaded ".to_owned();
        push_decimal(&mut fetched, size);
        fetched.append(" bytes");
        self.log_now(LogLevel::Info, fetched, now);
        if let Err(e) = self.enter(DeploymentState::Uploading, "Uploading artifacts...", now) {
            return PipelineAction::Finish(Err(e));
        }
        let mut key = "deployments/".to_owned();
        key.append(self.config.project_name.as_str());
        key.append("/");
        let id = uuid_to_string(self.id);
        key.append(id.as_str());
        key.append("/");
        key.append(stamp);
        PipelineAction::Upload { key, timeout_seconds: UPLOAD_TIMEOUT_SECONDS }
    }

    /// Takes the outcome of storing the archive under `key`: the deployment
    /// moves to `Configuring` and its domain's DNS records are listed.
    pub fn after_upload(&mut self, key: &str, uploaded: std::result::Result<(), String>, now: i64) -> (a: PipelineAction)
        ensures
            uploaded matches Err(reason) ==> *final(self) == *old(self)
                && ends_with(a, AppError::Deployment(DeploymentError::UploadFailed { reason })),
            uploaded is Ok ==> {
                let stored = log_entries(*old(self)).push((now, LogLevel::Info, "Uploaded to "@ + key@));
                &&& !old(self).state.spec_can_transition_to(DeploymentState::Configuring) ==> same_but_logs(*old(self), *final(self))
                    && log_entries(*final(self)) == stored
                    && ends_with_invalid_transition(a, old(self).state, DeploymentState::Configuring)
                &&& old(self).state.spec_can_transition_to(DeploymentState::Configuring) ==>
                    moved(*old(self), *final(self), DeploymentState::Configuring, now)
                    && log_entries(*final(self)) == stored.push((now, LogLevel::Info, "Configuring DNS..."@))
                    && (a matches PipelineAction::ListDnsRecords { domain, timeout_seconds }
                        && domain@ == deployment_domain(old(self).config) && timeout_seconds == CONFIG_TIMEOUT_SECONDS)
            },
    {
        if let Err(reason) = uploaded {
            return PipelineAction::Finish(Err(AppError::Deployment(DeploymentError::UploadFailed { reason })));
        }
        let mut stored = "Uploaded to ".to_owned();
        stored.append(key);
        self.log_now(LogLevel::Info, stored, now);
        if let Err(e) = self.enter(DeploymentState::Configuring, "Configuring DNS...", now) {
            return PipelineAction::Finish(Err(e));
        }
        let domain = self.serving_domain();
        PipelineAction::ListDnsRecords { domain, timeout_seconds: CONFIG_TIMEOUT_SECONDS }
    }

    /// The domain the deployment is served under.
    fn serving_domain(&self) -> (d: String)
        ensures
            d@ == deployment_domain(self.config),
    {
        match &self.config.domain {
            Some(d) => d.clone(),
            None => {
                let mut d = self.config.project_name.clone();
                d.append(".example.com");
                d
            },
        }
    }

    /// Ends a successful run: the deployment moves to `Deployed` at
    /// `https://<domain>`.
    fn finish_deploy(&mut self, domain: &str, now: i64) -> (a: PipelineAction)
        ensures
            !old(self).state.spec_can_transition_to(DeploymentState::Deployed) ==> *final(self) == *old(self)
                && ends_with_invalid_transition(a, old(self).state, DeploymentState::Deployed),
            old(self).state.spec_can_transition_to(DeploymentState::Deployed) ==>
                moved(*old(self), *final(self), DeploymentState::Deployed, now)
                && log_entries(*final(self)) == log_entries(*old(self)).push(
                    (now, LogLevel::Info, "Deployed successfully to "@ + ("https://"@ + domain@)))
                && (a matches PipelineAction::Finish(Ok(url)) && url@ == "https://"@ + domain@),
    {
        let mut url = "https://".to_owned();
        url.append(domain);
        let mut done = "Deployed successfully to ".to_owned();
        done.append(url.as_str());
        if let Err(e) = self.enter(DeploymentState::Deployed, done.as_str(), now) {
            return PipelineAction::Finish(Err(e));
        }
        PipelineAction::Finish(Ok(url))
    }

    /// Takes how many DNS records the deployment's domain already has (or why
    /// they could not be listed): with none, a record is created; otherwise the
    /// deployment is done.
    pub fn after_dns_list(&mut self, listed: std::result::Result<usize, String>, now: i64) -> (a: PipelineAction)
        ensures
            listed matches Err(reason) ==> *final(self) == *old(self) && match a {
                PipelineAction::Finish(Err(AppError::Deployment(DeploymentError::ConfigFailed { reason: why }))) =>
                    why@ == "failed to list DNS records: "@ + reason@,
                _ => false,
            },
            listed == Ok::<usize, String>(0) ==> *final(self) == *old(self)
                && (a matches PipelineAction::CreateDnsRecord { domain: d, record } && d@ == deployment_domain(old(self).config) && origin_record(record, deployment_domain(old(self).config))),
            listed matches Ok(n) && n > 0 ==> {
                let seen = log_entries(*old(self)).push((now, LogLevel::Info, "DNS record already exists for "@ + deployment_domain(old(self).config)));
                &&& !old(self).state.spec_can_transition_to(DeploymentState::Deployed) ==> same_but_logs(*old(self), *final(self))
                    && log_entries(*final(self)) == seen
                    && ends_with_invalid_transition(a, old(self).state, DeploymentState::Deployed)
                &&& old(self).state.spec_can_transition_to(DeploymentState::Deployed) ==>
                    moved(*old(self), *final(self), DeploymentState::Deployed, now)
                    && log_entries(*final(self)) == seen.push((now, LogLevel::Info, "Deployed successfully to "@ + ("https://"@ + deployment_domain(old(self).config))))
                    && (a matches PipelineAction::Finish(Ok(url)) && url@ == "https://"@ + deployment_domain(old(self).config))
            },
    {
        let count = match listed {
            Err(reason) => {
                let mut why = "failed to list DNS records: ".to_owned();
                why.append(reason.as_str());
                return PipelineAction::Finish(Err(AppError::Deployment(DeploymentError::ConfigFailed { reason: why })));
            },
            Ok(n) => n,
        };
        let domain_text = self.serving_domain();
        let domain = domain_text.as_str();
        if count == 0 {
            let record = crate::providers::cloudflare::CreateDnsRecord {
                type_: "CNAME".to_owned(),
                name: domain.to_owned(),
                content: "origin.example.com".to_owned(),
                ttl: 1,
                proxied: true,
            };
            return PipelineAction::CreateDnsRecord { domain: domain.to_owned(), record };
        }
        let mut seen = "DNS record already exists for ".to_owned();
        seen.append(domain);
        self.log_now(LogLevel::Info, seen, now);
        self.finish_deploy(domain, now)
    }

    /// Takes the outcome of creating the DNS record for the deployment's
    /// domain; on success the deployment is done.
    pub fn after_dns_create(&mut self, created: std::result::Result<(), String>, now: i64) -> (a: PipelineAction)
        ensures
            created matches Err(reason) ==> *final(self) == *old(self) && match a {
                PipelineAction::Finish(Err(AppError::Deployment(DeploymentError::ConfigFailed { reason: why }))) =>
                    why@ == "failed to create DNS record: "@ + reason@,
                _ => false,
            },
            created is Ok ==> {
                let made = log_entries(*old(self)).push((now, LogLevel::Info, "Created DNS record for "@ + deployment_domain(old(self).config)));
                &&& !old(self).state.spec_can_transition_to(DeploymentState::Deployed) ==> same_but_logs(*old(self), *final(self))
                    && log_entries(*final(self)) == made
                    && ends_with_invalid_transition(a, old(self).state, DeploymentState::Deployed)
                &&& old(self).state.spec_can_transition_to(DeploymentState::Deployed) ==>
                    moved(*old(self), *final(self), DeploymentState::Deployed, now)
                    && log_entries(*final(self)) == made.push((now, LogLevel::Info, "Deployed successfully to "@ + ("https://"@ + deployment_domain(old(self).config))))
                    && (a matches PipelineAction::Finish(Ok(url)) && url@ == "https://"@ + deployment_domain(old(self).config))
            },
    {
        if let Err(reason) = created {
            let mut why = "failed to create DNS record: ".to_owned();
            why.append(reason.as_str());
            return PipelineAction::Finish(Err(AppError::Deployment(DeploymentError::ConfigFailed { reason: why })));
        }
        let domain_text = self.serving_domain();
        let domain = domain_text.as_str();
        let mut made = "Created DNS record for ".to_owned();
        made.append(domain);
        self.log_now(LogLevel::Info, made, now);
        self.finish_deploy(domain, now)
    }

    /// A stage ran out of time: the time-out is logged and ends the run.
    pub fn stage_timed_out(&mut self, stage: PipelineStage, now: i64) -> (a: PipelineAction)
        ensures
            same_but_logs(*old(self), *final(self)),
            log_entries(*final(self)) == log_entries(*old(self)).push((now, LogLevel::Error,
                stage_timeout(stage).0 + " timed out after "@ + decimal_chars(stage_timeout(stage).1 as nat) + "s"@)),
            match a {
                PipelineAction::Finish(Err(AppError::Deployment(DeploymentError::Timeout { seconds, state }))) =>
                    seconds == stage_timeout(stage).1 && state@ == stage_timeout(stage).2,
                _ => false,
            },
    {
        let (what, seconds, state) = match stage {
            PipelineStage::Clone => ("clone", CLONE_TIMEOUT_SECONDS, "cloning"),
            PipelineStage::Build => ("build", BUILD_TIMEOUT_SECONDS, "building"),
            PipelineStage::Upload => ("upload", UPLOAD_TIMEOUT_SECONDS, "uploading"),
            PipelineStage::Configure => ("configuration", CONFIG_TIMEOUT_SECONDS, "configuring"),
        };
        let mut text = what.to_owned();
        text.append(" timed out after ");
        push_decimal(&mut text, seconds);
        text.append("s");
        self.log_now(LogLevel::Error, text, now);
        PipelineAction::Finish(Err(AppError::Deployment(DeploymentError::Timeout { seconds, state: state.to_owned() })))
    }

    /// The whole run ran out of time: the time-out is logged, the deployment is
    /// failed when its state allows it, and the error names the state it is
    /// left in.
    pub fn pipeline_timed_out(&mut self, now: i64) -> (e: AppError)
        ensures
            old(self).state.spec_can_transition_to(DeploymentState::Failed) ==>
                moved(*old(self), *final(self), DeploymentState::Failed, now),
            !old(self).state.spec_can_transition_to(DeploymentState::Failed) ==> same_but_logs(*old(self), *final(self)),
            log_entries(*final(self)) == log_entries(*old(self)).push(
                (now, LogLevel::Error, "deployment timed out after "@ + decimal_chars(DEPLOYMENT_TIMEOUT_SECONDS as nat) + "s"@)),
            match e {
                AppError::Deployment(DeploymentError::Timeout { seconds, state }) =>
                    seconds == DEPLOYMENT_TIMEOUT_SECONDS && state@ == final(self).state.name()@,
                _ => false,
            },
    {
        let mut text = "deployment timed out after ".to_owned();
        push_decimal(&mut text, DEPLOYMENT_TIMEOUT_SECONDS);
        text.append("s");
        self.log_now(LogLevel::Error, text, now);
        let _ = self.transition(DeploymentState::Failed, now);
        AppError::Deployment(DeploymentError::Timeout {
            seconds: DEPLOYMENT_TIMEOUT_SECONDS,
            state: self.state.as_str().to_owned(),
        })
    }

    /// Records how a run ended: its URL, or the text of its error, and how long
    /// it took.
    pub fn record_outcome(&mut self, outcome: std::result::Result<String, String>, duration_seconds: u64)
        ensures
            final(self).id == old(self).id,
            final(self).config == old(self).config,
            final(self).state == old(self).state,
            final(self).created_at == old(self).created_at,
            final(self).updated_at == old(self).updated_at,
            final(self).started_at == old(self).started_at,
            final(self).logs == old(self).logs,
            final(self).result == Some(match outcome {
                Ok(url) => DeploymentResult { url: Some(url), duration_seconds, error: None },
                Err(text) => DeploymentResult { url: None, duration_seconds, error: Some(text) },
            }),
    {
        self.result = Some(match outcome {
            Ok(url) => DeploymentResult { url: Some(url), duration_seconds, error: None },
            Err(text) => DeploymentResult { url: None, duration_seconds, error: Some(text) },
        });
    }
}

} // verus!

verus! {

/// The commit a start notice names: the configured one, or `HEAD`.
pub open spec fn notice_commit(c: DeploymentConfig) -> Seq<char> {
    match c.commit_sha {
        Some(s) => s@,
        None => "HEAD"@,
    }
}

impl Deployment {
    /// The mail announcing that the run starts, when the deployment has an
    /// address to notify.
    pub fn start_notice(&self) -> (m: Option<crate::providers::email::EmailMessage>)
        ensures
            match self.config.notify_email {
                None => m is None,
                Some(to) => m matches Some(msg) && crate::providers::email::is_started_message(msg, 
                    to@, self.config.project_name@, self.config.branch@, notice_commit(self.config)),
            },
    {
        match &self.config.notify_email {
            None => None,
            Some(to) => {
                let commit: &str = match &self.config.commit_sha {
                    Some(c) => c.as_str(),
                    None => "HEAD",
                };
                Some(crate::providers::email::EmailMessage::deployment_started(
                    to.as_str(),
                    self.config.project_name.as_str(),
                    self.config.branch.as_str(),
                    commit,
                ))
            },
        }
    }

    /// The mail reporting how the run ended (its URL, or the text of its
    /// error) after `duration_seconds`, when the deployment has an address to
    /// notify.
    pub fn end_notice(&self, outcome: &std::result::Result<String, String>, duration_seconds: u64) -> (m: Option<
        crate::providers::email::EmailMessage,
    >)
        ensures
            match self.config.notify_email {
                None => m is None,
                Some(to) => m matches Some(msg) && match outcome {
                    Ok(url) => crate::providers::email::is_succeeded_message(msg,
                        to@, self.config.project_name@, self.config.branch@, url@, duration_seconds),
                    Err(text) => crate::providers::email::is_failed_message(msg,
                        to@, self.config.project_name@, self.config.branch@, text@),
                },
            },
    {
        match &self.config.notify_email {
            None => None,
            Some(to) => Some(match outcome {
                Ok(url) => crate::providers::email::EmailMessage::deployment_succeeded(
                    to.as_str(),
                    self.config.project_name.as_str(),
                    self.config.branch.as_str(),
                    url.as_str(),
                    duration_seconds,
                ),
                Err(text) => crate::providers::email::EmailMessage::deployment_failed(
                    to.as_str(),
                    self.config.project_name.as_str(),
                    self.config.branch.as_str(),
                    text.as_str(),
                ),
            }),
        }
    }
}

} // verus!
