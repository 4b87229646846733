//! Properties of the deployment life cycle and of the queue that hold across
//! operations.
use vstd::prelude::*;
use super::pipeline::{
    Deployment, DeploymentState, is_live_deployment, live_part, ended_part, started_consistent, transitioned,
    first_with_id, holds_id, DeploymentConfig, bytes,
};
use crate::error::{AppError, ValidationError};
use crate::validation::{
    project_name_outcome, github_owner_outcome, github_repo_outcome, git_branch_outcome, email_outcome, domain_outcome,
    domain_format,
};

verus! {

/// Once a deployment has reached `Deployed`, `Failed` or `Cancelled`, no
/// transition leads out of that state.
pub proof fn law_terminal_is_final(from: DeploymentState, to: DeploymentState)
    requires
        from.spec_is_terminal(),
    ensures
        !from.spec_can_transition_to(to),
{
}

/// Every allowed transition moves strictly forward along the pipeline, so a
/// deployment never returns to a state it has left.
pub proof fn law_transitions_advance(from: DeploymentState, to: DeploymentState)
    requires
        from.spec_can_transition_to(to),
    ensures
        to.rank() > from.rank(),
{
}

/// A deployment that has not ended can always be failed or cancelled.
pub proof fn law_live_can_stop(from: DeploymentState)
    requires
        !from.spec_is_terminal(),
    ensures
        from.spec_can_transition_to(DeploymentState::Failed),
        from.spec_can_transition_to(DeploymentState::Cancelled),
{
}

/// The only transition other than failing or cancelling is to the next stage,
/// and the stages run `Pending`, `Cloning`, `Building`, `Uploading`,
/// `Configuring`, `Deployed`.
pub proof fn law_single_success_path(from: DeploymentState, to: DeploymentState)
    requires
        from.spec_can_transition_to(to),
        to != DeploymentState::Failed,
        to != DeploymentState::Cancelled,
    ensures
        from.next_stage() == Some(to),
        to.rank() == from.rank() + 1,
{
}

/// A transition keeps the start time consistent: it is set when a deployment
/// first enters an active stage and is never set while it is pending.
pub proof fn law_transition_keeps_start_consistent(
    before: Deployment,
    after: Deployment,
    next: DeploymentState,
    now: i64,
)
    requires
        started_consistent(before),
        before.state.spec_can_transition_to(next),
        transitioned(before, after, next, now),
    ensures
        started_consistent(after),
{
}

/// The queue is first-in first-out: after enqueueing `d` behind `s`, the front
/// is the old front (or `d` on an empty queue), and dequeueing then enqueueing
/// in either order leaves the same contents.
pub proof fn law_fifo(s: Seq<Deployment>, d: Deployment)
    ensures
        s.push(d)[0] == (if s.len() == 0 { d } else { s[0] }),
        s.len() > 0 ==> s.push(d).drop_first() == s.drop_first().push(d),
{
    if s.len() > 0 {
        assert(s.push(d).drop_first() =~= s.drop_first().push(d));
    }
}

/// Cleaning up splits the queue: every deployment is either returned or kept,
/// none that is kept has ended, and a second cleanup finds nothing to remove.
pub proof fn law_cleanup_partitions(s: Seq<Deployment>)
    ensures
        ended_part(s).len() + live_part(s).len() == s.len(),
        forall|i: int| 0 <= i < live_part(s).len() ==> !(#[trigger] live_part(s)[i]).state.spec_is_terminal(),
        ended_part(live_part(s)).len() == 0,
        live_part(live_part(s)) == live_part(s),
    decreases s.len(),
{
    reveal_with_fuel(Seq::filter, 1);
    if s.len() > 0 {
        let t = s.drop_last();
        let x = s.last();
        law_cleanup_partitions(t);
        if is_live_deployment(x) {
            let l = live_part(t);
            assert(live_part(s) == l.push(x));
            assert(l.push(x).drop_last() =~= l);
            assert(l.push(x).last() == x);
            assert(live_part(l.push(x)) == live_part(l).push(x));
            assert(ended_part(l.push(x)) == ended_part(l));
        } else {
            assert(live_part(s) == live_part(t));
        }
    }
    let live = |d: Deployment| is_live_deployment(d);
    s.filter_lemma(live);
}

/// A deployment enqueued under a fresh identifier is what a lookup of that
/// identifier finds afterwards, and the lookups of the identifiers already
/// queued find what they found before.
pub proof fn law_enqueued_is_found(s: Seq<Deployment>, d: Deployment)
    requires
        !holds_id(s, d.id),
    ensures
        holds_id(s.push(d), d.id),
        first_with_id(s.push(d), d.id, s.len() as int),
        forall|id: u128, i: int| #[trigger] first_with_id(s, id, i) ==> first_with_id(s.push(d), id, i),
{
    assert(s.push(d)[s.len() as int].id == d.id);
}

/// Cancelling or failing ends a deployment for good: the states they lead to
/// are terminal, so a second cancel or fail of the same deployment is refused.
pub proof fn law_stopping_is_final()
    ensures
        DeploymentState::Cancelled.spec_is_terminal(),
        DeploymentState::Failed.spec_is_terminal(),
        DeploymentState::Deployed.spec_is_terminal(),
{
}

/// The pipeline's stages follow one another: a pending deployment can start
/// cloning, and each stage can hand over to the next, up to `Deployed`.
pub proof fn law_stages_can_advance()
    ensures
        DeploymentState::Pending.spec_can_transition_to(DeploymentState::Cloning),
        DeploymentState::Cloning.spec_can_transition_to(DeploymentState::Building),
        DeploymentState::Building.spec_can_transition_to(DeploymentState::Uploading),
        DeploymentState::Uploading.spec_can_transition_to(DeploymentState::Configuring),
        DeploymentState::Configuring.spec_can_transition_to(DeploymentState::Deployed),
{
}

/// The terminal states are exactly `Deployed`, `Failed` and `Cancelled`; the
/// active ones exactly the four working stages; `Pending` is neither, and no
/// state is both.
pub proof fn law_state_kinds(s: DeploymentState)
    ensures
        s.spec_is_terminal() <==> (s == DeploymentState::Deployed || s == DeploymentState::Failed
            || s == DeploymentState::Cancelled),
        s.spec_is_active() <==> (s == DeploymentState::Cloning || s == DeploymentState::Building
            || s == DeploymentState::Uploading || s == DeploymentState::Configuring),
        !(s.spec_is_terminal() && s.spec_is_active()),
        s == DeploymentState::Pending ==> !s.spec_is_terminal() && !s.spec_is_active(),
{
}

/// A deployment configuration is accepted exactly when its project name,
/// owner, repository and branch pass their checks, and so do its notification
/// address and its domain when they are given. Once the earlier checks pass, a
/// domain that fails is refused with the domain's own error; in particular an
/// accepted configuration's domain, if any, has the domain format and at most
/// 253 bytes, and a non-empty domain of at most 253 bytes that lacks the format
/// is refused as `invalid domain format`.
pub proof fn law_config_checks_every_field(c: DeploymentConfig)
    ensures
        c.validation_outcome() is Ok <==> {
            &&& project_name_outcome(bytes(c.project_name)) is Ok
            &&& github_owner_outcome(bytes(c.owner)) is Ok
            &&& github_repo_outcome(bytes(c.repo)) is Ok
            &&& git_branch_outcome(bytes(c.branch)) is Ok
            &&& (c.notify_email matches Some(e) ==> email_outcome(bytes(e)) is Ok)
            &&& (c.domain matches Some(d) ==> domain_outcome(bytes(d)) is Ok)
        },
        c.validation_outcome() is Ok ==> (c.domain matches Some(d) ==> domain_format(bytes(d)) && 1 <= bytes(d).len() <= 253),
        ({
            &&& project_name_outcome(bytes(c.project_name)) is Ok
            &&& github_owner_outcome(bytes(c.owner)) is Ok
            &&& github_repo_outcome(bytes(c.repo)) is Ok
            &&& git_branch_outcome(bytes(c.branch)) is Ok
            &&& (c.notify_email matches Some(e) ==> email_outcome(bytes(e)) is Ok)
        }) ==> match c.domain {
            Some(d) => {
                &&& c.validation_outcome() == domain_outcome(bytes(d))
                &&& (1 <= bytes(d).len() <= 253 && !domain_format(bytes(d))) ==> c.validation_outcome() == Err::<(), AppError>(
                    AppError::Validation(ValidationError::InvalidFormat { field: "domain", reason: "invalid domain format" }))
            },
            None => c.validation_outcome() is Ok,
        },
{
}

} // verus!
