use rustdeploy::deployment::pipeline::{
    PipelineAction, PipelineStage, BUILD_TIMEOUT_SECONDS, CLONE_TIMEOUT_SECONDS, CONFIG_TIMEOUT_SECONDS,
    DEPLOYMENT_TIMEOUT_SECONDS, UPLOAD_TIMEOUT_SECONDS,
};
use rustdeploy::deployment::{Deployment, DeploymentConfig, DeploymentQueue, DeploymentState, LogLevel};
use rustdeploy::error::{AppError, DeploymentError, ValidationError};

fn config(project: &str) -> DeploymentConfig {
    DeploymentConfig {
        project_name: project.to_string(),
        owner: "octocat".to_string(),
        repo: "hello-world".to_string(),
        branch: "main".to_string(),
        commit_sha: None,
        domain: None,
        notify_email: None,
    }
}

fn deployment(project: &str, id: u128) -> Deployment {
    Deployment::new_with(config(project), id, 1_000).unwrap()
}

const ALL: [DeploymentState; 8] = [
    DeploymentState::Pending,
    DeploymentState::Cloning,
    DeploymentState::Building,
    DeploymentState::Uploading,
    DeploymentState::Configuring,
    DeploymentState::Deployed,
    DeploymentState::Failed,
    DeploymentState::Cancelled,
];

#[test]
fn state_names_and_kinds() {
    let names = ["pending", "cloning", "building", "uploading", "configuring", "deployed", "failed", "cancelled"];
    for (s, n) in ALL.iter().zip(names.iter()) {
        assert_eq!(s.as_str(), *n);
    }
    assert!(DeploymentState::Deployed.is_terminal());
    assert!(DeploymentState::Failed.is_terminal());
    assert!(DeploymentState::Cancelled.is_terminal());
    assert!(!DeploymentState::Pending.is_terminal());
    assert!(DeploymentState::Cloning.is_active());
    assert!(DeploymentState::Configuring.is_active());
    assert!(!DeploymentState::Pending.is_active());
    assert!(!DeploymentState::Deployed.is_active());
}

#[test]
fn state_timeouts() {
    assert_eq!(DeploymentState::Cloning.timeout_seconds(), 120);
    assert_eq!(DeploymentState::Building.timeout_seconds(), 300);
    assert_eq!(DeploymentState::Uploading.timeout_seconds(), 120);
    assert_eq!(DeploymentState::Configuring.timeout_seconds(), 60);
    assert_eq!(DeploymentState::Pending.timeout_seconds(), 600);
    assert_eq!(DEPLOYMENT_TIMEOUT_SECONDS, 600);
    assert_eq!(CLONE_TIMEOUT_SECONDS + BUILD_TIMEOUT_SECONDS + UPLOAD_TIMEOUT_SECONDS + CONFIG_TIMEOUT_SECONDS, 600);
}

#[test]
fn terminal_states_are_final() {
    for from in [DeploymentState::Deployed, DeploymentState::Failed, DeploymentState::Cancelled] {
        for to in ALL {
            assert!(!from.can_transition_to(to));
        }
    }
}

#[test]
fn transitions_follow_the_pipeline() {
    let path = [
        DeploymentState::Pending,
        DeploymentState::Cloning,
        DeploymentState::Building,
        DeploymentState::Uploading,
        DeploymentState::Configuring,
        DeploymentState::Deployed,
    ];
    for w in path.windows(2) {
        assert!(w[0].can_transition_to(w[1]));
        assert!(!w[1].can_transition_to(w[0]));
        assert!(w[0].can_transition_to(DeploymentState::Failed));
        assert!(w[0].can_transition_to(DeploymentState::Cancelled));
    }
    assert!(!DeploymentState::Pending.can_transition_to(DeploymentState::Building));
    assert!(!DeploymentState::Pending.can_transition_to(DeploymentState::Pending));
    assert!(!DeploymentState::Cloning.can_transition_to(DeploymentState::Deployed));
}

#[test]
fn new_deployment_is_pending() {
    let d = deployment("site", 7);
    assert_eq!(d.id, 7);
    assert_eq!(d.state, DeploymentState::Pending);
    assert_eq!(d.created_at, 1_000);
    assert_eq!(d.updated_at, 1_000);
    assert!(d.started_at.is_none());
    assert!(d.result.is_none());
    assert_eq!(d.logs.len(), 0);
    assert_eq!(d.elapsed_seconds_at(5_000), None);
}

#[test]
fn new_deployment_rejects_invalid_config() {
    let r = Deployment::new_with(config("1site"), 1, 0);
    assert!(matches!(r, Err(AppError::Validation(ValidationError::InvalidFormat { field: "project_name", .. }))));
    let mut c = config("site");
    c.owner = "-bad".to_string();
    assert!(matches!(
        Deployment::new_with(c, 1, 0),
        Err(AppError::Validation(ValidationError::InvalidFormat { field: "owner", .. }))
    ));
    let mut c = config("site");
    c.notify_email = Some("not-an-email".to_string());
    assert!(matches!(
        Deployment::new_with(c, 1, 0),
        Err(AppError::Validation(ValidationError::InvalidEmail { field: "email" }))
    ));
}

#[test]
fn deployments_get_distinct_identifiers() {
    let a = Deployment::new(config("site")).unwrap();
    let b = Deployment::new(config("site")).unwrap();
    assert_ne!(a.id, b.id);
    assert!(a.created_at > 0);
}

#[test]
fn cancel_then_cancel_again_is_refused() {
    let mut d = deployment("site", 1);
    assert!(d.cancel_at(2_000).is_ok());
    assert_eq!(d.state, DeploymentState::Cancelled);
    assert_eq!(d.updated_at, 2_000);
    assert_eq!(d.logs.len(), 1);
    assert_eq!(d.logs[0].message, "Deployment cancelled");
    assert_eq!(d.logs[0].level, LogLevel::Info);
    let again = d.cancel_at(3_000);
    match again {
        Err(AppError::Deployment(DeploymentError::AlreadyTerminal { state })) => assert_eq!(state, "cancelled"),
        other => panic!("unexpected {:?}", other),
    }
    assert_eq!(d.updated_at, 2_000);
    assert!(d.fail_at("late", 4_000).is_err());
}

#[test]
fn fail_records_the_error() {
    let mut d = deployment("site", 1);
    assert!(d.fail_at("disk full", 9_000).is_ok());
    assert_eq!(d.state, DeploymentState::Failed);
    let r = d.result.as_ref().unwrap();
    assert_eq!(r.url, None);
    assert_eq!(r.duration_seconds, 0);
    assert_eq!(r.error.as_deref(), Some("disk full"));
    assert_eq!(d.logs.last().unwrap().level, LogLevel::Error);
    assert!(d.cancel().is_err());
    assert!(d.fail("again").is_err());
}

#[test]
fn elapsed_seconds_counts_whole_seconds() {
    let mut d = deployment("site", 1);
    let _ = d.begin_pipeline(10_000);
    assert_eq!(d.started_at, Some(10_000));
    assert_eq!(d.elapsed_seconds_at(10_000), Some(0));
    assert_eq!(d.elapsed_seconds_at(12_999), Some(2));
    assert_eq!(d.elapsed_seconds_at(5_000), Some(0));
    assert!(d.elapsed_seconds().is_some());
}

#[test]
fn queue_is_first_in_first_out() {
    let mut q = DeploymentQueue::new(3);
    assert!(q.is_empty());
    assert_eq!(q.capacity(), 3);
    q.enqueue(deployment("a", 1)).unwrap();
    q.enqueue(deployment("b", 2)).unwrap();
    q.enqueue(deployment("c", 3)).unwrap();
    assert_eq!(q.len(), 3);
    match q.enqueue(deployment("d", 4)) {
        Err(AppError::Deployment(DeploymentError::QueueFull { current, capacity })) => {
            assert_eq!(current, 3);
            assert_eq!(capacity, 3);
        }
        other => panic!("unexpected {:?}", other),
    }
    assert_eq!(q.dequeue().unwrap().id, 1);
    assert_eq!(q.dequeue().unwrap().id, 2);
    q.enqueue(deployment("d", 4)).unwrap();
    assert_eq!(q.dequeue().unwrap().id, 3);
    assert_eq!(q.dequeue().unwrap().id, 4);
    assert!(q.dequeue().is_none());
}

#[test]
fn enqueued_deployment_is_found() {
    let mut q = DeploymentQueue::new(10);
    q.enqueue(deployment("a", 11)).unwrap();
    q.enqueue(deployment("b", 22)).unwrap();
    assert_eq!(q.find(22).unwrap().config.project_name, "b");
    assert_eq!(q.find(11).unwrap().config.project_name, "a");
    assert!(q.find(33).is_none());
    let ids: Vec<u128> = q.iter().iter().map(|d| d.id).collect();
    assert_eq!(ids, vec![11, 22]);
}

#[test]
fn queue_cancel_and_not_found() {
    let mut q = DeploymentQueue::new(10);
    q.enqueue(deployment("a", 1)).unwrap();
    q.enqueue(deployment("b", 2)).unwrap();
    q.cancel(2).unwrap();
    assert_eq!(q.find(2).unwrap().state, DeploymentState::Cancelled);
    assert_eq!(q.find(1).unwrap().state, DeploymentState::Pending);
    assert!(matches!(q.cancel(2), Err(AppError::Deployment(DeploymentError::AlreadyTerminal { .. }))));
    match q.cancel(0x0123_4567_89ab_cdef_0011_2233_4455_6677) {
        Err(AppError::Deployment(DeploymentError::NotFound { id })) => {
            assert_eq!(id, "01234567-89ab-cdef-0011-223344556677")
        }
        other => panic!("unexpected {:?}", other),
    }
}

#[test]
fn queue_remove_and_find_mut() {
    let mut q = DeploymentQueue::new(10);
    q.enqueue(deployment("a", 1)).unwrap();
    q.enqueue(deployment("b", 2)).unwrap();
    q.enqueue(deployment("c", 3)).unwrap();
    if let Some(d) = q.find_mut(3) {
        d.fail_at("boom", 5).unwrap();
    }
    assert_eq!(q.find(3).unwrap().state, DeploymentState::Failed);
    assert_eq!(q.remove(2).unwrap().id, 2);
    assert!(q.remove(2).is_none());
    let ids: Vec<u128> = q.iter().iter().map(|d| d.id).collect();
    assert_eq!(ids, vec![1, 3]);
}

#[test]
fn pending_active_and_cleanup() {
    let mut q = DeploymentQueue::new(10);
    for id in 1..=5u128 {
        q.enqueue(deployment("p", id)).unwrap();
    }
    let _ = q.find_mut(2).unwrap().begin_pipeline(10);
    q.cancel(3).unwrap();
    q.find_mut(5).unwrap().fail_at("x", 10).unwrap();
    let pending: Vec<u128> = q.pending().iter().map(|d| d.id).collect();
    assert_eq!(pending, vec![1, 4]);
    let active: Vec<u128> = q.active().iter().map(|d| d.id).collect();
    assert_eq!(active, vec![2]);
    let removed: Vec<u128> = q.cleanup_terminal().iter().map(|d| d.id).collect();
    assert_eq!(removed, vec![3, 5]);
    let kept: Vec<u128> = q.iter().iter().map(|d| d.id).collect();
    assert_eq!(kept, vec![1, 2, 4]);
    assert!(q.cleanup_terminal().is_empty());
}

#[test]
fn pipeline_runs_to_deployed() {
    let mut d = deployment("site", 0x0123_4567_89ab_cdef_0011_2233_4455_6677);
    match d.begin_pipeline(100) {
        PipelineAction::FetchBranch { owner, repo, branch, timeout_seconds } => {
            assert_eq!((owner.as_str(), repo.as_str(), branch.as_str()), ("octocat", "hello-world", "main"));
            assert_eq!(timeout_seconds, 120);
        }
        _ => panic!("expected a branch fetch"),
    }
    assert_eq!(d.state, DeploymentState::Cloning);
    match d.after_branch(Ok("abc1234".to_string()), 200) {
        PipelineAction::DownloadArchive { commit_sha, timeout_seconds, .. } => {
            assert_eq!(commit_sha, "abc1234");
            assert_eq!(timeout_seconds, 300);
        }
        _ => panic!("expected a download"),
    }
    assert_eq!(d.state, DeploymentState::Building);
    let key = match d.after_archive(Ok(2048), "20240101120000", 300) {
        PipelineAction::Upload { key, timeout_seconds } => {
            assert_eq!(timeout_seconds, 120);
            key
        }
        _ => panic!("expected an upload"),
    };
    assert_eq!(key, "deployments/site/01234567-89ab-cdef-0011-223344556677/20240101120000");
    assert_eq!(d.state, DeploymentState::Uploading);
    match d.after_upload(&key, Ok(()), 400) {
        PipelineAction::ListDnsRecords { domain, timeout_seconds } => {
            assert_eq!(domain, "site.example.com");
            assert_eq!(timeout_seconds, 60);
        }
        _ => panic!("expected a DNS listing"),
    }
    assert_eq!(d.state, DeploymentState::Configuring);
    match d.after_dns_list(Ok(0), 500) {
        PipelineAction::CreateDnsRecord { domain, record } => {
            assert_eq!(domain, "site.example.com");
            assert_eq!(record.type_, "CNAME");
            assert_eq!(record.content, "origin.example.com");
            assert_eq!(record.ttl, 1);
            assert!(record.proxied);
        }
        _ => panic!("expected a record creation"),
    }
    match d.after_dns_create(Ok(()), 600) {
        PipelineAction::Finish(Ok(url)) => assert_eq!(url, "https://site.example.com"),
        _ => panic!("expected success"),
    }
    assert_eq!(d.state, DeploymentState::Deployed);
    assert_eq!(d.started_at, Some(100));
    let messages: Vec<&str> = d.logs.iter().map(|l| l.message.as_str()).collect();
    assert_eq!(
        messages,
        vec![
            "Cloning repository...",
            "Resolved commit: abc1234",
            "Building from commit abc1234...",
            "Downloaded 2048 bytes",
            "Uploading artifacts...",
            "Uploaded to deployments/site/01234567-89ab-cdef-0011-223344556677/20240101120000",
            "Configuring DNS...",
            "Created DNS record for site.example.com",
            "Deployed successfully to https://site.example.com",
        ]
    );
    d.record_outcome(Ok("https://site.example.com".to_string()), 12);
    let r = d.result.as_ref().unwrap();
    assert_eq!(r.url.as_deref(), Some("https://site.example.com"));
    assert_eq!(r.duration_seconds, 12);
    assert!(r.error.is_none());
}

#[test]
fn pipeline_uses_configured_commit_and_existing_record() {
    let mut c = config("site");
    c.commit_sha = Some("deadbeef".to_string());
    c.domain = Some("www.example.org".to_string());
    let mut d = Deployment::new_with(c, 1, 0).unwrap();
    let _ = d.begin_pipeline(1);
    match d.after_branch(Ok("ffff".to_string()), 2) {
        PipelineAction::DownloadArchive { commit_sha, .. } => assert_eq!(commit_sha, "deadbeef"),
        _ => panic!("expected a download"),
    }
    let _ = d.after_archive(Ok(1), "s", 3);
    match d.after_upload("k", Ok(()), 4) {
        PipelineAction::ListDnsRecords { domain, .. } => assert_eq!(domain, "www.example.org"),
        _ => panic!("expected a DNS listing"),
    }
    match d.after_dns_list(Ok(2), 5) {
        PipelineAction::Finish(Ok(url)) => assert_eq!(url, "https://www.example.org"),
        _ => panic!("expected success"),
    }
    assert!(d.logs.iter().any(|l| l.message == "DNS record already exists for www.example.org"));
}

#[test]
fn pipeline_failures() {
    let mut d = deployment("site", 1);
    let _ = d.begin_pipeline(1);
    match d.after_branch(Err("boom".to_string()), 2) {
        PipelineAction::Finish(Err(AppError::Deployment(DeploymentError::CloneFailed { owner, repo, branch, reason }))) => {
            assert_eq!((owner.as_str(), repo.as_str(), branch.as_str(), reason.as_str()), ("octocat", "hello-world", "main", "boom"));
        }
        _ => panic!("expected a clone failure"),
    }
    let _ = d.after_branch(Ok("abc".to_string()), 3);
    match d.after_archive(Ok(0), "s", 4) {
        PipelineAction::Finish(Err(AppError::Deployment(DeploymentError::BuildFailed { reason }))) => {
            assert_eq!(reason, "empty archive")
        }
        _ => panic!("expected a build failure"),
    }
    assert_eq!(d.state, DeploymentState::Failed);
    assert_eq!(d.logs.last().unwrap().message, "Empty archive received");

    let mut d = deployment("site", 2);
    let _ = d.begin_pipeline(1);
    let _ = d.after_branch(Ok("abc".to_string()), 2);
    match d.after_archive(Err("503".to_string()), "s", 3) {
        PipelineAction::Finish(Err(AppError::Deployment(DeploymentError::BuildFailed { reason }))) => {
            assert_eq!(reason, "failed to download archive: 503")
        }
        _ => panic!("expected a build failure"),
    }
    let _ = d.after_archive(Ok(10), "s", 4);
    match d.after_upload("k", Err("denied".to_string()), 5) {
        PipelineAction::Finish(Err(AppError::Deployment(DeploymentError::UploadFailed { reason }))) => {
            assert_eq!(reason, "denied")
        }
        _ => panic!("expected an upload failure"),
    }
    let _ = d.after_upload("k", Ok(()), 6);
    match d.after_dns_list(Err("x".to_string()), 7) {
        PipelineAction::Finish(Err(AppError::Deployment(DeploymentError::ConfigFailed { reason }))) => {
            assert_eq!(reason, "failed to list DNS records: x")
        }
        _ => panic!("expected a configuration failure"),
    }
    match d.after_dns_create(Err("y".to_string()), 8) {
        PipelineAction::Finish(Err(AppError::Deployment(DeploymentError::ConfigFailed { reason }))) => {
            assert_eq!(reason, "failed to create DNS record: y")
        }
        _ => panic!("expected a configuration failure"),
    }
}

#[test]
fn pipeline_refuses_a_cancelled_deployment() {
    let mut d = deployment("site", 1);
    d.cancel_at(1).unwrap();
    match d.begin_pipeline(2) {
        PipelineAction::Finish(Err(AppError::Deployment(DeploymentError::InvalidTransition { from, to }))) => {
            assert_eq!((from.as_str(), to.as_str()), ("cancelled", "cloning"))
        }
        _ => panic!("expected an invalid transition"),
    }
    assert_eq!(d.state, DeploymentState::Cancelled);
}

#[test]
fn timeouts() {
    let mut d = deployment("site", 1);
    let _ = d.begin_pipeline(1);
    match d.stage_timed_out(PipelineStage::Clone, 2) {
        PipelineAction::Finish(Err(AppError::Deployment(DeploymentError::Timeout { seconds, state }))) => {
            assert_eq!(seconds, 120);
            assert_eq!(state, "cloning");
        }
        _ => panic!("expected a time-out"),
    }
    assert_eq!(d.logs.last().unwrap().message, "clone timed out after 120s");
    let _ = d.stage_timed_out(PipelineStage::Configure, 3);
    assert_eq!(d.logs.last().unwrap().message, "configuration timed out after 60s");
    match d.pipeline_timed_out(4) {
        AppError::Deployment(DeploymentError::Timeout { seconds, state }) => {
            assert_eq!(seconds, 600);
            assert_eq!(state, "failed");
        }
        other => panic!("unexpected {:?}", other),
    }
    assert_eq!(d.state, DeploymentState::Failed);
    assert_eq!(d.logs.last().unwrap().message, "deployment timed out after 600s");
    d.record_outcome(Err("deployment timed out".to_string()), 600);
    assert_eq!(d.result.as_ref().unwrap().error.as_deref(), Some("deployment timed out"));
}

#[test]
fn notices_follow_the_notification_address() {
    let d = deployment("site", 1);
    assert!(d.start_notice().is_none());
    assert!(d.end_notice(&Ok("https://x".to_string()), 3).is_none());
    let mut c = config("site");
    c.notify_email = Some("ops@example.com".to_string());
    let d = Deployment::new_with(c.clone(), 2, 0).unwrap();
    let m = d.start_notice().unwrap();
    assert_eq!(m.to, "ops@example.com");
    assert_eq!(m.subject, "\u{1f680} Deployment Started: site / main");
    assert!(m.body.contains("Commit: HEAD\nStarting deployment..."));
    c.commit_sha = Some("abc123".to_string());
    let d = Deployment::new_with(c, 3, 0).unwrap();
    assert!(d.start_notice().unwrap().body.contains("Commit: abc123\n"));
    let ok = d.end_notice(&Ok("https://site.example.com".to_string()), 7).unwrap();
    assert_eq!(ok.subject, "\u{2705} Deployment Succeeded: site / main");
    assert!(ok.body.contains("URL: https://site.example.com\nDuration: 7s"));
    let failed = d.end_notice(&Err("build failed: boom".to_string()), 7).unwrap();
    assert_eq!(failed.subject, "\u{274c} Deployment Failed: site / main");
    assert!(failed.body.contains("Error:\nbuild failed: boom"));
}
