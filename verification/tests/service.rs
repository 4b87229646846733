use rustdeploy::api::handlers::{
    check_analyze_request, check_chat_request, github_webhook_check, github_webhook_enqueue, health_ready_response,
    health_response, submit_deployment, AnalyzeCodeRequest, ChatRequest, CreateDeploymentRequest, HealthCheckResult,
    HealthChecks, SubmitOutcome, WebhookCheck, WebhookCommit, WebhookPushPayload, WebhookReply, WebhookRepository,
};
use rustdeploy::api::middleware::{
    api_key_refusal, cors_allowed_headers, cors_allowed_methods, cors_allowed_origin, security_headers, RateLimiter,
    RATE_LIMIT_WINDOW_NANOS,
};
use rustdeploy::config::Config;
use rustdeploy::deployment::{DeploymentConfig, DeploymentQueue, DeploymentState};
use rustdeploy::error::{
    AppError, CloudflareError, ConfigError, DeploymentError, EmailError, GitHubError, GroqError, StorageError,
    ValidationError,
};
use rustdeploy::storage::s3::{
    check_list_prefix, check_reported_size, check_size_limit, check_upload, list_limit, listed_meta, uploaded_meta,
    validate_key, validate_size,
};
use rustdeploy::text::{hex_string, parse_u16, parse_u32, parse_u64, str_eq};

const API_KEY: &str = "0123456789abcdef0123456789abcdef";

fn vars() -> Vec<(String, String)> {
    [
        ("SERVER_HOST", "0.0.0.0"),
        ("SERVER_PORT", "8080"),
        ("API_KEY", API_KEY),
        ("S3_BUCKET", "artifacts"),
        ("S3_REGION", "us-east-1"),
        ("S3_ACCESS_KEY", "AKIA0000"),
        ("S3_SECRET_KEY", "s3-secret-value-0"),
        ("GITHUB_TOKEN", "ghp_0123456789abcdef"),
        ("GITHUB_WEBHOOK_SECRET", "webhook-secret-0123"),
        ("CLOUDFLARE_API_TOKEN", "cf-token-0123456789"),
        ("CLOUDFLARE_ZONE_ID", "zone42"),
        ("SMTP_HOST", "smtp.example.com"),
        ("SMTP_PORT", "2525"),
        ("SMTP_USER", "mailer"),
        ("SMTP_PASSWORD", "hunter2"),
        ("EMAIL_FROM", "deploy@example.com"),
        ("GROQ_API_KEY", "gsk_0123456789abcdef"),
    ]
    .iter()
    .map(|(k, v)| (k.to_string(), v.to_string()))
    .collect()
}

fn with(name: &str, value: Option<&str>) -> Vec<(String, String)> {
    let mut v: Vec<(String, String)> = vars().into_iter().filter(|(k, _)| k != name).collect();
    if let Some(x) = value {
        v.push((name.to_string(), x.to_string()));
    }
    v
}

fn config() -> Config {
    Config::from_env(&vars()).unwrap_or_else(|e| panic!("{:?}", e))
}

#[test]
fn config_loads_from_variables() {
    let c = config();
    assert_eq!(c.server.host, "0.0.0.0");
    assert_eq!(c.server.port, 8080);
    assert_eq!(c.s3.bucket, "artifacts");
    assert_eq!(c.s3.endpoint, None);
    assert_eq!(c.github.webhook_secret.as_deref(), Some("webhook-secret-0123"));
    assert_eq!(c.email.smtp_port, 2525);
    assert_eq!(c.groq.model_id, "llama-3.3-70b-versatile");
    assert!(c.validate().is_ok());
    let c = Config::from_env(&with("GROQ_MODEL", Some("mixtral"))).unwrap();
    assert_eq!(c.groq.model_id, "mixtral");
    let c = Config::from_env(&with("S3_ENDPOINT", Some(""))).unwrap();
    assert_eq!(c.s3.endpoint, None);
}

#[test]
fn config_missing_and_malformed_variables() {
    assert!(matches!(
        Config::from_env(&with("API_KEY", None)),
        Err(AppError::Config(ConfigError::MissingEnvVar { var: "API_KEY" }))
    ));
    match Config::from_env(&with("SERVER_PORT", Some("80x"))) {
        Err(AppError::Config(ConfigError::InvalidValue { var, reason })) => {
            assert_eq!(var, "SERVER_PORT");
            assert_eq!(reason, "failed to parse");
        }
        other => panic!("unexpected {:?}", other.err()),
    }
    assert!(matches!(
        Config::from_env(&with("SMTP_PORT", Some("70000"))),
        Err(AppError::Config(ConfigError::InvalidValue { var: "SMTP_PORT", .. }))
    ));
    assert!(matches!(
        Config::from_env(&with("GROQ_API_KEY", None)),
        Err(AppError::Config(ConfigError::MissingEnvVar { var: "GROQ_API_KEY" }))
    ));
}

#[test]
fn config_checks() {
    match Config::from_env(&with("SERVER_PORT", Some("80"))) {
        Err(AppError::Validation(ValidationError::Field { field, reason })) => {
            assert_eq!(field, "port");
            assert_eq!(reason, "must be >= 1024 (unprivileged)");
        }
        other => panic!("unexpected {:?}", other.err()),
    }
    match Config::from_env(&with("API_KEY", Some("short"))) {
        Err(AppError::Config(ConfigError::InvalidValue { var, reason })) => {
            assert_eq!(var, "API_KEY");
            assert_eq!(reason, "must be >= 32 chars");
        }
        other => panic!("unexpected {:?}", other.err()),
    }
    let long = "k".repeat(257);
    match Config::from_env(&with("API_KEY", Some(&long))) {
        Err(AppError::Config(ConfigError::InvalidValue { reason, .. })) => assert_eq!(reason, "must be <= 256 chars"),
        other => panic!("unexpected {:?}", other.err()),
    }
    match Config::from_env(&with("GITHUB_WEBHOOK_SECRET", Some("short"))) {
        Err(AppError::Config(ConfigError::InvalidValue { var, reason })) => {
            assert_eq!(var, "GITHUB_WEBHOOK_SECRET");
            assert_eq!(reason, "must be >= 16 chars");
        }
        other => panic!("unexpected {:?}", other.err()),
    }
    match Config::from_env(&with("CLOUDFLARE_ZONE_ID", Some(""))) {
        Err(AppError::Config(ConfigError::InvalidValue { var, reason })) => {
            assert_eq!(var, "CLOUDFLARE_ZONE_ID");
            assert_eq!(reason, "cannot be empty");
        }
        other => panic!("unexpected {:?}", other.err()),
    }
    assert!(matches!(
        Config::from_env(&with("EMAIL_FROM", Some("not-an-address"))),
        Err(AppError::Validation(ValidationError::InvalidEmail { field: "email" }))
    ));
    assert!(matches!(
        Config::from_env(&with("SMTP_PORT", Some("25"))),
        Err(AppError::Validation(ValidationError::Field { field: "port", .. }))
    ));
}

#[test]
fn api_key_comparison_and_fingerprint() {
    let c = config();
    assert!(c.api.verify_key(API_KEY));
    assert!(!c.api.verify_key("0123456789abcdef0123456789abcdeF"));
    assert!(!c.api.verify_key("0123456789abcdef"));
    assert!(!c.api.verify_key(""));
    assert_eq!(c.api.key_hash(), "3eb1bd439947eb76");
}

#[test]
fn api_key_refusals() {
    let c = config();
    assert_eq!(api_key_refusal(&c.api, None), Some("missing api key"));
    assert_eq!(api_key_refusal(&c.api, Some("")), Some("missing api key"));
    assert_eq!(api_key_refusal(&c.api, Some("wrong")), Some("invalid api key"));
    assert_eq!(api_key_refusal(&c.api, Some(API_KEY)), None);
}

#[test]
fn cors_and_security_headers() {
    assert_eq!(cors_allowed_origin(Some("https://app.example.com")), "https://app.example.com");
    assert_eq!(cors_allowed_origin(None), "*");
    assert_eq!(cors_allowed_methods(), "GET, POST, PUT, DELETE, OPTIONS");
    assert_eq!(cors_allowed_headers(), "Content-Type, Authorization, X-API-Key");
    assert_eq!(
        security_headers(),
        vec![
            ("x-content-type-options", "nosniff"),
            ("x-frame-options", "DENY"),
            ("X-XSS-Protection", "1; mode=block"),
            ("cache-control", "no-store"),
        ]
    );
}

#[test]
fn rate_limit_admits_a_hundred_per_window() {
    let mut rl = RateLimiter::new(0);
    let ip = 0x7f00_0001u128;
    for _ in 0..100 {
        assert!(rl.check_rate_limit(ip, 1_000));
    }
    assert!(!rl.check_rate_limit(ip, 2_000));
    assert!(!rl.check_rate_limit(ip, RATE_LIMIT_WINDOW_NANOS));
    assert!(rl.check_rate_limit(ip + 1, 2_000));
    assert!(rl.check_rate_limit(ip, 1_000 + RATE_LIMIT_WINDOW_NANOS));
    for _ in 0..99 {
        assert!(rl.check_rate_limit(ip, 1_000 + RATE_LIMIT_WINDOW_NANOS + 5));
    }
    assert!(!rl.check_rate_limit(ip, 1_000 + RATE_LIMIT_WINDOW_NANOS + 6));
}

#[test]
fn rate_limit_cleanup_keeps_open_windows() {
    let mut rl = RateLimiter::new(0);
    for ip in 0..10_001u128 {
        assert!(rl.check_rate_limit(ip, 0));
    }
    let busy = 5_000_000u128;
    for _ in 0..100 {
        assert!(rl.check_rate_limit(busy, RATE_LIMIT_WINDOW_NANOS / 2));
    }
    assert!(!rl.check_rate_limit(busy, RATE_LIMIT_WINDOW_NANOS + 1));
    assert!(rl.check_rate_limit(0, RATE_LIMIT_WINDOW_NANOS + 1));
}

#[test]
fn health_answers() {
    let h = health_response("0.1.0");
    assert_eq!((h.status.as_str(), h.version.as_str()), ("ok", "0.1.0"));
    let checks = HealthChecks {
        queue: HealthCheckResult::passed(0),
        github: HealthCheckResult::passed(12),
        s3: HealthCheckResult::passed(3),
        cloudflare: HealthCheckResult::passed(4),
    };
    let (r, code) = health_ready_response("0.1.0", checks);
    assert_eq!((r.status.as_str(), code), ("ok", 200));
    let checks = HealthChecks {
        queue: HealthCheckResult::passed(0),
        github: HealthCheckResult::passed(12),
        s3: HealthCheckResult::degraded(30, "bucket not accessible".to_string()),
        cloudflare: HealthCheckResult::passed(4),
    };
    let (r, code) = health_ready_response("0.1.0", checks);
    assert_eq!((r.status.as_str(), code), ("degraded", 503));
    assert_eq!(r.checks.s3.error.as_deref(), Some("bucket not accessible"));
}

#[test]
fn chat_and_analysis_requests() {
    assert_eq!(check_chat_request(&ChatRequest { message: String::new() }), Some("message cannot be empty"));
    assert_eq!(check_chat_request(&ChatRequest { message: "hi".to_string() }), None);
    let req = |code: &str, language: &str| AnalyzeCodeRequest { code: code.to_string(), language: language.to_string() };
    assert_eq!(check_analyze_request(&req("", "")), Some("code cannot be empty"));
    assert_eq!(check_analyze_request(&req("x", "")), Some("language cannot be empty"));
    assert_eq!(check_analyze_request(&req("x", "rust")), None);
}

fn request(project: &str) -> CreateDeploymentRequest {
    CreateDeploymentRequest {
        project_name: project.to_string(),
        owner: "octocat".to_string(),
        repo: "hello-world".to_string(),
        branch: "main".to_string(),
        commit_sha: None,
        domain: None,
        notify_email: None,
    }
}

#[test]
fn deployments_are_submitted() {
    let mut q = DeploymentQueue::new(1);
    let c: DeploymentConfig = request("site").into_config();
    let out = submit_deployment(&mut q, c, 42, 1_000);
    assert_eq!(out.status(), 201);
    assert!(matches!(out, SubmitOutcome::Created(42)));
    let d = q.find(42).unwrap();
    assert_eq!(d.state, DeploymentState::Pending);
    assert!(d.result.is_none() && d.started_at.is_none() && d.logs.is_empty());
    assert_eq!((d.created_at, d.updated_at), (1_000, 1_000));
    let out = submit_deployment(&mut q, request("other").into_config(), 43, 1_000);
    assert_eq!(out.status(), 503);
    assert!(matches!(out, SubmitOutcome::QueueFull(AppError::Deployment(DeploymentError::QueueFull { .. }))));
    let out = submit_deployment(&mut q, request("").into_config(), 44, 1_000);
    assert_eq!(out.status(), 400);
    assert!(matches!(out, SubmitOutcome::Rejected(AppError::Validation(ValidationError::Empty { field: "project_name" }))));
    assert_eq!(q.len(), 1);
}

const SECRET: &str = "webhook-secret-0123";
const BODY: &[u8] = b"{\"ref\":\"refs/heads/main\"}";
const SIGNATURE: &str = "sha256=39a45a872584126e419a62ad2509071472d421bb9b6baf4b72ff613e56976307";

#[test]
fn webhook_deliveries_are_checked() {
    assert!(matches!(
        github_webhook_check(None, Some(SECRET), Some("push"), BODY),
        WebhookCheck::Reply(WebhookReply::MissingSignature)
    ));
    assert!(matches!(
        github_webhook_check(Some(None), Some(SECRET), Some("push"), BODY),
        WebhookCheck::Reply(WebhookReply::InvalidSignatureHeader)
    ));
    assert!(matches!(
        github_webhook_check(Some(Some(SIGNATURE)), None, Some("push"), BODY),
        WebhookCheck::Reply(WebhookReply::SecretNotConfigured)
    ));
    assert!(matches!(
        github_webhook_check(Some(Some("sha256=00")), Some(SECRET), Some("push"), BODY),
        WebhookCheck::Reply(WebhookReply::InvalidSignature)
    ));
    assert!(matches!(
        github_webhook_check(Some(Some("")), Some(SECRET), Some("push"), BODY),
        WebhookCheck::Reply(WebhookReply::SignatureError(AppError::Validation(ValidationError::Empty { field: "signature" })))
    ));
    match github_webhook_check(Some(Some(SIGNATURE)), Some(SECRET), Some("release"), BODY) {
        WebhookCheck::Reply(WebhookReply::Ignored(e)) => assert_eq!(e, "release"),
        _ => panic!("expected the event to be ignored"),
    }
    match github_webhook_check(Some(Some(SIGNATURE)), Some(SECRET), None, BODY) {
        WebhookCheck::Reply(r) => {
            assert_eq!(r.status(), 200);
            assert!(matches!(r, WebhookReply::Ignored(ref e) if e == "unknown"));
        }
        _ => panic!("expected the event to be ignored"),
    }
    assert!(matches!(github_webhook_check(Some(Some(SIGNATURE)), Some(SECRET), Some("push"), BODY), WebhookCheck::ParsePush));
    assert_eq!(WebhookReply::MissingSignature.status(), 401);
    assert_eq!(WebhookReply::SecretNotConfigured.status(), 500);
}

fn push(git_ref: &str, full_name: &str, commit: Option<&str>) -> WebhookPushPayload {
    WebhookPushPayload {
        git_ref: git_ref.to_string(),
        repository: WebhookRepository {
            name: "x".to_string(),
            full_name: full_name.to_string(),
            default_branch: "main".to_string(),
        },
        head_commit: commit.map(|c| WebhookCommit { id: c.to_string(), message: "m".to_string() }),
    }
}

#[test]
fn pushes_are_queued() {
    let mut q = DeploymentQueue::new(5);
    let r = github_webhook_enqueue(&mut q, &push("refs/heads/feature/x", "octocat/hello-world", Some("abc123")), 9, 0);
    assert!(matches!(r, WebhookReply::Queued(9)));
    let d = q.find(9).unwrap();
    assert_eq!(d.config.project_name, "hello-world");
    assert_eq!(d.config.owner, "octocat");
    assert_eq!(d.config.repo, "hello-world");
    assert_eq!(d.config.branch, "feature/x");
    assert_eq!(d.config.commit_sha.as_deref(), Some("abc123"));
    assert_eq!(d.state, DeploymentState::Pending);
    assert!(d.result.is_none() && d.started_at.is_none() && d.logs.is_empty());
    let r = github_webhook_enqueue(&mut q, &push("main", "octocat/site", None), 10, 0);
    assert!(matches!(r, WebhookReply::Queued(10)));
    assert_eq!(q.find(10).unwrap().config.branch, "main");
    assert!(matches!(
        github_webhook_enqueue(&mut q, &push("refs/heads/main", "no-slash", None), 11, 0),
        WebhookReply::InvalidRepositoryName
    ));
    assert!(matches!(
        github_webhook_enqueue(&mut q, &push("refs/heads/main", "a/b/c", None), 11, 0),
        WebhookReply::InvalidRepositoryName
    ));
    let r = github_webhook_enqueue(&mut q, &push("refs/heads/main", "octocat/9lives", None), 11, 0);
    assert_eq!(r.status(), 400);
    assert!(matches!(r, WebhookReply::InvalidDeployment(AppError::Validation(ValidationError::InvalidFormat { field: "project_name", .. }))));
    assert_eq!(q.len(), 2);
}

#[test]
fn storage_keys_and_sizes() {
    assert!(validate_key("deployments/site/1.tar.gz").is_ok());
    assert!(matches!(validate_key(""), Err(AppError::Validation(ValidationError::Empty { field: "s3_key" }))));
    assert!(matches!(validate_key("a/../b"), Err(AppError::Validation(ValidationError::PathTraversal { field: "s3_key" }))));
    assert!(matches!(validate_key("/abs"), Err(AppError::Validation(ValidationError::PathTraversal { field: "s3_key" }))));
    assert!(matches!(validate_key("a\0b"), Err(AppError::Validation(ValidationError::PathTraversal { field: "s3_key" }))));
    assert!(matches!(
        validate_key(&"k".repeat(1025)),
        Err(AppError::Validation(ValidationError::TooLong { field: "s3_key", length: 1025, max: 1024 }))
    ));
    assert!(validate_size(5 * 1024 * 1024 * 1024).is_ok());
    assert!(matches!(
        validate_size(5 * 1024 * 1024 * 1024 + 1),
        Err(AppError::Storage(StorageError::SizeLimitExceeded { limit_bytes: 5_368_709_120, .. }))
    ));
    assert!(check_size_limit(10, 10).is_ok());
    assert!(check_size_limit(11, 10).is_err());
    assert!(matches!(
        check_upload("k", 11, 10),
        Err(AppError::Storage(StorageError::SizeLimitExceeded { size_bytes: 11, limit_bytes: 10 }))
    ));
    assert!(check_upload("k", 10, 10).is_ok());
    assert!(check_reported_size(None, 0).is_ok());
    assert!(matches!(
        check_reported_size(Some(100), 99),
        Err(AppError::Storage(StorageError::SizeLimitExceeded { size_bytes: 100, limit_bytes: 99 }))
    ));
    assert!(check_reported_size(Some(-1), 1000).is_err());
}

#[test]
fn storage_listings() {
    assert_eq!(list_limit(0), 1);
    assert_eq!(list_limit(-5), 1);
    assert_eq!(list_limit(500), 500);
    assert_eq!(list_limit(5000), 1000);
    assert!(check_list_prefix("").is_ok());
    assert!(check_list_prefix("deployments/").is_ok());
    match check_list_prefix("a/..") {
        Err(AppError::Storage(StorageError::InvalidKey { key, reason })) => {
            assert_eq!(key, "a/..");
            assert_eq!(reason, "path traversal not allowed");
        }
        other => panic!("unexpected {:?}", other),
    }
    let m = uploaded_meta("k", 12, Some("application/gzip"), Some("\"e\"".to_string()));
    assert_eq!((m.key.as_str(), m.size_bytes, m.content_type.as_deref()), ("k", 12, Some("application/gzip")));
    assert!(listed_meta(None, Some(1), None).is_none());
    let m = listed_meta(Some("k2".to_string()), None, None).unwrap();
    assert_eq!((m.key.as_str(), m.size_bytes), ("k2", 0));
}

#[test]
fn error_statuses_and_codes() {
    let cases: Vec<(AppError, u16, &str)> = vec![
        (AppError::Validation(ValidationError::Empty { field: "x" }), 400, "VALIDATION_ERROR"),
        (AppError::Unauthorized, 401, "UNAUTHORIZED"),
        (AppError::Config(ConfigError::MissingEnvVar { var: "X" }), 500, "CONFIG_ERROR"),
        (AppError::Internal("x".to_string()), 500, "INTERNAL_ERROR"),
        (AppError::Storage(StorageError::NotFound { key: "k".to_string() }), 404, "STORAGE_ERROR"),
        (AppError::Storage(StorageError::SizeLimitExceeded { size_bytes: 2, limit_bytes: 1 }), 413, "STORAGE_ERROR"),
        (AppError::Storage(StorageError::BucketNotAccessible { bucket: "b".to_string() }), 502, "STORAGE_ERROR"),
        (AppError::GitHub(GitHubError::RateLimited { retry_after_seconds: 1 }), 429, "GITHUB_ERROR"),
        (AppError::GitHub(GitHubError::AuthFailed), 401, "GITHUB_ERROR"),
        (AppError::Cloudflare(CloudflareError::InvalidRecordType { type_: "X".to_string() }), 400, "CLOUDFLARE_ERROR"),
        (AppError::Email(EmailError::MessageTooLarge { size_bytes: 2, limit_bytes: 1 }), 413, "EMAIL_ERROR"),
        (AppError::Groq(GroqError::EmptyResponse), 502, "GROQ_ERROR"),
        (AppError::Deployment(DeploymentError::QueueFull { current: 1, capacity: 1 }), 503, "DEPLOYMENT_ERROR"),
        (AppError::Deployment(DeploymentError::AlreadyTerminal { state: "failed".to_string() }), 409, "DEPLOYMENT_ERROR"),
        (AppError::Deployment(DeploymentError::BuildFailed { reason: "x".to_string() }), 500, "DEPLOYMENT_ERROR"),
    ];
    for (e, status, code) in cases {
        assert_eq!(e.status_code(), status, "{:?}", e);
        assert_eq!(e.error_code(), code);
    }
}

#[test]
fn text_helpers() {
    assert_eq!(parse_u16("65535"), Some(65535));
    assert_eq!(parse_u16("65536"), None);
    assert_eq!(parse_u16("+8"), Some(8));
    assert_eq!(parse_u16(""), None);
    assert_eq!(parse_u16("-1"), None);
    assert_eq!(parse_u32("4294967295"), Some(u32::MAX));
    assert_eq!(parse_u64("18446744073709551615"), Some(u64::MAX));
    assert_eq!(parse_u64("18446744073709551616"), None);
    for s in ["0", "007", "12a", " 1", "99999"] {
        assert_eq!(parse_u16(s), s.parse::<u16>().ok(), "{s}");
    }
    assert_eq!(hex_string(&[0x00, 0xab, 0x10, 0xff]), "00ab10ff");
    assert!(str_eq("abc", "abc"));
    assert!(!str_eq("abc", "abd"));
}

#[test]
fn debug_text_hides_secrets() {
    let c = config();
    assert_eq!(c.api.debug_text(), "ApiConfig { api_key: \"[REDACTED]\" }");
    assert_eq!(
        c.s3.debug_text(),
        "S3Config { bucket: \"artifacts\", region: \"us-east-1\", access_key: \"[REDACTED]\", secret_key: \"[REDACTED]\", endpoint: None }"
    );
    assert_eq!(c.github.debug_text(), "GitHubConfig { token: \"[REDACTED]\", webhook_secret: Some(\"[REDACTED]\") }");
    assert_eq!(c.cloudflare.debug_text(), "CloudflareConfig { api_token: \"[REDACTED]\", zone_id: \"zone42\" }");
    assert_eq!(
        c.email.debug_text(),
        "EmailConfig { smtp_host: \"smtp.example.com\", smtp_port: 2525, smtp_user: \"[REDACTED]\", smtp_password: \"[REDACTED]\", from_address: \"deploy@example.com\" }"
    );
    assert_eq!(c.groq.debug_text(), "GroqConfig { api_key: \"[REDACTED]\", model_id: \"llama-3.3-70b-versatile\" }");
    assert_eq!(c.server.debug_text(), format!("{:?}", c.server));
    let all = c.debug_text();
    assert!(all.starts_with("Config { server: ServerConfig { host: \"0.0.0.0\", port: 8080 }, api: ApiConfig"));
    for secret in [API_KEY, "AKIA0000", "s3-secret-value-0", "ghp_0123456789abcdef", "webhook-secret-0123", "hunter2", "mailer"] {
        assert!(!all.contains(secret), "{secret}");
    }
    let c = Config::from_env(&with("S3_ENDPOINT", Some("http://minio:9000/\"x\""))).unwrap();
    assert!(c.s3.debug_text().ends_with("endpoint: Some(\"http://minio:9000/\\\"x\\\"\") }"));
    let c = Config::from_env(&with("GITHUB_WEBHOOK_SECRET", None)).unwrap();
    assert!(c.github.debug_text().ends_with("webhook_secret: None }"));
}

#[test]
fn debug_text_is_the_same_whatever_the_secrets() {
    let a = config();
    let mut vars = with("API_KEY", Some("ffffffffffffffffffffffffffffffff"));
    for (k, v) in vars.iter_mut() {
        match k.as_str() {
            "S3_ACCESS_KEY" | "S3_SECRET_KEY" | "SMTP_USER" | "SMTP_PASSWORD" => *v = format!("{v}-other"),
            "GITHUB_TOKEN" | "GITHUB_WEBHOOK_SECRET" | "CLOUDFLARE_API_TOKEN" | "GROQ_API_KEY" => *v = format!("{v}-other"),
            _ => {}
        }
    }
    let b = Config::from_env(&vars).unwrap();
    assert!(!b.api.verify_key(API_KEY));
    assert_eq!(a.debug_text(), b.debug_text());
}
