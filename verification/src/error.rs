//! Error types of the service and the HTTP status and error code each maps to.
use vstd::prelude::*;

verus! {

#[derive(Debug)]
#[allow(inconsistent_fields)]
pub enum ConfigError {
    MissingEnvVar { var: &'static str },
    InvalidValue { var: &'static str, reason: String },
    Validation(String),
}

#[derive(Debug)]
#[allow(inconsistent_fields)]
pub enum StorageError {
    BucketNotAccessible { bucket: String },
    UploadFailed { key: String, reason: String },
    DownloadFailed { key: String, reason: String },
    NotFound { key: String },
    SizeLimitExceeded { size_bytes: u64, limit_bytes: u64 },
    InvalidKey { key: String, reason: &'static str },
}

#[derive(Debug)]
#[allow(inconsistent_fields)]
pub enum GitHubError {
    RepoNotFound { owner: String, repo: String },
    BranchNotFound { owner: String, repo: String, branch: String },
    RateLimited { retry_after_seconds: u64 },
    AuthFailed,
    RequestFailed { operation: &'static str, reason: String },
    InvalidResponse { reason: String },
    InvalidIdentifier { value: String, reason: &'static str },
}

#[derive(Debug)]
#[allow(inconsistent_fields)]
pub enum CloudflareError {
    RecordNotFound { name: String },
    ApiError { code: u32, message: String },
    RequestFailed { operation: &'static str, reason: String },
    InvalidRecordType { type_: String },
}

#[derive(Debug)]
#[allow(inconsistent_fields)]
pub enum EmailError {
    ConnectionFailed { host: String, port: u16, reason: String },
    SendFailed { to: String, reason: String },
    InvalidAddress { address: String },
    MessageTooLarge { size_bytes: usize, limit_bytes: usize },
}

#[derive(Debug)]
#[allow(inconsistent_fields)]
pub enum GroqError {
    RequestFailed { reason: String },
    ApiError { status: u16, message: String },
    EmptyResponse,
    PromptTooLarge { length: usize, limit: usize },
    InvalidRole { role: String },
}

#[derive(Debug)]
#[allow(inconsistent_fields)]
pub enum DeploymentError {
    InvalidTransition { from: String, to: String },
    Timeout { seconds: u64, state: String },
    CloneFailed { owner: String, repo: String, branch: String, reason: String },
    BuildFailed { reason: String },
    UploadFailed { reason: String },
    ConfigFailed { reason: String },
    QueueFull { current: usize, capacity: usize },
    NotFound { id: String },
    AlreadyTerminal { state: String },
}

#[derive(Debug)]
#[allow(inconsistent_fields)]
pub enum ValidationError {
    Field { field: &'static str, reason: String },
    Empty { field: &'static str },
    TooLong { field: &'static str, length: usize, max: usize },
    TooShort { field: &'static str, length: usize, min: usize },
    InvalidFormat { field: &'static str, reason: &'static str },
    PathTraversal { field: &'static str },
    InvalidEmail { field: &'static str },
}

#[derive(Debug)]
#[allow(inconsistent_fields)]
pub enum AppError {
    Config(ConfigError),
    Storage(StorageError),
    GitHub(GitHubError),
    Cloudflare(CloudflareError),
    Email(EmailError),
    Groq(GroqError),
    Deployment(DeploymentError),
    Validation(ValidationError),
    Unauthorized,
    Internal(String),
}

pub type Result<T> = std::result::Result<T, AppError>;

/// The HTTP status that answers a request that failed with `e`.
pub open spec fn spec_status_code(e: AppError) -> u16 {
    match e {
        AppError::Validation(_) => 400,
        AppError::Unauthorized => 401,
        AppError::Config(_) => 500,
        AppError::Internal(_) => 500,
        AppError::Storage(s) => match s {
            StorageError::NotFound { .. } => 404,
            StorageError::InvalidKey { .. } => 400,
            StorageError::SizeLimitExceeded { .. } => 413,
            _ => 502,
        },
        AppError::GitHub(g) => match g {
            GitHubError::RepoNotFound { .. } => 404,
            GitHubError::BranchNotFound { .. } => 404,
            GitHubError::AuthFailed => 401,
            GitHubError::RateLimited { .. } => 429,
            GitHubError::InvalidIdentifier { .. } => 400,
            _ => 502,
        },
        AppError::Cloudflare(c) => match c {
            CloudflareError::RecordNotFound { .. } => 404,
            CloudflareError::InvalidRecordType { .. } => 400,
            _ => 502,
        },
        AppError::Email(m) => match m {
            EmailError::InvalidAddress { .. } => 400,
            EmailError::MessageTooLarge { .. } => 413,
            _ => 502,
        },
        AppError::Groq(g) => match g {
            GroqError::PromptTooLarge { .. } => 413,
            GroqError::InvalidRole { .. } => 400,
            _ => 502,
        },
        AppError::Deployment(d) => match d {
            DeploymentError::NotFound { .. } => 404,
            DeploymentError::QueueFull { .. } => 503,
            DeploymentError::InvalidTransition { .. } => 409,
            DeploymentError::AlreadyTerminal { .. } => 409,
            _ => 500,
        },
    }
}

impl AppError {
    pub fn status_code(&self) -> (code: u16)
        ensures
            code == spec_status_code(*self),
    {
        match self {
            AppError::Validation(_) => 400,
            AppError::Unauthorized => 401,
            AppError::Config(_) => 500,
            AppError::Internal(_) => 500,
            AppError::Storage(e) => match e {
                StorageError::NotFound { .. } => 404,
                StorageError::InvalidKey { .. } => 400,
                StorageError::SizeLimitExceeded { .. } => 413,
                _ => 502,
            },
            AppError::GitHub(e) => match e {
                GitHubError::RepoNotFound { .. } => 404,
                GitHubError::BranchNotFound { .. } => 404,
                GitHubError::AuthFailed => 401,
                GitHubError::RateLimited { .. } => 429,
                GitHubError::InvalidIdentifier { .. } => 400,
                _ => 502,
            },
            AppError::Cloudflare(e) => match e {
                CloudflareError::RecordNotFound { .. } => 404,
                CloudflareError::InvalidRecordType { .. } => 400,
                _ => 502,
            },
            AppError::Email(e) => match e {
                EmailError::InvalidAddress { .. } => 400,
                EmailError::MessageTooLarge { .. } => 413,
                _ => 502,
            },
            AppError::Groq(e) => match e {
                GroqError::PromptTooLarge { .. } => 413,
                GroqError::InvalidRole { .. } => 400,
                _ => 502,
            },
            AppError::Deployment(e) => match e {
                DeploymentError::NotFound { .. } => 404,
                DeploymentError::QueueFull { .. } => 503,
                DeploymentError::InvalidTransition { .. } => 409,
                DeploymentError::AlreadyTerminal { .. } => 409,
                _ => 500,
            },
        }
    }

    pub fn error_code(&self) -> (code: &'static str)
        ensures
            code@ == spec_error_code(*self)@,
    {
        match self {
            AppError::Config(_) => "CONFIG_ERROR",
            AppError::Storage(_) => "STORAGE_ERROR",
            AppError::GitHub(_) => "GITHUB_ERROR",
            AppError::Cloudflare(_) => "CLOUDFLARE_ERROR",
            AppError::Email(_) => "EMAIL_ERROR",
            AppError::Groq(_) => "GROQ_ERROR",
            AppError::Deployment(_) => "DEPLOYMENT_ERROR",
            AppError::Validation(_) => "VALIDATION_ERROR",
            AppError::Unauthorized => "UNAUTHORIZED",
            AppError::Internal(_) => "INTERNAL_ERROR",
        }
    }
}

/// The machine-readable code of an error, one per top-level kind.
pub open spec fn spec_error_code(e: AppError) -> &'static str {
    match e {
        AppError::Config(_) => "CONFIG_ERROR",
        AppError::Storage(_) => "STORAGE_ERROR",
        AppError::GitHub(_) => "GITHUB_ERROR",
        AppError::Cloudflare(_) => "CLOUDFLARE_ERROR",
        AppError::Email(_) => "EMAIL_ERROR",
        AppError::Groq(_) => "GROQ_ERROR",
        AppError::Deployment(_) => "DEPLOYMENT_ERROR",
        AppError::Validation(_) => "VALIDATION_ERROR",
        AppError::Unauthorized => "UNAUTHORIZED",
        AppError::Internal(_) => "INTERNAL_ERROR",
    }
}

} // verus!
