//! Service configuration: reading it from the environment's variables and
//! checking it before the service starts.
use vstd::prelude::*;
use vstd::string::*;
use crate::error::{AppError, ConfigError, Result};
use crate::validation::{validate_email, validate_port_unprivileged, email_outcome, is_port_error};
use crate::deployment::pipeline::bytes;
use crate::text::{str_eq, parse_u16, u16_text, hex_prefix, hex_of_bytes};
use crate::crypto::{ct_eq_bytes, sha256, sha256_digest};

pub mod debug_text;
pub mod laws;

verus! {

pub const KEY_LENGTH_MIN: usize = 16;
pub const API_KEY_LENGTH_MIN: usize = 32;
pub const API_KEY_LENGTH_MAX: usize = 256;

#[derive(Clone)]
pub struct Config {
    pub server: ServerConfig,
    pub api: ApiConfig,
    pub s3: S3Config,
    pub github: GitHubConfig,
    pub cloudflare: CloudflareConfig,
    pub email: EmailConfig,
    pub groq: GroqConfig,
}

#[derive(Debug, Clone)]
pub struct ServerConfig {
    pub host: String,
    pub port: u16,
}

/// The key that clients present; it is kept private and compared in constant
/// time.
#[derive(Clone)]
pub struct ApiConfig {
    api_key: String,
}

#[derive(Clone)]
pub struct S3Config {
    pub bucket: String,
    pub region: String,
    pub access_key: String,
    pub secret_key: String,
    pub endpoint: Option<String>,
}

#[derive(Clone)]
pub struct GitHubConfig {
    pub token: String,
    pub webhook_secret: Option<String>,
}

#[derive(Clone)]
pub struct CloudflareConfig {
    pub api_token: String,
    pub zone_id: String,
}

#[derive(Clone)]
pub struct EmailConfig {
    pub smtp_host: String,
    pub smtp_port: u16,
    pub smtp_user: String,
    pub smtp_password: String,
    pub from_address: String,
}

#[derive(Clone)]
pub struct GroqConfig {
    pub api_key: String,
    pub model_id: String,
}

impl ApiConfig {
    pub closed spec fn key(&self) -> String {
        self.api_key
    }

    /// Whether `candidate` is the configured key.
    pub fn verify_key(&self, candidate: &str) -> (r: bool)
        ensures
            r == (bytes(self.key()) == candidate.spec_bytes()),
    {
        let key = self.api_key.as_str().as_bytes();
        let cand = candidate.as_bytes();
        if cand.len() != key.len() {
            return false;
        }
        ct_eq_bytes(key, cand)
    }

    /// The first 16 hexadecimal digits of the SHA-256 digest of the key: a
    /// fingerprint that can be logged in its place.
    pub fn key_hash(&self) -> (r: String)
        ensures
            r@ == hex_of_bytes(sha256_digest(bytes(self.key())).take(8)),
    {
        let digest = sha256(self.api_key.as_str().as_bytes());
        hex_prefix(digest.as_slice(), 8)
    }
}

} // verus!

verus! {

// ---------------------------------------------------------------------------
// Checking a configuration

/// `r` is the configuration error for variable `var` with `reason`.
pub open spec fn is_invalid_value(r: Result<()>, var: &'static str, reason: Seq<char>) -> bool {
    match r {
        Err(AppError::Config(ConfigError::InvalidValue { var: v, reason: got })) => v == var && got@ == reason,
        _ => false,
    }
}

/// Number of checks `Config::validate` makes, in order.
pub open spec fn config_check_count() -> int {
    11
}

impl Config {
    /// Check `k` of the configuration holds.
    pub open spec fn check_passes(self, k: int) -> bool {
        if k == 0 { self.server.port >= 1024 }
        else if k == 1 { bytes(self.api.key()).len() >= API_KEY_LENGTH_MIN }
        else if k == 2 { bytes(self.api.key()).len() <= API_KEY_LENGTH_MAX }
        else if k == 3 { bytes(self.s3.bucket).len() > 0 }
        else if k == 4 { bytes(self.github.token).len() >= KEY_LENGTH_MIN }
        else if k == 5 {
            match self.github.webhook_secret { Some(s) => bytes(s).len() >= KEY_LENGTH_MIN, None => true }
        }
        else if k == 6 { bytes(self.cloudflare.api_token).len() >= KEY_LENGTH_MIN }
        else if k == 7 { bytes(self.cloudflare.zone_id).len() > 0 }
        else if k == 8 { bytes(self.groq.api_key).len() >= KEY_LENGTH_MIN }
        else if k == 9 { email_outcome(bytes(self.email.from_address)) is Ok }
        else { self.email.smtp_port >= 1024 }
    }

    /// All checks before `k` hold.
    pub open spec fn passes_before(self, k: int) -> bool {
        forall|j: int| 0 <= j < k ==> #[trigger] self.check_passes(j)
    }

    /// `r` is the error that check `k` reports.
    pub open spec fn reports_failure(self, k: int, r: Result<()>) -> bool {
        if k == 0 { is_port_error(r, "must be >= 1024 (unprivileged)"@) }
        else if k == 1 { is_invalid_value(r, "API_KEY", "must be >= 32 chars"@) }
        else if k == 2 { is_invalid_value(r, "API_KEY", "must be <= 256 chars"@) }
        else if k == 3 { is_invalid_value(r, "S3_BUCKET", "cannot be empty"@) }
        else if k == 4 { is_invalid_value(r, "GITHUB_TOKEN", "must be >= 16 chars"@) }
        else if k == 5 { is_invalid_value(r, "GITHUB_WEBHOOK_SECRET", "must be >= 16 chars"@) }
        else if k == 6 { is_invalid_value(r, "CLOUDFLARE_API_TOKEN", "must be >= 16 chars"@) }
        else if k == 7 { is_invalid_value(r, "CLOUDFLARE_ZONE_ID", "cannot be empty"@) }
        else if k == 8 { is_invalid_value(r, "GROQ_API_KEY", "must be >= 16 chars"@) }
        else if k == 9 { r == email_outcome(bytes(self.email.from_address)) }
        else { is_port_error(r, "must be >= 1024 (unprivileged)"@) }
    }

    /// Checks the configuration: ports, key lengths, required names and the
    /// sender address, reporting the first check that fails.
    pub fn validate(&self) -> (r: Result<()>)
        ensures
            r is Ok <==> self.passes_before(config_check_count()),
            forall|k: int| 0 <= k < config_check_count() && self.passes_before(k) && !self.check_passes(k)
                ==> self.reports_failure(k, r),
    {
        let r = self.validate_checks();
        proof {
            assert forall|k: int| 0 <= k < config_check_count() && self.passes_before(k) && !self.check_passes(k)
                implies self.reports_failure(k, r) by {
                assert forall|j: int| 0 <= j < k implies self.check_passes(j) by {
                    assert(self.check_passes(j));
                }
            }
        }
        r
    }

    /// The first failing check of the configuration, as `validate` reports it.
    pub open spec fn first_failure(self, r: Result<()>) -> bool {
        if !self.check_passes(0) { self.reports_failure(0, r) }
        else if !self.check_passes(1) { self.reports_failure(1, r) }
        else if !self.check_passes(2) { self.reports_failure(2, r) }
        else if !self.check_passes(3) { self.reports_failure(3, r) }
        else if !self.check_passes(4) { self.reports_failure(4, r) }
        else if !self.check_passes(5) { self.reports_failure(5, r) }
        else if !self.check_passes(6) { self.reports_failure(6, r) }
        else if !self.check_passes(7) { self.reports_failure(7, r) }
        else if !self.check_passes(8) { self.reports_failure(8, r) }
        else if !self.check_passes(9) { self.reports_failure(9, r) }
        else if !self.check_passes(10) { self.reports_failure(10, r) }
        else { r is Ok }
    }

    fn validate_checks(&self) -> (r: Result<()>)
        ensures
            self.first_failure(r),
            r is Ok <==> self.passes_before(config_check_count()),
    {
        let r = self.validate_steps();
        proof {
            if self.passes_before(config_check_count()) {
                assert(self.check_passes(0) && self.check_passes(1) && self.check_passes(2) && self.check_passes(3));
                assert(self.check_passes(4) && self.check_passes(5) && self.check_passes(6) && self.check_passes(7));
                assert(self.check_passes(8) && self.check_passes(9) && self.check_passes(10));
            }
        }
        r
    }

    fn validate_steps(&self) -> (r: Result<()>)
        ensures
            self.first_failure(r),
    {
        if let Err(e) = validate_port_unprivileged(self.server.port) {
            return Err(e);
        }
        let api_len = self.api.api_key.as_str().as_bytes().len();
        if api_len < API_KEY_LENGTH_MIN {
            return Err(AppError::Config(ConfigError::InvalidValue {
                var: "API_KEY",
                reason: "must be >= 32 chars".to_owned(),
            }));
        }
        if api_len > API_KEY_LENGTH_MAX {
            return Err(AppError::Config(ConfigError::InvalidValue {
                var: "API_KEY",
                reason: "must be <= 256 chars".to_owned(),
            }));
        }
        if self.s3.bucket.as_str().as_bytes().len() == 0 {
            return Err(AppError::Config(ConfigError::InvalidValue {
                var: "S3_BUCKET",
                reason: "cannot be empty".to_owned(),
            }));
        }
        if self.github.token.as_str().as_bytes().len() < KEY_LENGTH_MIN {
            return Err(AppError::Config(ConfigError::InvalidValue {
                var: "GITHUB_TOKEN",
                reason: "must be >= 16 chars".to_owned(),
            }));
        }
        if let Some(secret) = &self.github.webhook_secret {
            if secret.as_str().as_bytes().len() < KEY_LENGTH_MIN {
                return Err(AppError::Config(ConfigError::InvalidValue {
                    var: "GITHUB_WEBHOOK_SECRET",
                    reason: "must be >= 16 chars".to_owned(),
                }));
            }
        }
        if self.cloudflare.api_token.as_str().as_bytes().len() < KEY_LENGTH_MIN {
            return Err(AppError::Config(ConfigError::InvalidValue {
                var: "CLOUDFLARE_API_TOKEN",
                reason: "must be >= 16 chars".to_owned(),
            }));
        }
        if self.cloudflare.zone_id.as_str().as_bytes().len() == 0 {
            return Err(AppError::Config(ConfigError::InvalidValue {
                var: "CLOUDFLARE_ZONE_ID",
                reason: "cannot be empty".to_owned(),
            }));
        }
        if self.groq.api_key.as_str().as_bytes().len() < KEY_LENGTH_MIN {
            return Err(AppError::Config(ConfigError::InvalidValue {
                var: "GROQ_API_KEY",
                reason: "must be >= 16 chars".to_owned(),
            }));
        }
        if let Err(e) = validate_email(self.email.from_address.as_str()) {
            return Err(e);
        }
        if let Err(e) = validate_port_unprivileged(self.email.smtp_port) {
            return Err(e);
        }
        Ok(())
    }
}

} // verus!

verus! {

// ---------------------------------------------------------------------------
// Reading the environment

/// The value of the first variable named `key` among `vars` (name, value).
pub open spec fn env_lookup(vars: Seq<(String, String)>, key: Seq<char>) -> Option<String>
    decreases vars.len(),
{
    if vars.len() == 0 {
        None
    } else if vars[0].0@ == key {
        Some(vars[0].1)
    } else {
        env_lookup(vars.skip(1), key)
    }
}

/// The value of `key` when it is set and not empty.
pub open spec fn env_optional(vars: Seq<(String, String)>, key: Seq<char>) -> Option<String> {
    match env_lookup(vars, key) {
        Some(v) => if v@.len() > 0 { Some(v) } else { None },
        None => None,
    }
}

fn lookup<'a>(vars: &'a Vec<(String, String)>, key: &str) -> (r: Option<&'a String>)
    ensures
        match r {
            Some(v) => env_lookup(vars@, key@) == Some(*v),
            None => env_lookup(vars@, key@) is None,
        },
{
    let n = vars.len();
    let mut i: usize = 0;
    assert(vars@.skip(0) =~= vars@);
    while i < n
        invariant
            n == vars@.len(),
            i <= n,
            env_lookup(vars@, key@) == env_lookup(vars@.skip(i as int), key@),
        decreases n - i,
    {
        assert(vars@.skip(i as int)[0] == vars@[i as int]);
        assert(vars@.skip(i as int).skip(1) =~= vars@.skip(i + 1));
        if str_eq(vars[i].0.as_str(), key) {
            return Some(&vars[i].1);
        }
        i = i + 1;
    }
    None
}

/// The value of `key`, or the error that names it as missing.
fn get_env(vars: &Vec<(String, String)>, key: &'static str) -> (r: Result<String>)
    ensures
        match env_lookup(vars@, key@) {
            Some(v) => r == Ok::<String, AppError>(v),
            None => r == Err::<String, AppError>(AppError::Config(ConfigError::MissingEnvVar { var: key })),
        },
{
    match lookup(vars, key) {
        Some(v) => Ok(v.clone()),
        None => Err(AppError::Config(ConfigError::MissingEnvVar { var: key })),
    }
}

fn get_env_optional(vars: &Vec<(String, String)>, key: &str) -> (r: Option<String>)
    ensures
        r == env_optional(vars@, key@),
{
    match lookup(vars, key) {
        Some(v) => {
            if v.as_str().is_empty() {
                None
            } else {
                Some(v.clone())
            }
        },
        None => None,
    }
}

fn get_env_or(vars: &Vec<(String, String)>, key: &str, default: &str) -> (r: String)
    ensures
        r@ == match env_optional(vars@, key@) {
            Some(v) => v@,
            None => default@,
        },
{
    match get_env_optional(vars, key) {
        Some(v) => v,
        None => default.to_owned(),
    }
}

/// The outcome of reading `key` as a port number.
pub open spec fn port_var_outcome(vars: Seq<(String, String)>, key: &'static str, r: Result<u16>) -> bool {
    match env_lookup(vars, key@) {
        None => r == Err::<u16, AppError>(AppError::Config(ConfigError::MissingEnvVar { var: key })),
        Some(v) => match u16_text(bytes(v)) {
            Some(p) => r == Ok::<u16, AppError>(p),
            None => match r {
                Err(AppError::Config(ConfigError::InvalidValue { var, reason })) => var == key && reason@ == "failed to parse"@,
                _ => false,
            },
        },
    }
}

fn get_env_parse(vars: &Vec<(String, String)>, key: &'static str) -> (r: Result<u16>)
    ensures
        port_var_outcome(vars@, key, r),
{
    let value = match get_env(vars, key) {
        Ok(v) => v,
        Err(e) => return Err(e),
    };
    match parse_u16(value.as_str()) {
        Some(p) => Ok(p),
        None => Err(AppError::Config(ConfigError::InvalidValue { var: key, reason: "failed to parse".to_owned() })),
    }
}

} // verus!

verus! {

/// The variables `from_env` requires, in the order it reads them.
pub open spec fn required_var(k: int) -> &'static str {
    if k == 0 { "SERVER_HOST" } else if k == 1 { "SERVER_PORT" } else if k == 2 { "API_KEY" }
    else if k == 3 { "S3_BUCKET" } else if k == 4 { "S3_REGION" } else if k == 5 { "S3_ACCESS_KEY" }
    else if k == 6 { "S3_SECRET_KEY" } else if k == 7 { "GITHUB_TOKEN" }
    else if k == 8 { "CLOUDFLARE_API_TOKEN" } else if k == 9 { "CLOUDFLARE_ZONE_ID" }
    else if k == 10 { "SMTP_HOST" } else if k == 11 { "SMTP_PORT" } else if k == 12 { "SMTP_USER" }
    else if k == 13 { "SMTP_PASSWORD" } else if k == 14 { "EMAIL_FROM" } else { "GROQ_API_KEY" }
}

pub open spec fn is_port_var(k: int) -> bool {
    k == 1 || k == 11
}

/// Required variable `k` is set and, for a port, denotes a `u16`.
pub open spec fn var_ok(vars: Seq<(String, String)>, k: int) -> bool {
    match env_lookup(vars, required_var(k)@) {
        Some(v) => !is_port_var(k) || u16_text(bytes(v)) is Some,
        None => false,
    }
}

/// `r` is the error `from_env` gives when required variable `k` is missing or
/// is a port that does not parse.
pub open spec fn var_failure(vars: Seq<(String, String)>, k: int, r: Result<Config>) -> bool {
    match env_lookup(vars, required_var(k)@) {
        None => match r {
            Err(AppError::Config(ConfigError::MissingEnvVar { var })) => var == required_var(k),
            _ => false,
        },
        Some(_) => match r {
            Err(AppError::Config(ConfigError::InvalidValue { var, reason })) =>
                var == required_var(k) && reason@ == "failed to parse"@,
            _ => false,
        },
    }
}

pub open spec fn all_vars_ok(vars: Seq<(String, String)>) -> bool {
    &&& var_ok(vars, 0) && var_ok(vars, 1) && var_ok(vars, 2) && var_ok(vars, 3)
    &&& var_ok(vars, 4) && var_ok(vars, 5) && var_ok(vars, 6) && var_ok(vars, 7)
    &&& var_ok(vars, 8) && var_ok(vars, 9) && var_ok(vars, 10) && var_ok(vars, 11)
    &&& var_ok(vars, 12) && var_ok(vars, 13) && var_ok(vars, 14) && var_ok(vars, 15)
}

/// The error for the first required variable that is missing or malformed.
pub open spec fn first_missing(vars: Seq<(String, String)>, r: Result<Config>) -> bool {
    if !var_ok(vars, 0) { var_failure(vars, 0, r) }
    else if !var_ok(vars, 1) { var_failure(vars, 1, r) }
    else if !var_ok(vars, 2) { var_failure(vars, 2, r) }
    else if !var_ok(vars, 3) { var_failure(vars, 3, r) }
    else if !var_ok(vars, 4) { var_failure(vars, 4, r) }
    else if !var_ok(vars, 5) { var_failure(vars, 5, r) }
    else if !var_ok(vars, 6) { var_failure(vars, 6, r) }
    else if !var_ok(vars, 7) { var_failure(vars, 7, r) }
    else if !var_ok(vars, 8) { var_failure(vars, 8, r) }
    else if !var_ok(vars, 9) { var_failure(vars, 9, r) }
    else if !var_ok(vars, 10) { var_failure(vars, 10, r) }
    else if !var_ok(vars, 11) { var_failure(vars, 11, r) }
    else if !var_ok(vars, 12) { var_failure(vars, 12, r) }
    else if !var_ok(vars, 13) { var_failure(vars, 13, r) }
    else if !var_ok(vars, 14) { var_failure(vars, 14, r) }
    else { var_failure(vars, 15, r) }
}

/// The outcome `r` without its value.
pub open spec fn drop_value(r: Result<Config>) -> Result<()> {
    match r {
        Ok(_) => Ok(()),
        Err(e) => Err(e),
    }
}

pub open spec fn required_value(vars: Seq<(String, String)>, k: int) -> String {
    env_lookup(vars, required_var(k)@).unwrap()
}

pub open spec fn port_value(vars: Seq<(String, String)>, k: int) -> u16 {
    u16_text(bytes(required_value(vars, k))).unwrap()
}

/// `c` holds the values of `vars`: each required variable, the optional
/// endpoint and webhook secret when set and not empty, and the model (by
/// default `llama-3.3-70b-versatile`).
pub open spec fn loaded(vars: Seq<(String, String)>, c: Config) -> bool {
    &&& c.server.host == required_value(vars, 0)
    &&& c.server.port == port_value(vars, 1)
    &&& c.api.key() == required_value(vars, 2)
    &&& c.s3.bucket == required_value(vars, 3)
    &&& c.s3.region == required_value(vars, 4)
    &&& c.s3.access_key == required_value(vars, 5)
    &&& c.s3.secret_key == required_value(vars, 6)
    &&& c.s3.endpoint == env_optional(vars, "S3_ENDPOINT"@)
    &&& c.github.token == required_value(vars, 7)
    &&& c.github.webhook_secret == env_optional(vars, "GITHUB_WEBHOOK_SECRET"@)
    &&& c.cloudflare.api_token == required_value(vars, 8)
    &&& c.cloudflare.zone_id == required_value(vars, 9)
    &&& c.email.smtp_host == required_value(vars, 10)
    &&& c.email.smtp_port == port_value(vars, 11)
    &&& c.email.smtp_user == required_value(vars, 12)
    &&& c.email.smtp_password == required_value(vars, 13)
    &&& c.email.from_address == required_value(vars, 14)
    &&& c.groq.api_key == required_value(vars, 15)
    &&& c.groq.model_id@ == match env_optional(vars, "GROQ_MODEL"@) {
        Some(m) => m@,
        None => "llama-3.3-70b-versatile"@,
    }
}

impl Config {
    /// Builds the configuration from the environment's variables `vars` (name,
    /// value), then checks it.
    pub fn from_env(vars: &Vec<(String, String)>) -> (r: Result<Config>)
        ensures
            !all_vars_ok(vars@) ==> first_missing(vars@, r),
            all_vars_ok(vars@) ==> match r {
                Ok(c) => loaded(vars@, c) && c.passes_before(config_check_count()),
                Err(_) => exists|c: Config| #[trigger] loaded(vars@, c) && c.first_failure(drop_value(r))
                    && !c.passes_before(config_check_count()),
            },
    {
        let host = match get_env(vars, "SERVER_HOST") { Ok(v) => v, Err(e) => return Err(e) };
        let port = match get_env_parse(vars, "SERVER_PORT") { Ok(v) => v, Err(e) => return Err(e) };
        let api_key = match get_env(vars, "API_KEY") { Ok(v) => v, Err(e) => return Err(e) };
        let bucket = match get_env(vars, "S3_BUCKET") { Ok(v) => v, Err(e) => return Err(e) };
        let region = match get_env(vars, "S3_REGION") { Ok(v) => v, Err(e) => return Err(e) };
        let access_key = match get_env(vars, "S3_ACCESS_KEY") { Ok(v) => v, Err(e) => return Err(e) };
        let secret_key = match get_env(vars, "S3_SECRET_KEY") { Ok(v) => v, Err(e) => return Err(e) };
        let endpoint = get_env_optional(vars, "S3_ENDPOINT");
        let token = match get_env(vars, "GITHUB_TOKEN") { Ok(v) => v, Err(e) => return Err(e) };
        let webhook_secret = get_env_optional(vars, "GITHUB_WEBHOOK_SECRET");
        let api_token = match get_env(vars, "CLOUDFLARE_API_TOKEN") { Ok(v) => v, Err(e) => return Err(e) };
        let zone_id = match get_env(vars, "CLOUDFLARE_ZONE_ID") { Ok(v) => v, Err(e) => return Err(e) };
        let smtp_host = match get_env(vars, "SMTP_HOST") { Ok(v) => v, Err(e) => return Err(e) };
        let smtp_port = match get_env_parse(vars, "SMTP_PORT") { Ok(v) => v, Err(e) => return Err(e) };
        let smtp_user = match get_env(vars, "SMTP_USER") { Ok(v) => v, Err(e) => return Err(e) };
        let smtp_password = match get_env(vars, "SMTP_PASSWORD") { Ok(v) => v, Err(e) => return Err(e) };
        let from_address = match get_env(vars, "EMAIL_FROM") { Ok(v) => v, Err(e) => return Err(e) };
        let groq_key = match get_env(vars, "GROQ_API_KEY") { Ok(v) => v, Err(e) => return Err(e) };
        let model_id = get_env_or(vars, "GROQ_MODEL", "llama-3.3-70b-versatile");
        let config = Config {
            server: ServerConfig { host, port },
            api: ApiConfig { api_key },
            s3: S3Config { bucket, region, access_key, secret_key, endpoint },
            github: GitHubConfig { token, webhook_secret },
            cloudflare: CloudflareConfig { api_token, zone_id },
            email: EmailConfig { smtp_host, smtp_port, smtp_user, smtp_password, from_address },
            groq: GroqConfig { api_key: groq_key, model_id },
        };
        assert(loaded(vars@, config));
        match config.validate_checks() {
            Ok(()) => Ok(config),
            Err(e) => Err(e),
        }
    }
}

} // verus!
