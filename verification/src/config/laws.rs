//! What a configuration must satisfy, stated on its fields.
use vstd::prelude::*;
use super::{Config, config_check_count, is_invalid_value, KEY_LENGTH_MIN, API_KEY_LENGTH_MIN, API_KEY_LENGTH_MAX};
use crate::deployment::pipeline::bytes;
use crate::error::Result;
use crate::validation::{email_outcome, is_port_error};

verus! {

/// A configuration passes every check exactly when both ports are at least
/// 1024, the API key has 32 to 256 bytes, the bucket and the zone are named,
/// the GitHub token, the webhook secret (when set), the Cloudflare token and
/// the Groq key have at least 16 bytes, and the sender address is valid.
pub proof fn law_config_requirements(c: Config)
    ensures
        c.passes_before(config_check_count()) <==> {
            &&& c.server.port >= 1024
            &&& API_KEY_LENGTH_MIN <= bytes(c.api.key()).len() <= API_KEY_LENGTH_MAX
            &&& bytes(c.s3.bucket).len() > 0
            &&& bytes(c.github.token).len() >= KEY_LENGTH_MIN
            &&& (c.github.webhook_secret matches Some(s) ==> bytes(s).len() >= KEY_LENGTH_MIN)
            &&& bytes(c.cloudflare.api_token).len() >= KEY_LENGTH_MIN
            &&& bytes(c.cloudflare.zone_id).len() > 0
            &&& bytes(c.groq.api_key).len() >= KEY_LENGTH_MIN
            &&& email_outcome(bytes(c.email.from_address)) is Ok
            &&& c.email.smtp_port >= 1024
        },
{
    if c.passes_before(config_check_count()) {
        assert(c.check_passes(0) && c.check_passes(1) && c.check_passes(2) && c.check_passes(3));
        assert(c.check_passes(4) && c.check_passes(5) && c.check_passes(6) && c.check_passes(7));
        assert(c.check_passes(8) && c.check_passes(9) && c.check_passes(10));
    }
}

/// What `Config::validate` answers, read off the fields in the order it checks
/// them: the first requirement that fails names its variable and reason (a
/// GitHub token of fewer than 16 bytes, for instance, is refused as
/// `GITHUB_TOKEN`: `must be >= 16 chars` once the port, the API key and the
/// bucket pass), and a configuration that meets them all is accepted.
pub proof fn law_config_outcome(c: Config, r: Result<()>)
    requires
        r is Ok <==> c.passes_before(config_check_count()),
        forall|k: int| 0 <= k < config_check_count() && c.passes_before(k) && !c.check_passes(k) ==> c.reports_failure(k, r),
    ensures
        if c.server.port < 1024 {
            is_port_error(r, "must be >= 1024 (unprivileged)"@)
        } else if bytes(c.api.key()).len() < API_KEY_LENGTH_MIN {
            is_invalid_value(r, "API_KEY", "must be >= 32 chars"@)
        } else if bytes(c.api.key()).len() > API_KEY_LENGTH_MAX {
            is_invalid_value(r, "API_KEY", "must be <= 256 chars"@)
        } else if bytes(c.s3.bucket).len() == 0 {
            is_invalid_value(r, "S3_BUCKET", "cannot be empty"@)
        } else if bytes(c.github.token).len() < KEY_LENGTH_MIN {
            is_invalid_value(r, "GITHUB_TOKEN", "must be >= 16 chars"@)
        } else if c.github.webhook_secret matches Some(s) && bytes(s).len() < KEY_LENGTH_MIN {
            is_invalid_value(r, "GITHUB_WEBHOOK_SECRET", "must be >= 16 chars"@)
        } else if bytes(c.cloudflare.api_token).len() < KEY_LENGTH_MIN {
            is_invalid_value(r, "CLOUDFLARE_API_TOKEN", "must be >= 16 chars"@)
        } else if bytes(c.cloudflare.zone_id).len() == 0 {
            is_invalid_value(r, "CLOUDFLARE_ZONE_ID", "cannot be empty"@)
        } else if bytes(c.groq.api_key).len() < KEY_LENGTH_MIN {
            is_invalid_value(r, "GROQ_API_KEY", "must be >= 16 chars"@)
        } else if email_outcome(bytes(c.email.from_address)) is Err {
            r == email_outcome(bytes(c.email.from_address))
        } else if c.email.smtp_port < 1024 {
            is_port_error(r, "must be >= 1024 (unprivileged)"@)
        } else {
            r is Ok
        },
{
    law_config_requirements(c);
    assert(c.passes_before(0));
    if c.check_passes(0) { assert(c.passes_before(1)); }
    if c.passes_before(1) && c.check_passes(1) { assert(c.passes_before(2)); }
    if c.passes_before(2) && c.check_passes(2) { assert(c.passes_before(3)); }
    if c.passes_before(3) && c.check_passes(3) { assert(c.passes_before(4)); }
    if c.passes_before(4) && c.check_passes(4) { assert(c.passes_before(5)); }
    if c.passes_before(5) && c.check_passes(5) { assert(c.passes_before(6)); }
    if c.passes_before(6) && c.check_passes(6) { assert(c.passes_before(7)); }
    if c.passes_before(7) && c.check_passes(7) { assert(c.passes_before(8)); }
    if c.passes_before(8) && c.check_passes(8) { assert(c.passes_before(9)); }
    if c.passes_before(9) && c.check_passes(9) { assert(c.passes_before(10)); }
    if c.passes_before(10) && c.check_passes(10) { assert(c.passes_before(11)); }
}

} // verus!
