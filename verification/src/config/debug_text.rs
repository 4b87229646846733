//! The debugging text of a configuration, in which every secret is shown as
//! `"[REDACTED]"`.
use vstd::prelude::*;
use vstd::string::*;
use super::{ApiConfig, CloudflareConfig, Config, EmailConfig, GitHubConfig, GroqConfig, S3Config, ServerConfig};
use crate::text::{decimal_chars, push_decimal};

verus! {

/// The text `{:?}` writes for a string: the string in double quotes, with
/// quotes, backslashes and control characters escaped.
pub uninterp spec fn debug_quoted(s: Seq<char>) -> Seq<char>;

/// Formats `s` with `<str as Debug>::fmt`, which writes it in double quotes and
/// escapes quotes, backslashes and non-printable characters. The contract names
/// the text `debug_quoted(s)`.
#[verifier::external_body]
fn quoted(s: &str) -> (r: String)
    ensures
        r@ == debug_quoted(s@),
{
    format!("{:?}", s)
}

/// What a secret is shown as.
pub open spec fn redacted() -> Seq<char> {
    "\"[REDACTED]\""@
}

/// An optional string as `{:?}` shows it.
pub open spec fn debug_option(o: Option<String>) -> Seq<char> {
    match o {
        Some(s) => "Some("@ + debug_quoted(s@) + ")"@,
        None => "None"@,
    }
}

/// An optional secret: whether it is set, and nothing of its value.
pub open spec fn debug_secret_option(o: Option<String>) -> Seq<char> {
    match o {
        Some(_) => "Some("@ + redacted() + ")"@,
        None => "None"@,
    }
}

fn push_quoted(out: &mut String, s: &str)
    ensures
        final(out)@ == old(out)@ + debug_quoted(s@),
{
    let q = quoted(s);
    out.append(q.as_str());
}

fn push_redacted(out: &mut String)
    ensures
        final(out)@ == old(out)@ + redacted(),
{
    out.append("\"[REDACTED]\"");
}

impl ServerConfig {
    pub open spec fn spec_debug_text(&self) -> Seq<char> {
        "ServerConfig { host: "@ + debug_quoted(self.host@) + ", port: "@ + decimal_chars(self.port as nat) + " }"@
    }

    /// The debugging text of the server settings.
    pub fn debug_text(&self) -> (r: String)
        ensures
            r@ == self.spec_debug_text(),
    {
        let mut s = "ServerConfig { host: ".to_owned();
        push_quoted(&mut s, self.host.as_str());
        s.append(", port: ");
        push_decimal(&mut s, self.port as u64);
        s.append(" }");
        s
    }
}

impl ApiConfig {
    pub open spec fn spec_debug_text(&self) -> Seq<char> {
        "ApiConfig { api_key: "@ + redacted() + " }"@
    }

    /// The debugging text of the API settings, which hides the key.
    pub fn debug_text(&self) -> (r: String)
        ensures
            r@ == self.spec_debug_text(),
    {
        let mut s = "ApiConfig { api_key: ".to_owned();
        push_redacted(&mut s);
        s.append(" }");
        s
    }
}

impl S3Config {
    pub open spec fn spec_debug_text(&self) -> Seq<char> {
        "S3Config { bucket: "@ + debug_quoted(self.bucket@) + ", region: "@ + debug_quoted(self.region@)
            + ", access_key: "@ + redacted() + ", secret_key: "@ + redacted() + ", endpoint: "@
            + debug_option(self.endpoint) + " }"@
    }

    /// The debugging text of the store settings, which hides both keys.
    pub fn debug_text(&self) -> (r: String)
        ensures
            r@ == self.spec_debug_text(),
    {
        let mut s = "S3Config { bucket: ".to_owned();
        push_quoted(&mut s, self.bucket.as_str());
        s.append(", region: ");
        push_quoted(&mut s, self.region.as_str());
        s.append(", access_key: ");
        push_redacted(&mut s);
        s.append(", secret_key: ");
        push_redacted(&mut s);
        s.append(", endpoint: ");
        match &self.endpoint {
            Some(e) => {
                s.append("Some(");
                push_quoted(&mut s, e.as_str());
                s.append(")");
            },
            None => {
                s.append("None");
            },
        }
        s.append(" }");
        s
    }
}

impl GitHubConfig {
    pub open spec fn spec_debug_text(&self) -> Seq<char> {
        "GitHubConfig { token: "@ + redacted() + ", webhook_secret: "@ + debug_secret_option(self.webhook_secret)
            + " }"@
    }

    /// The debugging text of the GitHub settings, which hides the token and
    /// the webhook secret.
    pub fn debug_text(&self) -> (r: String)
        ensures
            r@ == self.spec_debug_text(),
    {
        let mut s = "GitHubConfig { token: ".to_owned();
        push_redacted(&mut s);
        s.append(", webhook_secret: ");
        match &self.webhook_secret {
            Some(_) => {
                s.append("Some(");
                push_redacted(&mut s);
                s.append(")");
            },
            None => {
                s.append("None");
            },
        }
        s.append(" }");
        s
    }
}

impl CloudflareConfig {
    pub open spec fn spec_debug_text(&self) -> Seq<char> {
        "CloudflareConfig { api_token: "@ + redacted() + ", zone_id: "@ + debug_quoted(self.zone_id@) + " }"@
    }

    /// The debugging text of the Cloudflare settings, which hides the token.
    pub fn debug_text(&self) -> (r: String)
        ensures
            r@ == self.spec_debug_text(),
    {
        let mut s = "CloudflareConfig { api_token: ".to_owned();
        push_redacted(&mut s);
        s.append(", zone_id: ");
        push_quoted(&mut s, self.zone_id.as_str());
        s.append(" }");
        s
    }
}

impl EmailConfig {
    pub open spec fn spec_debug_text(&self) -> Seq<char> {
        "EmailConfig { smtp_host: "@ + debug_quoted(self.smtp_host@) + ", smtp_port: "@
            + decimal_chars(self.smtp_port as nat) + ", smtp_user: "@ + redacted() + ", smtp_password: "@
            + redacted() + ", from_address: "@ + debug_quoted(self.from_address@) + " }"@
    }

    /// The debugging text of the mail settings, which hides the user and the
    /// password.
    pub fn debug_text(&self) -> (r: String)
        ensures
            r@ == self.spec_debug_text(),
    {
        let mut s = "EmailConfig { smtp_host: ".to_owned();
        push_quoted(&mut s, self.smtp_host.as_str());
        s.append(", smtp_port: ");
        push_decimal(&mut s, self.smtp_port as u64);
        s.append(", smtp_user: ");
        push_redacted(&mut s);
        s.append(", smtp_password: ");
        push_redacted(&mut s);
        s.append(", from_address: ");
        push_quoted(&mut s, self.from_address.as_str());
        s.append(" }");
        s
    }
}

impl GroqConfig {
    pub open spec fn spec_debug_text(&self) -> Seq<char> {
        "GroqConfig { api_key: "@ + redacted() + ", model_id: "@ + debug_quoted(self.model_id@) + " }"@
    }

    /// The debugging text of the Groq settings, which hides the key.
    pub fn debug_text(&self) -> (r: String)
        ensures
            r@ == self.spec_debug_text(),
    {
        let mut s = "GroqConfig { api_key: ".to_owned();
        push_redacted(&mut s);
        s.append(", model_id: ");
        push_quoted(&mut s, self.model_id.as_str());
        s.append(" }");
        s
    }
}

impl Config {
    pub open spec fn spec_debug_text(&self) -> Seq<char> {
        "Config { server: "@ + self.server.spec_debug_text() + ", api: "@ + self.api.spec_debug_text() + ", s3: "@
            + self.s3.spec_debug_text() + ", github: "@ + self.github.spec_debug_text() + ", cloudflare: "@
            + self.cloudflare.spec_debug_text() + ", email: "@ + self.email.spec_debug_text() + ", groq: "@
            + self.groq.spec_debug_text() + " }"@
    }

    /// The debugging text of the whole configuration, with every secret
    /// hidden.
    pub fn debug_text(&self) -> (r: String)
        ensures
            r@ == self.spec_debug_text(),
    {
        let mut s = "Config { server: ".to_owned();
        s.append(self.server.debug_text().as_str());
        s.append(", api: ");
        s.append(self.api.debug_text().as_str());
        s.append(", s3: ");
        s.append(self.s3.debug_text().as_str());
        s.append(", github: ");
        s.append(self.github.debug_text().as_str());
        s.append(", cloudflare: ");
        s.append(self.cloudflare.debug_text().as_str());
        s.append(", email: ");
        s.append(self.email.debug_text().as_str());
        s.append(", groq: ");
        s.append(self.groq.debug_text().as_str());
        s.append(" }");
        s
    }
}

/// The debugging text of a configuration shows no secret: two configurations
/// that differ only in their secrets (the API key, the store's keys, the GitHub
/// token and webhook secret, the Cloudflare token, the mail user and password,
/// the Groq key) have the same text. Of the webhook secret, only whether one
/// is set shows.
pub proof fn law_debug_text_hides_secrets(a: Config, b: Config)
    requires
        a.server.host == b.server.host,
        a.server.port == b.server.port,
        a.s3.bucket == b.s3.bucket,
        a.s3.region == b.s3.region,
        a.s3.endpoint == b.s3.endpoint,
        a.github.webhook_secret is Some <==> b.github.webhook_secret is Some,
        a.cloudflare.zone_id == b.cloudflare.zone_id,
        a.email.smtp_host == b.email.smtp_host,
        a.email.smtp_port == b.email.smtp_port,
        a.email.from_address == b.email.from_address,
        a.groq.model_id == b.groq.model_id,
    ensures
        a.spec_debug_text() == b.spec_debug_text(),
{
}

} // verus!
