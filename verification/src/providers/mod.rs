pub mod cloudflare;
pub mod email;
pub mod github;
pub mod groq;
pub mod laws;

pub use cloudflare::{CloudflareProvider, CreateDnsRecord, DnsRecord};
pub use email::{EmailMessage, NotificationType};
pub use github::{GitHubProvider, WebhookEvent};
pub use groq::GroqProvider;
