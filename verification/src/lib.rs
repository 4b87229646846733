//! A deployment service's decisions, verified: which requests and
//! configurations are accepted, how a deployment moves through its life cycle
//! and its queue, what is sent to GitHub, Cloudflare, Groq, the mail server and
//! the object store, and how their answers are read.
use vstd::prelude::*;

pub mod api;
pub mod config;
pub mod crypto;
pub mod deployment;
pub mod error;
pub mod platform;
pub mod providers;
pub mod storage;
pub mod text;
pub mod validation;
pub mod validation_laws;

verus! {

} // verus!
