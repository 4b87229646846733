//! Properties of rate limiting and of webhook signatures that hold across
//! requests.
use vstd::prelude::*;
use super::middleware::{
    RateLimitEntry, RATE_LIMIT_MAX_REQUESTS, RATE_LIMIT_WINDOW_NANOS, cleaned, decide_request, window_open,
    limiter_run, limiter_step,
};
use crate::providers::github::{expected_signature, strip_sha256_prefix};
use crate::crypto::hmac_sha256_tag;
use super::handlers::{WebhookReply, SubmitOutcome};
use crate::error::{
    AppError, spec_status_code, StorageError, GitHubError, CloudflareError, EmailError, GroqError, DeploymentError,
};
use crate::text::{hex_char, hex_of_bytes};
use vstd::utf8::{encode_utf8, encode_scalar};

verus! {

/// A request is refused only when its address has already been admitted the
/// maximum number of times in a window that is still open.
pub proof fn law_refused_only_when_full(m: Map<u128, RateLimitEntry>, ip: u128, now: u64)
    requires
        !decide_request(m, ip, now).0,
    ensures
        m.contains_key(ip),
        m[ip].count >= RATE_LIMIT_MAX_REQUESTS,
        window_open(m[ip], now),
        decide_request(m, ip, now).1 == m[ip],
{
}

/// An address seen for the first time, or whose window has closed, is admitted
/// and starts a new window with this request.
pub proof fn law_new_window_admits(m: Map<u128, RateLimitEntry>, ip: u128, now: u64)
    requires
        !m.contains_key(ip) || !window_open(m[ip], now),
    ensures
        decide_request(m, ip, now) == (true, RateLimitEntry { count: 1, window_start: now }),
{
}

/// Within an open window each admitted request is counted once, so no window
/// ever admits more than the maximum.
pub proof fn law_admissions_counted(m: Map<u128, RateLimitEntry>, ip: u128, now: u64)
    requires
        m.contains_key(ip),
        window_open(m[ip], now),
        m[ip].count <= RATE_LIMIT_MAX_REQUESTS,
    ensures
        decide_request(m, ip, now).0 ==> decide_request(m, ip, now).1 == (RateLimitEntry {
            count: (m[ip].count + 1) as u32,
            window_start: m[ip].window_start,
        }),
        decide_request(m, ip, now).1.count <= RATE_LIMIT_MAX_REQUESTS,
        decide_request(m, ip, now).1.window_start == m[ip].window_start,
{
}

/// The periodic clean-up only forgets addresses whose window has closed: every
/// address with an open window keeps its count.
pub proof fn law_cleanup_keeps_open_windows(m: Map<u128, RateLimitEntry>, last_cleanup: u64, now: u64, ip: u128)
    requires
        m.contains_key(ip),
        window_open(m[ip], now),
    ensures
        cleaned(m, last_cleanup, now).0.contains_key(ip),
        cleaned(m, last_cleanup, now).0[ip] == m[ip],
{
}

/// How many requests of `reqs` come from `ip`.
pub open spec fn calls_from(reqs: Seq<(u128, u64)>, ip: u128) -> nat
    decreases reqs.len(),
{
    if reqs.len() == 0 {
        0
    } else {
        calls_from(reqs.drop_last(), ip) + if reqs.last().0 == ip { 1nat } else { 0nat }
    }
}

/// The smaller of `n` and the maximum number of requests per window.
pub open spec fn capped(n: nat) -> nat {
    if n < RATE_LIMIT_MAX_REQUESTS { n } else { RATE_LIMIT_MAX_REQUESTS as nat }
}

/// The requests of `reqs` come in time order, the first is from `ip`, and
/// every request from `ip` falls in the window that the first one opens.
pub open spec fn one_window_run(reqs: Seq<(u128, u64)>, ip: u128) -> bool {
    &&& reqs.len() > 0
    &&& reqs[0].0 == ip
    &&& forall|i: int, j: int| 0 <= i <= j < reqs.len() ==> (#[trigger] reqs[i]).1 <= (#[trigger] reqs[j]).1
    &&& forall|i: int| 0 <= i < reqs.len() && #[trigger] reqs[i].0 == ip ==> reqs[i].1 - reqs[0].1 < RATE_LIMIT_WINDOW_NANOS
}

/// Within one window an address is admitted at most the maximum number of
/// times: when an address without an open window makes a run of requests in
/// time order, all in the window its first request opens and interleaved with
/// requests from any other addresses, exactly its first `RATE_LIMIT_MAX_REQUESTS`
/// requests are admitted and the rest refused. Afterwards its entry, if the
/// clean-up has not dropped it, counts those admissions in the window the first
/// request opened, so a request once that window has closed starts a new one
/// (`law_new_window_admits`).
pub proof fn law_at_most_max_per_window(
    m: Map<u128, RateLimitEntry>,
    last_cleanup: u64,
    reqs: Seq<(u128, u64)>,
    ip: u128,
)
    requires
        one_window_run(reqs, ip),
        !m.contains_key(ip) || !window_open(m[ip], reqs[0].1),
    ensures
        limiter_run(m, last_cleanup, reqs).2.len() == reqs.len(),
        forall|i: int| 0 <= i < reqs.len() && #[trigger] reqs[i].0 == ip ==>
            limiter_run(m, last_cleanup, reqs).2[i] == (calls_from(reqs.take(i), ip) < RATE_LIMIT_MAX_REQUESTS),
        limiter_run(m, last_cleanup, reqs).0.contains_key(ip) ==> {
            &&& limiter_run(m, last_cleanup, reqs).0[ip].count == capped(calls_from(reqs, ip))
            &&& limiter_run(m, last_cleanup, reqs).0[ip].window_start == reqs[0].1
        },
        (forall|i: int| 0 <= i < reqs.len() ==> (#[trigger] reqs[i]).1 - reqs[0].1 < RATE_LIMIT_WINDOW_NANOS)
            ==> limiter_run(m, last_cleanup, reqs).0.contains_key(ip),
    decreases reqs.len(),
{
    let t0 = reqs[0].1;
    let n = reqs.len() - 1;
    let prev = reqs.drop_last();
    let x = reqs.last();
    let t = x.1;
    let (m1, l1, a1) = limiter_run(m, last_cleanup, prev);
    let (c, l2) = cleaned(m1, l1, t);
    assert(reqs.take(n) =~= prev);
    if n == 0 {
        assert(x == reqs[0]);
        assert(m1 == m);
        assert(calls_from(prev, ip) == 0);
        assert(reqs.take(0) =~= Seq::<(u128, u64)>::empty());
        assert(!c.contains_key(ip) || !window_open(c[ip], t));
    } else {
        assert(one_window_run(prev, ip)) by {
            assert(prev[0] == reqs[0]);
            assert forall|i: int, j: int| 0 <= i <= j < prev.len() implies (#[trigger] prev[i]).1 <= (#[trigger] prev[j]).1 by {
                assert(prev[i] == reqs[i] && prev[j] == reqs[j]);
            }
            assert forall|i: int| 0 <= i < prev.len() && #[trigger] prev[i].0 == ip
                implies prev[i].1 - prev[0].1 < RATE_LIMIT_WINDOW_NANOS by {
                assert(prev[i] == reqs[i]);
            }
        }
        law_at_most_max_per_window(m, last_cleanup, prev, ip);
        assert forall|i: int| 0 <= i < n implies #[trigger] reqs.take(i) == prev.take(i) by {
            assert(reqs.take(i) =~= prev.take(i));
        }
        assert(t0 <= t) by { assert(reqs[n as int] == x); }
        if x.0 == ip {
            assert(reqs[n as int].0 == ip);
            assert(t - t0 < RATE_LIMIT_WINDOW_NANOS);
            assert forall|i: int| 0 <= i < prev.len() implies (#[trigger] prev[i]).1 - prev[0].1 < RATE_LIMIT_WINDOW_NANOS by {
                assert(prev[i] == reqs[i]);
                assert(reqs[i].1 <= reqs[n as int].1);
            }
            assert(m1.contains_key(ip));
            assert(window_open(m1[ip], t));
            assert(c.contains_key(ip) && c[ip] == m1[ip]);
        }
    }
    assert(limiter_run(m, last_cleanup, reqs) == ({
        let (m2, l3, ok) = limiter_step(m1, l1, x.0, t);
        (m2, l3, a1.push(ok))
    }));
    let answers = limiter_run(m, last_cleanup, reqs).2;
    assert(answers == a1.push(decide_request(c, x.0, t).0));
    assert forall|i: int| 0 <= i < reqs.len() && #[trigger] reqs[i].0 == ip implies
        answers[i] == (calls_from(reqs.take(i), ip) < RATE_LIMIT_MAX_REQUESTS) by {
        if i < n {
            assert(prev[i] == reqs[i]);
            assert(reqs.take(i) == prev.take(i));
            assert(answers[i] == a1[i]);
        } else {
            assert(i == n);
            assert(x.0 == ip);
        }
    }
    if (forall|i: int| 0 <= i < reqs.len() ==> (#[trigger] reqs[i]).1 - reqs[0].1 < RATE_LIMIT_WINDOW_NANOS) && n > 0 {
        assert(t - t0 < RATE_LIMIT_WINDOW_NANOS) by { assert(reqs[n as int] == x); }
        assert forall|i: int| 0 <= i < prev.len() implies (#[trigger] prev[i]).1 - prev[0].1 < RATE_LIMIT_WINDOW_NANOS by {
            assert(prev[i] == reqs[i]);
        }
        assert(m1.contains_key(ip));
        assert(window_open(m1[ip], t));
        assert(c.contains_key(ip));
    }
}

/// A webhook delivery is answered with success only when it is accepted:
/// 200 for an event that is ignored or a push that was queued, and a status
/// outside 2xx for every refusal. A signature that is missing or does not
/// match the payload is answered 401, a delivery that cannot be read 400, a
/// missing secret 500 and a full queue 503.
pub proof fn law_webhook_refusals_fail(r: WebhookReply)
    ensures
        (200 <= r.spec_status() < 300) <==> (r is Ignored || r is Queued),
        (r is Ignored || r is Queued) ==> r.spec_status() == 200,
        r is MissingSignature ==> r.spec_status() == 401,
        r is InvalidSignature ==> r.spec_status() == 401,
        (r is InvalidSignatureHeader || r is SignatureError || r is InvalidPayload || r is InvalidRepositoryName
            || r is InvalidDeployment) ==> r.spec_status() == 400,
        r is SecretNotConfigured ==> r.spec_status() == 500,
        r is QueueFull ==> r.spec_status() == 503,
{
}

/// A deployment request is answered 201 only when it was queued; an invalid
/// one is answered 400 and a full queue 503.
pub proof fn law_submit_statuses(o: SubmitOutcome)
    ensures
        (200 <= o.spec_status() < 300) <==> o is Created,
        o is Created ==> o.spec_status() == 201,
        o is Rejected ==> o.spec_status() == 400,
        o is QueueFull ==> o.spec_status() == 503,
{
}

/// Every error answers a request with a 4xx or 5xx status, chosen by what went
/// wrong: a missing resource (deployment, object, repository, branch, DNS
/// record) is 404 and only those are; an invalid input is 400; a failed or
/// missing authentication 401; a conflict with a deployment's state 409; a
/// size beyond a limit 413; GitHub's rate limit 429; a full queue 503; a
/// failing outside service 502; and 500 is kept for the service's own
/// failures (configuration, internal errors, and deployments that failed).
pub proof fn law_error_statuses(e: AppError)
    ensures
        400 <= spec_status_code(e) <= 599,
        spec_status_code(e) == 404 <==> (e matches AppError::Deployment(DeploymentError::NotFound { .. })
            || e matches AppError::Storage(StorageError::NotFound { .. })
            || e matches AppError::GitHub(GitHubError::RepoNotFound { .. })
            || e matches AppError::GitHub(GitHubError::BranchNotFound { .. })
            || e matches AppError::Cloudflare(CloudflareError::RecordNotFound { .. })),
        (e is Validation || e matches AppError::Storage(StorageError::InvalidKey { .. })
            || e matches AppError::GitHub(GitHubError::InvalidIdentifier { .. })
            || e matches AppError::Cloudflare(CloudflareError::InvalidRecordType { .. })
            || e matches AppError::Email(EmailError::InvalidAddress { .. })
            || e matches AppError::Groq(GroqError::InvalidRole { .. })) ==> spec_status_code(e) == 400,
        (e is Unauthorized || e matches AppError::GitHub(GitHubError::AuthFailed)) ==> spec_status_code(e) == 401,
        (e matches AppError::Deployment(DeploymentError::InvalidTransition { .. })
            || e matches AppError::Deployment(DeploymentError::AlreadyTerminal { .. })) ==> spec_status_code(e) == 409,
        (e matches AppError::Storage(StorageError::SizeLimitExceeded { .. })
            || e matches AppError::Email(EmailError::MessageTooLarge { .. })
            || e matches AppError::Groq(GroqError::PromptTooLarge { .. })) ==> spec_status_code(e) == 413,
        e matches AppError::GitHub(GitHubError::RateLimited { .. }) ==> spec_status_code(e) == 429,
        e matches AppError::Deployment(DeploymentError::QueueFull { .. }) ==> spec_status_code(e) == 503,
        spec_status_code(e) == 500 <==> (e is Config || e is Internal
            || e matches AppError::Deployment(DeploymentError::Timeout { .. })
            || e matches AppError::Deployment(DeploymentError::CloneFailed { .. })
            || e matches AppError::Deployment(DeploymentError::BuildFailed { .. })
            || e matches AppError::Deployment(DeploymentError::UploadFailed { .. })
            || e matches AppError::Deployment(DeploymentError::ConfigFailed { .. })),
        (e matches AppError::Storage(StorageError::BucketNotAccessible { .. })
            || e matches AppError::Storage(StorageError::UploadFailed { .. })
            || e matches AppError::Storage(StorageError::DownloadFailed { .. })
            || e matches AppError::GitHub(GitHubError::RequestFailed { .. })
            || e matches AppError::GitHub(GitHubError::InvalidResponse { .. })
            || e matches AppError::Cloudflare(CloudflareError::ApiError { .. })
            || e matches AppError::Cloudflare(CloudflareError::RequestFailed { .. })
            || e is Email && !(e matches AppError::Email(EmailError::InvalidAddress { .. }))
                && !(e matches AppError::Email(EmailError::MessageTooLarge { .. }))
            || e matches AppError::Groq(GroqError::RequestFailed { .. })
            || e matches AppError::Groq(GroqError::ApiError { .. })
            || e matches AppError::Groq(GroqError::EmptyResponse)) ==> spec_status_code(e) == 502,
{
}

/// The bytes of `sha256=`.
pub open spec fn sha256_prefix() -> Seq<u8> {
    seq![115u8, 104u8, 97u8, 50u8, 53u8, 54u8, 61u8]
}

/// A delivery signed the way GitHub signs it, `sha256=` followed by the
/// hexadecimal HMAC-SHA256 of the payload under the shared secret, is exactly
/// the signature `verify_webhook_signature` expects.
pub proof fn law_signed_delivery_matches(secret: Seq<u8>, payload: Seq<u8>)
    ensures
        strip_sha256_prefix(sha256_prefix() + expected_signature(secret, payload))
            == expected_signature(secret, payload),
{
    let sig = sha256_prefix() + expected_signature(secret, payload);
    assert(sig.take(7) =~= sha256_prefix());
    assert(sig.skip(7) =~= expected_signature(secret, payload));
}

proof fn lemma_hex_first(b: Seq<u8>)
    requires
        b.len() > 0,
    ensures
        hex_of_bytes(b).len() > 0,
        hex_of_bytes(b)[0] == hex_char((b[0] / 16) as nat),
    decreases b.len(),
{
    if b.len() > 1 {
        lemma_hex_first(b.drop_last());
    } else {
        assert(hex_of_bytes(b.drop_last()).len() == 0);
    }
}

/// A hexadecimal digit is an ASCII character other than `s`.
proof fn lemma_hex_char_ascii(d: nat)
    requires
        d < 16,
    ensures
        (hex_char(d) as u32) <= 0x7f,
        (hex_char(d) as u32) != 115,
{
}

/// A delivery whose signature is the bare hexadecimal HMAC-SHA256, without
/// the `sha256=` prefix, is also exactly the signature `verify_webhook_signature` expects.
pub proof fn law_bare_signature_matches(secret: Seq<u8>, payload: Seq<u8>)
    ensures
        strip_sha256_prefix(expected_signature(secret, payload)) == expected_signature(secret, payload),
{
    let tag = hmac_sha256_tag(secret, payload);
    let h = hex_of_bytes(tag);
    let e = expected_signature(secret, payload);
    assert(e == encode_utf8(h));
    if e.len() >= 7 {
        if tag.len() == 0 {
            assert(h.len() == 0);
            assert(encode_utf8(h).len() == 0);
        }
        lemma_hex_first(tag);
        let c = h[0];
        lemma_hex_char_ascii((tag[0] / 16) as nat);
        let v = c as u32;
        assert(v <= 0x7f);
        assert((v & 0x7f) == v) by (bit_vector)
            requires
                v <= 0x7f,
        ;
        assert(encode_scalar(v) == seq![v as u8]);
        assert(e == encode_scalar(h[0] as u32) + encode_utf8(h.drop_first()));
        assert(e[0] == v as u8);
        assert(e.take(7)[0] != sha256_prefix()[0]);
    }
}

} // verus!
