# rustdeploy

A deployment service: it takes requests to deploy a GitHub repository, queues
them, runs each deployment through its stages (fetch the branch, download the
archive, store it in an S3 bucket, point a Cloudflare DNS record at it), and
offers a few helpers around GitHub, Cloudflare, Groq chat completions and
e-mail notifications.

The decisions of the service are a library verified with Verus; the program
around it performs the network and disk work.

## Layout

- `src/` — the verified library.
  - `validation.rs` — the accepted formats of names, branches, domains,
    addresses and keys, and the validators built on them.
  - `config/` — reading the configuration from the environment's variables,
    checking it, and its debugging text with the secrets hidden.
  - `deployment/pipeline.rs` — the life cycle of a deployment, the bounded
    queue, and the pipeline as a sequence of steps, each of which takes the
    outcome of the last piece of outside work and names the next one.
  - `deployment/laws.rs`, `api/laws.rs`, `providers/laws.rs` — properties that
    hold across operations (the life cycle only moves forward, the queue is
    first-in first-out, the rate limiter never admits more than its maximum per
    window, retries stop, a correctly signed webhook delivery is accepted).
  - `providers/` — what is sent to GitHub, Cloudflare, Groq and the mail
    server, and how their answers are read.
  - `api/` — the decisions behind the HTTP handlers and middleware: webhook
    checks, deployment submission, API keys, rate limiting, CORS.
  - `storage/s3.rs` — accepted object keys, sizes and listings.
  - `crypto.rs`, `platform.rs` — the calls into `sha2`, `ring`, `subtle`,
    `chrono` and `uuid`, each with the contract the library relies on.
- `app/` — the program: the `axum` server, the HTTP clients (`reqwest`, the AWS
  SDK, `lettre`), the pipeline runner with its time limits, and serializable
  copies of the library's types.
- `tests/` — tests of the library on concrete values.
