# rustodon_worker

The decision logic of Rustodon's durable job worker, written in Verus and verified. The
public functions state their results in their contracts, most of them exactly, as an
equality with a spec function; where a result rests on an outside crate (chrono, url,
sha2), the contract speaks of that crate's answer by name.

## Layout

- `src/` – the verified library.
  - `registry.rs`, `routes.rs`: which job kinds run on which lane and with which shared
    resource, for a configuration (writer, mail, federation, media root); how a claimed job
    is dispatched; retry delays and failure transitions; how a worker starts.
  - `inbox.rs`: the handling of an inbound ActivityPub activity as a step function from the
    handler's state and the outcome of its last step to the next step; the actor bindings it
    checks.
  - `delivery.rs`, `status_update.rs`, `inboxes.rs`, `quote.rs`: outgoing delivery jobs,
    status update fencing and repair, the inboxes a status goes to, quote identities.
  - `resolution.rs`, `resolution_jobs.rs`, `documents.rs`: resolution of remote notes and
    announces and the documents they yield.
  - `poll_expiration.rs`: poll expiration reconciliation segments, their keys and scans.
  - `media.rs`, `cleanup.rs`, `emoji.rs`: local uploads, remote media fetch plans, media
    file cleanup, purge manifests, and the checks on fetched remote emoji.
  - `fetch_failure.rs`, `failure.rs`: how failed remote fetches and writes are classified.
  - `json.rs`, `text.rs`, `time.rs`, `uri.rs`, `keys.rs`, `order.rs`, `job.rs`: JSON
    values, text, time stamps (through chrono), URLs (through url), SHA-256 keys (through
    sha2) and job specifications.
- `tests/`: tests of the library on concrete values.
- `app/`: conversions between the library's values and `serde_json`/`http` values, a
  handler table that pairs the verified registry with handler functions, and the loops
  that drive the verified inbox step function and reconciliation scan with the caller's I/O.

The calls into chrono, url and sha2 stand behind small trusted functions whose contracts
say only what those crates' sources show; everything else in `src/` is proved.
