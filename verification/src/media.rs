use vstd::prelude::*;
use crate::failure::{FailureDisposition, HandlerFailure};
use crate::job::{JobSpec, opt_string};
use crate::json::{JsonNumber, JsonValue, entries_get, json_get, json_get_i64, json_i64, opt_text};
use crate::uri::{UrlParts, parse_url, parts_view, url_parse};
use crate::emoji::{essence_of, media_essence};
use crate::keys::sha256;
use crate::registry::Lane;
use crate::cleanup::texts;
use crate::text::{int_decimal, push_decimal_i64, push_str, str_eq};

verus! {

/// Media files written during one installation, removed again unless preserved.
pub struct WrittenMediaFiles {
    paths: Vec<String>,
}

impl WrittenMediaFiles {
    /// The paths still owned by the guard.
    pub closed spec fn owned(self) -> Seq<String> {
        self.paths@
    }

    /// A guard that owns the written paths.
    pub fn new(paths: Vec<String>) -> (files: WrittenMediaFiles)
        ensures
            files.owned() == paths@,
    {
        WrittenMediaFiles { paths }
    }

    /// Gives up the owned paths for removal; the guard owns nothing afterwards.
    pub fn cleanup(&mut self) -> (removed: Vec<String>)
        ensures
            removed@ == old(self).owned(),
            final(self).owned().len() == 0,
    {
        let mut taken: Vec<String> = Vec::new();
        std::mem::swap(&mut taken, &mut self.paths);
        taken
    }

    /// Keeps the written files: the guard owns nothing afterwards.
    pub fn disarm(&mut self)
        ensures
            final(self).owned().len() == 0,
    {
        self.paths = Vec::new();
    }

    /// Keeps the written files and hands their paths to the caller.
    pub fn preserve(&mut self) -> (kept: Vec<String>)
        ensures
            kept@ == old(self).owned(),
            final(self).owned().len() == 0,
    {
        let mut kept: Vec<String> = Vec::new();
        std::mem::swap(&mut kept, &mut self.paths);
        kept
    }
}

/// The file a remote media installation wrote, as recorded when it committed.
#[derive(Debug)]
pub struct RemoteMediaInstallMarker {
    pub file_name: String,
    pub content_type: String,
    pub file_size: i32,
}

/// The media row as read back after an installation.
#[derive(Debug)]
pub struct InstalledMediaRow {
    pub remote_url: String,
    pub processing: Option<i32>,
    pub file_name: Option<String>,
    pub content_type: Option<String>,
    pub file_size: Option<i32>,
    pub storage_schema_version: Option<i32>,
}

fn opt_string_is(value: &Option<String>, expected: &str) -> (r: bool)
    ensures
        r == (opt_string(*value) == Some(expected@)),
{
    match value {
        Some(v) => str_eq(v.as_str(), expected),
        None => false,
    }
}

/// Whether the installation committed: the row still belongs to the remote URL, is
/// processed (state 2) with the schema 1 layout, and records exactly the written file.
pub fn remote_media_install_committed(
    row: Option<&InstalledMediaRow>,
    remote_url: &str,
    marker: &RemoteMediaInstallMarker,
) -> (committed: bool)
    ensures
        committed == (row matches Some(r) && r.remote_url@ == remote_url@ && r.processing == Some(2i32)
            && opt_string(r.file_name) == Some(marker.file_name@)
            && opt_string(r.content_type) == Some(marker.content_type@)
            && r.file_size == Some(marker.file_size) && r.storage_schema_version == Some(1i32)),
{
    match row {
        Some(r) => str_eq(r.remote_url.as_str(), remote_url) && r.processing == Some(2i32)
            && opt_string_is(&r.file_name, marker.file_name.as_str())
            && opt_string_is(&r.content_type, marker.content_type.as_str())
            && r.file_size == Some(marker.file_size) && r.storage_schema_version == Some(1i32),
        None => false,
    }
}

/// A staged local upload: the media attachment, its account and the upload generation.
#[derive(Clone, Copy, Debug, PartialEq, Eq, Structural)]
pub struct UploadIdentity {
    pub media_id: i64,
    pub account_id: i64,
    pub generation: i64,
}

/// The job kind that processes one staged upload.
pub open spec fn process_upload_kind() -> Seq<char> {
    "rustodon.mastodon.process_local_upload"@
}

/// The job kind that recovers abandoned uploads.
pub open spec fn recover_uploads_kind() -> Seq<char> {
    "rustodon.mastodon.recover_local_uploads"@
}

/// The singleton key of an upload's processing job.
pub open spec fn upload_key(id: UploadIdentity) -> Seq<char> {
    "mastodon:media:"@ + int_decimal(id.media_id as int) + ":upload:"@ + int_decimal(id.generation as int)
}

/// The identity an upload job's arguments carry: three positive integers.
pub open spec fn upload_identity_spec(arguments: JsonValue) -> Option<UploadIdentity> {
    match (json_get_i64(arguments, "media_id"@), json_get_i64(arguments, "account_id"@),
        json_get_i64(arguments, "generation"@)) {
        (Some(m), Some(a), Some(g)) => if m > 0 && a > 0 && g > 0 {
            Some(UploadIdentity { media_id: m, account_id: a, generation: g })
        } else {
            None
        },
        _ => None,
    }
}

/// The processing job of a staged upload, on the maintenance lane, keyed per media and
/// generation, with at most 4 attempts.
pub fn processing_job(id: UploadIdentity) -> (job: JobSpec)
    ensures
        job.lane == Lane::Maintenance,
        job.kind@ == process_upload_kind(),
        upload_identity_spec(job.arguments) == (if id.media_id > 0 && id.account_id > 0 && id.generation > 0 {
            Some(id)
        } else {
            None
        }),
        opt_string(job.logical_key) == Some(upload_key(id)),
        job.max_attempts == Some(4i32),
{
    let mut members: Vec<(String, JsonValue)> = Vec::new();
    members.push(("media_id".to_owned(), JsonValue::Number(JsonNumber::Int(id.media_id))));
    members.push(("account_id".to_owned(), JsonValue::Number(JsonNumber::Int(id.account_id))));
    members.push(("generation".to_owned(), JsonValue::Number(JsonNumber::Int(id.generation))));
    proof {
        reveal_strlit("media_id");
        reveal_strlit("account_id");
        reveal_strlit("generation");
        let m = members@;
        assert(m[0].0@ =~= "media_id"@ && m[1].0@ =~= "account_id"@ && m[2].0@ =~= "generation"@);
        assert("media_id"@ != "account_id"@ && "media_id"@ != "generation"@ && "account_id"@ != "generation"@) by {
            assert("media_id"@[0] != "account_id"@[0]);
            assert("media_id"@[0] != "generation"@[0]);
            assert("account_id"@[0] != "generation"@[0]);
        }
        assert(m.drop_first()[0] == m[1]);
        assert(m.drop_first().drop_first()[0] == m[2]);
        reveal_with_fuel(entries_get, 4);
    }
    let arguments = JsonValue::Object(members);
    let mut key = String::new();
    push_str(&mut key, "mastodon:media:");
    push_decimal_i64(&mut key, id.media_id);
    push_str(&mut key, ":upload:");
    push_decimal_i64(&mut key, id.generation);
    assert(key@ =~= upload_key(id));
    JobSpec::new(Lane::Maintenance, "rustodon.mastodon.process_local_upload", arguments).logical_key(key).max_attempts(4)
}

fn positive_member(arguments: &JsonValue, key: &str) -> (v: Option<i64>)
    ensures
        v == (match json_get_i64(*arguments, key@) {
            Some(x) => if x > 0 { Some(x) } else { None },
            None => None,
        }),
{
    match arguments.get(key) {
        Some(value) => match value.as_i64() {
            Some(x) => if x > 0 { Some(x) } else { None },
            None => None,
        },
        None => None,
    }
}

/// Reads the identity of an upload job; any missing or non-positive part is permanent.
pub fn upload_identity(arguments: &JsonValue) -> (r: Result<UploadIdentity, HandlerFailure>)
    ensures
        match upload_identity_spec(*arguments) {
            Some(id) => r matches Ok(x) && x == id,
            None => r matches Err(f) && f.disposition == FailureDisposition::Permanent
                && f.message@ == "invalid local upload identity"@,
        },
{
    let media_id = match positive_member(arguments, "media_id") {
        Some(x) => x,
        None => {
            return Err(HandlerFailure::permanent("invalid local upload identity"));
        },
    };
    let account_id = match positive_member(arguments, "account_id") {
        Some(x) => x,
        None => {
            return Err(HandlerFailure::permanent("invalid local upload identity"));
        },
    };
    let generation = match positive_member(arguments, "generation") {
        Some(x) => x,
        None => {
            return Err(HandlerFailure::permanent("invalid local upload identity"));
        },
    };
    Ok(UploadIdentity { media_id, account_id, generation })
}

/// The job that starts a recovery scan, unique while one is live, tried once.
pub fn recovery_root_job() -> (job: JobSpec)
    ensures
        job.lane == Lane::Maintenance,
        job.kind@ == recover_uploads_kind(),
        job.arguments matches JsonValue::Object(members) && members@.len() == 0,
        opt_string(job.logical_key) == Some("local-upload-recovery:root"@),
        job.max_attempts == Some(1i32),
{
    JobSpec::new(Lane::Maintenance, "rustodon.mastodon.recover_local_uploads", JsonValue::Object(Vec::new()))
        .logical_key("local-upload-recovery:root".to_owned())
        .max_attempts(1)
}

/// Where a recovery scan resumes: its integer `after`, never below 0.
pub fn recovery_cursor(arguments: &JsonValue) -> (after: i64)
    ensures
        after == (match json_get_i64(*arguments, "after"@) {
            Some(a) => if a > 0 { a } else { 0 },
            None => 0,
        }),
{
    match arguments.get("after") {
        Some(v) => match v.as_i64() {
            Some(a) => if a > 0 { a } else { 0 },
            None => 0,
        },
        None => 0,
    }
}

/// Rows one recovery scan reads.
pub const UPLOAD_RECOVERY_BATCH: usize = 100;

/// The next recovery scan after a full batch, from the batch's last media ID.
pub fn recovery_continuation(rows: usize, last_media_id: i64) -> (job: Option<JobSpec>)
    ensures
        rows != UPLOAD_RECOVERY_BATCH ==> job is None,
        rows == UPLOAD_RECOVERY_BATCH ==> (job matches Some(j) && j.lane == Lane::Maintenance
            && j.kind@ == recover_uploads_kind()
            && json_get_i64(j.arguments, "after"@) == Some(last_media_id)
            && opt_string(j.logical_key) == Some("local-upload-recovery:after:"@ + int_decimal(last_media_id as int))
            && j.max_attempts == Some(1i32)),
{
    if rows != UPLOAD_RECOVERY_BATCH {
        return None;
    }
    let mut members: Vec<(String, JsonValue)> = Vec::new();
    members.push(("after".to_owned(), JsonValue::Number(JsonNumber::Int(last_media_id))));
    proof {
        assert(members@[0].0@ == "after"@);
        reveal_with_fuel(entries_get, 2);
    }
    let mut key = String::new();
    push_str(&mut key, "local-upload-recovery:after:");
    push_decimal_i64(&mut key, last_media_id);
    assert(key@ =~= "local-upload-recovery:after:"@ + int_decimal(last_media_id as int));
    Some(JobSpec::new(Lane::Maintenance, "rustodon.mastodon.recover_local_uploads", JsonValue::Object(members))
        .logical_key(key)
        .max_attempts(1))
}

/// What cleanup may do with an upload, given its public media row.
#[derive(Clone, Copy, Debug, PartialEq, Eq, Structural)]
pub enum UploadCleanup {
    /// The upload is published: retire the raw ownership record and its raw file only.
    RetireReady,
    /// The media is gone or failed without a file: forget the orphan and remove its files.
    ForgetOrphan,
    /// The upload is still in flight: leave it.
    Keep,
}

/// Published uploads (processing 2 with a file) are retired; absent media or failed media
/// (processing 3 without a file) are orphans; anything else is kept.
pub fn upload_cleanup_action(public: Option<(Option<i32>, bool)>) -> (action: UploadCleanup)
    ensures
        action == (match public {
            Some((Some(2i32), true)) => UploadCleanup::RetireReady,
            None => UploadCleanup::ForgetOrphan,
            Some((Some(3i32), false)) => UploadCleanup::ForgetOrphan,
            _ => UploadCleanup::Keep,
        }),
{
    match public {
        Some((Some(2i32), true)) => UploadCleanup::RetireReady,
        None => UploadCleanup::ForgetOrphan,
        Some((Some(3i32), false)) => UploadCleanup::ForgetOrphan,
        _ => UploadCleanup::Keep,
    }
}

/// A staged raw upload is at most 1 GiB and not empty.
pub fn raw_upload_size_valid(raw_size: i64) -> (valid: bool)
    ensures
        valid == (0 < raw_size && raw_size <= 1_073_741_824),
{
    0 < raw_size && raw_size <= 1_073_741_824
}

/// Whether read raw bytes are exactly the staged ones: their count and SHA-256 match.
pub fn raw_upload_matches(bytes: &[u8], raw_size: i64, raw_sha256: &[u8]) -> (matches: bool)
    ensures
        matches == (bytes@.len() == raw_size && sha256(bytes@) == raw_sha256@),
{
    if bytes.len() as i128 != raw_size as i128 {
        return false;
    }
    let digest = crate::keys::sha256_digest(bytes);
    if digest.len() != raw_sha256.len() {
        return false;
    }
    let mut i: usize = 0;
    while i < digest.len()
        invariant
            digest@ == sha256(bytes@),
            digest@.len() == raw_sha256@.len(),
            i <= digest@.len(),
            forall|k: int| 0 <= k < i ==> digest@[k] == raw_sha256@[k],
        decreases digest@.len() - i,
    {
        if digest[i] != raw_sha256[i] {
            return false;
        }
        i = i + 1;
    }
    assert(digest@ =~= raw_sha256@);
    true
}

/// The paths a profile image cleanup removes: those requested that the current image does
/// not use, in request order.
pub open spec fn profile_removals_spec(paths: Seq<Seq<char>>, current: Seq<Seq<char>>) -> Seq<Seq<char>> {
    paths.filter(|p: Seq<char>| !current.contains(p))
}

/// The paths a profile image cleanup removes: those requested that the current image does
/// not use, in request order.
pub fn profile_cleanup_removals(paths: &Vec<String>, current_paths: &Vec<String>) -> (removed: Vec<String>)
    ensures
        texts(removed@) == profile_removals_spec(texts(paths@), texts(current_paths@)),
{
    let ghost current = texts(current_paths@);
    let ghost pred = |p: Seq<char>| !current.contains(p);
    let mut removed: Vec<String> = Vec::new();
    let mut k: usize = 0;
    proof {
        reveal(Seq::filter);
        assert(texts(paths@).take(0).filter(pred) =~= Seq::<Seq<char>>::empty());
        assert(texts(removed@) =~= Seq::<Seq<char>>::empty());
    }
    while k < paths.len()
        invariant
            k <= paths@.len(),
            current == texts(current_paths@),
            pred == (|p: Seq<char>| !current.contains(p)),
            texts(removed@) == texts(paths@).take(k as int).filter(pred),
        decreases paths@.len() - k,
    {
        let mut c: usize = 0;
        let mut used = false;
        while c < current_paths.len() && !used
            invariant
                c <= current_paths@.len(),
                k < paths@.len(),
                current == texts(current_paths@),
                used ==> current.contains(paths@[k as int]@),
                !used ==> forall|x: int| 0 <= x < c ==> current[x] != paths@[k as int]@,
            decreases current_paths@.len() - c + (if used { 0int } else { 1int }),
        {
            if str_eq(current_paths[c].as_str(), paths[k].as_str()) {
                used = true;
                assert(current[c as int] == paths@[k as int]@);
            } else {
                c = c + 1;
            }
        }
        assert(used == current.contains(paths@[k as int]@));
        let ghost before = removed@;
        if !used {
            removed.push(paths[k].clone());
        }
        proof {
            let next = texts(paths@).take(k + 1);
            assert(next.drop_last() =~= texts(paths@).take(k as int));
            assert(next.last() == paths@[k as int]@);
            reveal(Seq::filter);
            assert(texts(removed@) =~= next.filter(pred));
        }
        k = k + 1;
    }
    assert(texts(paths@).take(paths@.len() as int) =~= texts(paths@));
    removed
}

/// The media ID of a remote media fetch job.
pub fn remote_media_job_id(arguments: &JsonValue) -> (r: Result<i64, HandlerFailure>)
    ensures
        match r {
            Ok(id) => json_get_i64(*arguments, "media_id"@) == Some(id),
            Err(f) => json_get_i64(*arguments, "media_id"@) is None
                && f.disposition == FailureDisposition::Permanent
                && f.message@ == "media job is missing its media ID"@,
        },
{
    match arguments.member_i64("media_id") {
        Some(id) => Ok(id),
        None => Err(HandlerFailure::permanent("media job is missing its media ID")),
    }
}

/// What a remote media fetch does for a stored attachment: nothing when it has no remote
/// URL or already has a file; otherwise the URL must parse and the account must have a
/// domain, and the parsed URL is fetched.
pub fn remote_media_fetch_plan(remote_url: &str, has_file: bool, account_domain: Option<&str>)
    -> (r: Result<Option<UrlParts>, HandlerFailure>)
    ensures
        remote_url@.len() == 0 || has_file ==> r matches Ok(None),
        !(remote_url@.len() == 0 || has_file) && url_parse(remote_url@) is None ==> (r matches Err(f)
            && f.disposition == FailureDisposition::Permanent && f.message@ == "remote media URL is invalid"@),
        !(remote_url@.len() == 0 || has_file) && url_parse(remote_url@) is Some && account_domain is None
            ==> (r matches Err(f) && f.disposition == FailureDisposition::Permanent
            && f.message@ == "remote media account has no domain"@),
        !(remote_url@.len() == 0 || has_file) && url_parse(remote_url@) is Some && account_domain is Some
            ==> (r matches Ok(Some(p)) && Some(parts_view(p)) == url_parse(remote_url@)),
{
    if remote_url.is_empty() || has_file {
        return Ok(None);
    }
    let parts = match parse_url(remote_url) {
        Some(p) => p,
        None => {
            return Err(HandlerFailure::permanent("remote media URL is invalid"));
        },
    };
    if account_domain.is_none() {
        return Err(HandlerFailure::permanent("remote media account has no domain"));
    }
    Ok(Some(parts))
}

/// How a failed remote media fetch ends: a retryable failure on the last attempt becomes
/// permanent ("remote media retries were exhausted"); any other failure stands.
pub fn remote_media_attempt_failure(f: &HandlerFailure, attempt: i32, max_attempts: i32) -> (g: HandlerFailure)
    ensures
        f.disposition == FailureDisposition::Retry && attempt >= max_attempts ==> (g.disposition
            == FailureDisposition::Permanent && g.message@ == "remote media retries were exhausted"@),
        !(f.disposition == FailureDisposition::Retry && attempt >= max_attempts) ==> (g.disposition
            == f.disposition && g.message@ == f.message@),
{
    if f.disposition == FailureDisposition::Retry && attempt >= max_attempts {
        HandlerFailure::permanent("remote media retries were exhausted")
    } else {
        HandlerFailure { disposition: f.disposition, message: f.message.clone() }
    }
}

/// The media type of a fetched attachment: the response's type before any parameters,
/// trimmed and in lower case, which must not be empty.
pub fn remote_media_content_type(response_type: Option<&str>) -> (r: Result<String, HandlerFailure>)
    ensures
        match r {
            Ok(t) => opt_text(response_type) matches Some(raw) && t@ == media_essence(raw) && t@.len() > 0,
            Err(f) => f.disposition == FailureDisposition::Permanent
                && f.message@ == "remote media content type is missing"@
                && !(opt_text(response_type) matches Some(raw) && media_essence(raw).len() > 0),
        },
{
    match response_type {
        Some(raw) => {
            let t = essence_of(raw);
            if t.as_str().is_empty() {
                Err(HandlerFailure::permanent("remote media content type is missing"))
            } else {
                Ok(t)
            }
        },
        None => Err(HandlerFailure::permanent("remote media content type is missing")),
    }
}

/// A profile image cleanup removes exactly the requested paths that the current image does
/// not use: nothing in use is removed, every unused requested path is.
pub proof fn lemma_profile_removals(paths: Seq<Seq<char>>, current: Seq<Seq<char>>)
    ensures
        forall|p: Seq<char>| #[trigger] profile_removals_spec(paths, current).contains(p)
            <==> (paths.contains(p) && !current.contains(p)),
{
    let r = profile_removals_spec(paths, current);
    assert forall|p: Seq<char>| #[trigger] r.contains(p) <==> (paths.contains(p) && !current.contains(p)) by {
        let pred = |q: Seq<char>| !current.contains(q);
        if r.contains(p) {
            paths.lemma_filter_contains_rev(pred, p);
            let k = choose|k: int| 0 <= k < r.len() && r[k] == p;
            paths.lemma_filter_pred(pred, k);
        }
        if paths.contains(p) && !current.contains(p) {
            let i = choose|i: int| 0 <= i < paths.len() && paths[i] == p;
            paths.lemma_filter_contains(|q: Seq<char>| !current.contains(q), i);
        }
    }
}

} // verus!
