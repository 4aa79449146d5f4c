use vstd::prelude::*;
use vstd::string::StringSliceAdditionalSpecFns;
use crate::text::{lemma_hex_lower_len, lemma_int_decimal_len_i64, hex_lower, int_decimal, push_decimal_i64, push_hex_lower, push_str, nat_decimal,
    lemma_int_decimal_chars, lemma_int_decimal_injective, lemma_split_at_separator, is_decimal_char, push_char};

verus! {

/// The SHA-256 digest that the `sha2` crate computes for the bytes.
pub uninterp spec fn sha256(data: Seq<u8>) -> Seq<u8>;

/// `sha2::Sha256::digest`. The contract claims that the digest is the crate's, and that it
/// has the algorithm's 32 bytes.
#[verifier::external_body]
pub(crate) fn sha256_digest(data: &[u8]) -> (digest: Vec<u8>)
    ensures
        digest@ == sha256(data@),
        digest@.len() == 32,
{
    <sha2::Sha256 as sha2::Digest>::digest(data).to_vec()
}

/// The lower-case hexadecimal SHA-256 of a text's UTF-8 bytes.
pub open spec fn hex_digest(text: Seq<char>) -> Seq<char> {
    hex_lower(sha256(vstd::utf8::encode_utf8(text)))
}

/// Appends the hexadecimal SHA-256 of a text's UTF-8 bytes.
fn push_hex_digest(s: &mut String, text: &str)
    ensures
        final(s)@ == old(s)@ + hex_digest(text@),
        sha256(vstd::utf8::encode_utf8(text@)).len() == 32,
{
    let digest = sha256_digest(text.as_bytes());
    push_hex_lower(s, digest.as_slice());
}

/// A text and its decimal part, as the update keys hash them.
pub open spec fn update_key_material(activity_id: Seq<char>, version_micros: i64, inbox_url: Seq<char>) -> Seq<char> {
    activity_id + seq!['\0'] + int_decimal(version_micros as int) + seq!['\0'] + inbox_url
}

fn update_key_text(activity_id: &str, version_micros: i64, inbox_url: &str) -> (text: String)
    ensures
        text@ == update_key_material(activity_id@, version_micros, inbox_url@),
{
    let mut text = String::new();
    push_str(&mut text, activity_id);
    push_char(&mut text, '\0');
    push_decimal_i64(&mut text, version_micros);
    push_char(&mut text, '\0');
    push_str(&mut text, inbox_url);
    assert(text@ =~= update_key_material(activity_id@, version_micros, inbox_url@));
    text
}

/// The key of a status Update delivery: per status, activity, version and inbox.
pub open spec fn update_delivery_key(status_id: i64, activity_id: Seq<char>, edited_at_micros: i64, inbox_url: Seq<char>) -> Seq<char> {
    "activitypub:status:"@ + int_decimal(status_id as int) + ":update:"@
        + hex_digest(update_key_material(activity_id, edited_at_micros, inbox_url))
}

/// The singleton key of a status Update delivery to one inbox.
pub fn update_delivery_logical_key(status_id: i64, activity_id: &str, edited_at_micros: i64, inbox_url: &str)
    -> (key: String)
    ensures
        key@ == update_delivery_key(status_id, activity_id@, edited_at_micros, inbox_url@),
{
    let text = update_key_text(activity_id, edited_at_micros, inbox_url);
    let mut key = String::new();
    push_str(&mut key, "activitypub:status:");
    push_decimal_i64(&mut key, status_id);
    push_str(&mut key, ":update:");
    push_hex_digest(&mut key, text.as_str());
    assert(key@ =~= update_delivery_key(status_id, activity_id@, edited_at_micros, inbox_url@));
    key
}

/// The key of an account Update delivery: per account, activity, version and inbox.
pub open spec fn account_update_delivery_key(account_id: i64, activity_id: Seq<char>, updated_at_micros: i64, inbox_url: Seq<char>) -> Seq<char> {
    "activitypub:account:"@ + int_decimal(account_id as int) + ":update:"@
        + hex_digest(update_key_material(activity_id, updated_at_micros, inbox_url))
}

/// The singleton key of an account Update delivery to one inbox.
pub fn account_update_delivery_logical_key(account_id: i64, activity_id: &str, updated_at_micros: i64, inbox_url: &str)
    -> (key: String)
    ensures
        key@ == account_update_delivery_key(account_id, activity_id@, updated_at_micros, inbox_url@),
{
    let text = update_key_text(activity_id, updated_at_micros, inbox_url);
    let mut key = String::new();
    push_str(&mut key, "activitypub:account:");
    push_decimal_i64(&mut key, account_id);
    push_str(&mut key, ":update:");
    push_hex_digest(&mut key, text.as_str());
    assert(key@ =~= account_update_delivery_key(account_id, activity_id@, updated_at_micros, inbox_url@));
    key
}

/// The key of one status delivery to one inbox: `activitypub:status:<id>:<action>:<digest of the inbox>`.
pub open spec fn status_inbox_key(status_id: i64, action: Seq<char>, inbox_url: Seq<char>) -> Seq<char> {
    "activitypub:status:"@ + int_decimal(status_id as int) + ":"@ + action + ":"@ + hex_digest(inbox_url)
}

fn status_inbox_logical_key(status_id: i64, action: &str, inbox_url: &str) -> (key: String)
    ensures
        key@ == status_inbox_key(status_id, action@, inbox_url@),
        key@.len() == 19 + int_decimal(status_id as int).len() + 2 + action@.len() + 64,
{
    let mut key = String::new();
    push_str(&mut key, "activitypub:status:");
    push_decimal_i64(&mut key, status_id);
    push_str(&mut key, ":");
    push_str(&mut key, action);
    push_str(&mut key, ":");
    push_hex_digest(&mut key, inbox_url);
    proof {
        reveal_strlit("activitypub:status:");
        reveal_strlit(":");
        lemma_hex_lower_len(sha256(vstd::utf8::encode_utf8(inbox_url@)));
    }
    assert(key@ =~= status_inbox_key(status_id, action@, inbox_url@));
    key
}

/// The singleton key of a status delivery to one inbox.
pub fn delivery_logical_key(status_id: i64, inbox_url: &str) -> (key: String)
    ensures
        key@ == status_inbox_key(status_id, "deliver"@, inbox_url@),
        key@.len() <= 1024,
{
    proof {
        reveal_strlit("deliver");
        lemma_int_decimal_len_i64(status_id);
    }
    status_inbox_logical_key(status_id, "deliver", inbox_url)
}

/// The singleton key of a status Delete delivery to one inbox.
pub fn delete_delivery_logical_key(status_id: i64, inbox_url: &str) -> (key: String)
    ensures
        key@ == status_inbox_key(status_id, "delete"@, inbox_url@),
        key@.len() <= 1024,
{
    proof {
        reveal_strlit("delete");
        lemma_int_decimal_len_i64(status_id);
    }
    status_inbox_logical_key(status_id, "delete", inbox_url)
}

/// What a Note resolution key hashes: source account, actor, object and personal
/// recipient (or `shared`), one per line.
pub open spec fn note_resolution_material(source_account_id: i64, actor_uri: Seq<char>, object_uri: Seq<char>,
    delivery_target_account_id: Option<i64>) -> Seq<char> {
    int_decimal(source_account_id as int) + seq!['\n'] + actor_uri + seq!['\n'] + object_uri + seq!['\n']
        + match delivery_target_account_id {
            Some(id) => int_decimal(id as int),
            None => "shared"@,
        }
}

/// The singleton key of a remote Note resolution.
pub fn note_resolution_logical_key(
    source_account_id: i64,
    actor_uri: &str,
    object_uri: &str,
    delivery_target_account_id: Option<i64>,
) -> (key: String)
    ensures
        key@ == "activitypub:note:"@ + hex_digest(note_resolution_material(source_account_id, actor_uri@,
            object_uri@, delivery_target_account_id)),
{
    let mut text = String::new();
    push_decimal_i64(&mut text, source_account_id);
    push_char(&mut text, '\n');
    push_str(&mut text, actor_uri);
    push_char(&mut text, '\n');
    push_str(&mut text, object_uri);
    push_char(&mut text, '\n');
    match delivery_target_account_id {
        Some(id) => push_decimal_i64(&mut text, id),
        None => push_str(&mut text, "shared"),
    }
    assert(text@ =~= note_resolution_material(source_account_id, actor_uri@, object_uri@, delivery_target_account_id));
    let mut key = String::new();
    push_str(&mut key, "activitypub:note:");
    push_hex_digest(&mut key, text.as_str());
    key
}

/// The singleton key of a remote Announce resolution.
pub fn announce_resolution_logical_key(activity_uri: &str) -> (key: String)
    ensures
        key@ == "activitypub:announce:"@ + hex_digest(activity_uri@),
{
    let mut key = String::new();
    push_str(&mut key, "activitypub:announce:");
    push_hex_digest(&mut key, activity_uri);
    key
}

/// The lease owner of the startup poll expiration reconciliation for a process.
pub fn poll_expiration_startup_lease_owner(process_id: &str) -> (owner: String)
    ensures
        owner@ == "poll-expiration-startup:"@ + hex_digest(process_id@),
{
    let mut owner = String::new();
    push_str(&mut owner, "poll-expiration-startup:");
    push_hex_digest(&mut owner, process_id);
    owner
}

/// Deliveries of different statuses never share a key, whatever their actions and inboxes.
pub proof fn lemma_status_inbox_keys_distinct(
    status1: i64,
    action1: Seq<char>,
    inbox1: Seq<char>,
    status2: i64,
    action2: Seq<char>,
    inbox2: Seq<char>,
)
    requires
        status1 != status2,
    ensures
        status_inbox_key(status1, action1, inbox1) != status_inbox_key(status2, action2, inbox2),
{
    reveal_strlit(":");
    let prefix = "activitypub:status:"@;
    let d1 = int_decimal(status1 as int);
    let d2 = int_decimal(status2 as int);
    let t1 = action1 + ":"@ + hex_digest(inbox1);
    let t2 = action2 + ":"@ + hex_digest(inbox2);
    let k1 = status_inbox_key(status1, action1, inbox1);
    let k2 = status_inbox_key(status2, action2, inbox2);
    assert(k1 =~= prefix + (d1 + seq![':'] + t1));
    assert(k2 =~= prefix + (d2 + seq![':'] + t2));
    if k1 == k2 {
        assert(d1 + seq![':'] + t1 =~= k1.subrange(prefix.len() as int, k1.len() as int));
        assert(d2 + seq![':'] + t2 =~= k2.subrange(prefix.len() as int, k2.len() as int));
        lemma_int_decimal_chars(status1 as int);
        lemma_int_decimal_chars(status2 as int);
        assert forall|i: int| 0 <= i < d1.len() implies #[trigger] d1[i] != ':' by {
            assert(is_decimal_char(d1[i]));
        }
        assert forall|i: int| 0 <= i < d2.len() implies #[trigger] d2[i] != ':' by {
            assert(is_decimal_char(d2[i]));
        }
        lemma_split_at_separator(d1, t1, d2, t2, ':');
        lemma_int_decimal_injective(status1 as int, status2 as int);
    }
}

/// An Update key hashes its version and inbox unambiguously: for one activity, different
/// versions or different inboxes give different hashed texts.
pub proof fn lemma_update_key_material_injective(
    activity_id: Seq<char>,
    version1: i64,
    inbox1: Seq<char>,
    version2: i64,
    inbox2: Seq<char>,
)
    requires
        update_key_material(activity_id, version1, inbox1) == update_key_material(activity_id, version2, inbox2),
    ensures
        version1 == version2,
        inbox1 == inbox2,
{
    let d1 = int_decimal(version1 as int);
    let d2 = int_decimal(version2 as int);
    let m1 = update_key_material(activity_id, version1, inbox1);
    let m2 = update_key_material(activity_id, version2, inbox2);
    let n: int = activity_id.len() as int + 1;
    assert(m1.subrange(n, m1.len() as int) =~= d1 + seq!['\0'] + inbox1);
    assert(m2.subrange(n, m2.len() as int) =~= d2 + seq!['\0'] + inbox2);
    lemma_int_decimal_chars(version1 as int);
    lemma_int_decimal_chars(version2 as int);
    assert forall|i: int| 0 <= i < d1.len() implies #[trigger] d1[i] != '\0' by {
        assert(is_decimal_char(d1[i]));
    }
    assert forall|i: int| 0 <= i < d2.len() implies #[trigger] d2[i] != '\0' by {
        assert(is_decimal_char(d2[i]));
    }
    lemma_split_at_separator(d1, inbox1, d2, inbox2, '\0');
    lemma_int_decimal_injective(version1 as int, version2 as int);
}

/// A Note resolution key hashes its personal recipient unambiguously: for one source
/// account, actor and object, different recipients (or a recipient and the shared inbox)
/// give different hashed texts.
pub proof fn lemma_note_resolution_material_binds_recipient(
    source_account_id: i64,
    actor_uri: Seq<char>,
    object_uri: Seq<char>,
    recipient1: Option<i64>,
    recipient2: Option<i64>,
)
    requires
        note_resolution_material(source_account_id, actor_uri, object_uri, recipient1)
            == note_resolution_material(source_account_id, actor_uri, object_uri, recipient2),
    ensures
        recipient1 == recipient2,
{
    let prefix = int_decimal(source_account_id as int) + seq!['\n'] + actor_uri + seq!['\n'] + object_uri + seq!['\n'];
    let tail = |r: Option<i64>| match r {
        Some(id) => int_decimal(id as int),
        None => "shared"@,
    };
    let m1 = note_resolution_material(source_account_id, actor_uri, object_uri, recipient1);
    let m2 = note_resolution_material(source_account_id, actor_uri, object_uri, recipient2);
    assert(m1 =~= prefix + tail(recipient1));
    assert(m2 =~= prefix + tail(recipient2));
    assert(tail(recipient1) =~= m1.subrange(prefix.len() as int, m1.len() as int));
    assert(tail(recipient2) =~= m2.subrange(prefix.len() as int, m2.len() as int));
    reveal_strlit("shared");
    match (recipient1, recipient2) {
        (Some(a), Some(b)) => {
            lemma_int_decimal_injective(a as int, b as int);
        },
        (Some(a), None) => {
            lemma_int_decimal_chars(a as int);
            assert(is_decimal_char(int_decimal(a as int)[0]));
        },
        (None, Some(b)) => {
            lemma_int_decimal_chars(b as int);
            assert(is_decimal_char(int_decimal(b as int)[0]));
        },
        (None, None) => {},
    }
}

} // verus!
