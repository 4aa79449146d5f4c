use rustodon_worker::keys::{
    account_update_delivery_logical_key, announce_resolution_logical_key, delete_delivery_logical_key,
    delivery_logical_key, note_resolution_logical_key, poll_expiration_startup_lease_owner,
    update_delivery_logical_key,
};

#[test]
fn delivery_keys_are_stable_and_endpoint_specific() {
    let first = delivery_logical_key(7, "https://remote.example/inbox");
    assert_eq!(first, delivery_logical_key(7, "https://remote.example/inbox"));
    assert_ne!(first, delivery_logical_key(7, "https://other.example/inbox"));
    assert_ne!(first, delivery_logical_key(8, "https://remote.example/inbox"));
    assert!(first.len() <= 1024);
}

#[test]
fn update_delivery_keys_include_the_activity_version() {
    let first = update_delivery_logical_key(
        7,
        "https://local.example/users/alice/statuses/7#updates/1",
        1_000_000,
        "https://remote.example/inbox",
    );
    assert_eq!(
        first,
        update_delivery_logical_key(
            7,
            "https://local.example/users/alice/statuses/7#updates/1",
            1_000_000,
            "https://remote.example/inbox",
        )
    );
    assert_ne!(
        first,
        update_delivery_logical_key(
            7,
            "https://local.example/users/alice/statuses/7#updates/2",
            2_000_000,
            "https://remote.example/inbox",
        )
    );
    assert_ne!(
        first,
        update_delivery_logical_key(
            7,
            "https://local.example/users/alice/statuses/7#updates/1",
            1_000_001,
            "https://remote.example/inbox",
        )
    );
    assert_ne!(
        first,
        update_delivery_logical_key(
            7,
            "https://local.example/users/alice/statuses/7#updates/1",
            1_000_000,
            "https://other.example/inbox",
        )
    );
}

#[test]
fn account_update_delivery_keys_include_the_timestamp_version() {
    let first = account_update_delivery_logical_key(
        7,
        "https://local.example/users/alice#updates/1",
        1_000_000,
        "https://remote.example/inbox",
    );
    assert_ne!(
        first,
        account_update_delivery_logical_key(
            7,
            "https://local.example/users/alice#updates/1",
            1_000_001,
            "https://remote.example/inbox",
        )
    );
    assert_ne!(
        first,
        account_update_delivery_logical_key(
            7,
            "https://local.example/users/alice#updates/1",
            1_000_000,
            "https://other.example/inbox",
        )
    );
}

#[test]
fn note_resolution_keys_preserve_actor_object_and_personal_recipient() {
    let first = note_resolution_logical_key(
        1,
        "https://remote.example/users/alice",
        "https://remote.example/statuses/1",
        Some(7),
    );
    assert_eq!(
        first,
        note_resolution_logical_key(1, "https://remote.example/users/alice", "https://remote.example/statuses/1", Some(7))
    );
    assert_ne!(
        first,
        note_resolution_logical_key(1, "https://remote.example/users/alice", "https://remote.example/statuses/1", Some(8))
    );
    assert_ne!(
        first,
        note_resolution_logical_key(
            2,
            "https://remote.example/users/mallory",
            "https://remote.example/statuses/2",
            Some(7),
        )
    );
}

#[test]
fn delivery_keys_hash_the_inbox_with_sha256() {
    // SHA-256 of "abc".
    let digest = "ba7816bf8f01cfea414140de5dae2223b00361a396177a9cb410ff61f20015ad";
    assert_eq!(delivery_logical_key(7, "abc"), format!("activitypub:status:7:deliver:{digest}"));
    assert_eq!(delete_delivery_logical_key(-7, "abc"), format!("activitypub:status:-7:delete:{digest}"));
    assert_eq!(announce_resolution_logical_key("abc"), format!("activitypub:announce:{digest}"));
    assert_eq!(poll_expiration_startup_lease_owner("abc"), format!("poll-expiration-startup:{digest}"));
}

#[test]
fn delete_and_deliver_keys_differ_for_the_same_inbox() {
    assert_ne!(
        delivery_logical_key(7, "https://remote.example/inbox"),
        delete_delivery_logical_key(7, "https://remote.example/inbox")
    );
}

#[test]
fn shared_inbox_note_resolutions_differ_from_personal_ones() {
    let actor = "https://remote.example/users/alice";
    let object = "https://remote.example/statuses/1";
    let shared = note_resolution_logical_key(1, actor, object, None);
    assert_ne!(shared, note_resolution_logical_key(1, actor, object, Some(1)));
    assert!(shared.starts_with("activitypub:note:"));
    assert_eq!(shared.len(), "activitypub:note:".len() + 64);
}

#[test]
fn status_and_account_update_keys_are_namespaced() {
    let status = update_delivery_logical_key(7, "a#updates/1", 1, "https://remote.example/inbox");
    let account = account_update_delivery_logical_key(7, "a#updates/1", 1, "https://remote.example/inbox");
    assert!(status.starts_with("activitypub:status:7:update:"));
    assert!(account.starts_with("activitypub:account:7:update:"));
    assert_eq!(status["activitypub:status:7:update:".len()..], account["activitypub:account:7:update:".len()..]);
}
