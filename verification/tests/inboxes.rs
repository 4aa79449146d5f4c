use rustodon_worker::inboxes::{DeliveryInboxes, recipient_reachable};

fn listed(inboxes: &DeliveryInboxes) -> Vec<(String, String)> {
    (0..inboxes.len())
        .map(|i| {
            let (inbox, domain) = inboxes.entry(i);
            (inbox.to_owned(), domain.to_owned())
        })
        .collect()
}

#[test]
fn recipients_share_inboxes_and_keep_the_first_domain() {
    let mut inboxes = DeliveryInboxes::new();
    assert!(inboxes.is_empty());
    inboxes.add_recipient("https://b.example/users/1/inbox", "https://b.example/inbox", false, "b.example");
    inboxes.add_recipient("https://b.example/users/2/inbox", "https://b.example/inbox", false, "other.example");
    inboxes.add_recipient("https://a.example/users/1/inbox", "", false, "a.example");
    inboxes.add_recipient("", "", false, "empty.example");
    assert_eq!(
        listed(&inboxes),
        vec![
            ("https://a.example/users/1/inbox".to_owned(), "a.example".to_owned()),
            ("https://b.example/inbox".to_owned(), "b.example".to_owned()),
        ]
    );
}

#[test]
fn personal_deliveries_use_personal_inboxes() {
    let mut inboxes = DeliveryInboxes::new();
    inboxes.add_recipient("https://b.example/users/1/inbox", "https://b.example/inbox", true, "b.example");
    assert_eq!(listed(&inboxes), vec![("https://b.example/users/1/inbox".to_owned(), "b.example".to_owned())]);
}

#[test]
fn relays_replace_the_recorded_domain() {
    let mut inboxes = DeliveryInboxes::new();
    inboxes.add_recipient("https://relay.example/inbox", "", false, "first.example");
    inboxes.add_relay("https://relay.example/inbox", "relay.example");
    inboxes.add_relay("https://another.example/inbox", "another.example");
    assert_eq!(
        listed(&inboxes),
        vec![
            ("https://another.example/inbox".to_owned(), "another.example".to_owned()),
            ("https://relay.example/inbox".to_owned(), "relay.example".to_owned()),
        ]
    );
    assert_eq!(inboxes.len(), 2);
}

#[test]
fn only_reachable_remote_activitypub_accounts_receive_deliveries() {
    assert!(recipient_reachable(true, true, false, false));
    assert!(!recipient_reachable(false, true, false, false));
    assert!(!recipient_reachable(true, false, false, false));
    assert!(!recipient_reachable(true, true, true, false));
    assert!(recipient_reachable(true, true, true, true));
}

#[test]
fn absent_inboxes_are_added_once() {
    let mut inboxes = DeliveryInboxes::new();
    inboxes.add_if_absent("https://relay.example/inbox", "relay.example");
    inboxes.add_if_absent("https://relay.example/inbox", "other.example");
    inboxes.add_if_absent("", "empty.example");
    assert_eq!(listed(&inboxes), vec![("https://relay.example/inbox".to_owned(), "relay.example".to_owned())]);
}
