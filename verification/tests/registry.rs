use rustodon_worker::failure::HandlerFailure;
use rustodon_worker::registry::{
    FailureTransition, HandlerRegistry, HandlerRoute, JobDispatch, Lane, ResourceClass, WorkerError,
    dispatch_claimed_job, failure_transition, infrastructure_handlers, lease_renewal_millis, retry_delay,
    retry_delay_seconds, validate_concurrency,
};

#[test]
fn duplicate_registration_preserves_the_original_handler_lane() {
    let mut registry = HandlerRegistry::new();
    registry.register("duplicate", Lane::Core, ResourceClass::Unlimited).unwrap();
    assert!(registry.register("duplicate", Lane::Push, ResourceClass::RemoteHttp).is_err());
    assert_eq!(registry.supported_lanes(), vec![Lane::Core]);
}

#[test]
fn retry_backoff_is_deterministic_jittered_and_bounded() {
    assert_eq!(retry_delay(42, 2), retry_delay(42, 2));
    assert_ne!(retry_delay(42, 2), retry_delay(43, 2));
    assert!(retry_delay(42, 1) < retry_delay(42, 2));
    assert!(retry_delay(42, 100).num_hours() <= 24);
}

#[test]
fn registrations_need_a_bounded_kind_and_keep_their_route() {
    let mut registry = HandlerRegistry::new();
    let empty = registry.register("", Lane::Core, ResourceClass::Unlimited).expect_err("empty kind");
    assert_eq!(empty.message(), "handler kind must contain 1-128 bytes");
    let long = "k".repeat(129);
    assert!(registry.register(&long, Lane::Core, ResourceClass::Unlimited).is_err());
    assert!(registry.register(&"k".repeat(128), Lane::Pull, ResourceClass::Media).is_ok());
    registry.register("fetch", Lane::Pull, ResourceClass::RemoteHttp).unwrap();
    let duplicate = registry.register("fetch", Lane::Core, ResourceClass::Unlimited).expect_err("duplicate");
    assert_eq!(duplicate.message(), "durable job handler is already registered");
    assert_eq!(
        registry.get("fetch"),
        Some(HandlerRoute { lane: Lane::Pull, resource: ResourceClass::RemoteHttp })
    );
    assert_eq!(registry.get("missing"), None);
    assert_eq!(registry.supported_lanes(), vec![Lane::Pull]);
}

#[test]
fn supported_lanes_are_listed_once_in_lane_order() {
    let mut registry = HandlerRegistry::new();
    registry.register("mail", Lane::Mail, ResourceClass::Unlimited).unwrap();
    registry.register("push", Lane::Push, ResourceClass::RemoteHttp).unwrap();
    registry.register("push2", Lane::Push, ResourceClass::RemoteHttp).unwrap();
    registry.register("core", Lane::Core, ResourceClass::Unlimited).unwrap();
    assert_eq!(registry.supported_lanes(), vec![Lane::Core, Lane::Push, Lane::Mail]);
    assert!(HandlerRegistry::new().supported_lanes().is_empty());
}

#[test]
fn infrastructure_handlers_run_the_prune_on_the_maintenance_lane() {
    let registry = infrastructure_handlers().expect("the built-in handlers register");
    assert_eq!(
        registry.get("rustodon.maintenance.prune"),
        Some(HandlerRoute { lane: Lane::Maintenance, resource: ResourceClass::Unlimited })
    );
    assert_eq!(registry.supported_lanes(), vec![Lane::Maintenance]);
}

#[test]
fn claimed_jobs_run_only_on_their_registered_lane() {
    let mut registry = HandlerRegistry::new();
    registry.register("fetch", Lane::Pull, ResourceClass::RemoteHttp).unwrap();
    assert!(matches!(
        dispatch_claimed_job(&registry, "fetch", Lane::Pull),
        JobDispatch::Run(ResourceClass::RemoteHttp)
    ));
    assert!(matches!(
        dispatch_claimed_job(&registry, "fetch", Lane::Core),
        JobDispatch::DeadLetter("job kind is registered for a different lane")
    ));
    assert!(matches!(
        dispatch_claimed_job(&registry, "other", Lane::Pull),
        JobDispatch::DeadLetter("no handler is registered for this job kind")
    ));
}

#[test]
fn concurrency_limits_must_be_positive() {
    assert!(validate_concurrency(1, 1).is_ok());
    let error = validate_concurrency(0, 4).expect_err("no HTTP slots");
    assert!(matches!(error, WorkerError::InvalidConfiguration("worker resource concurrency must be positive")));
    assert!(validate_concurrency(4, 0).is_err());
}

#[test]
fn leases_are_renewed_every_third_of_their_length() {
    assert_eq!(lease_renewal_millis(30_000), 10_000);
    assert_eq!(lease_renewal_millis(2), 1);
    assert_eq!(lease_renewal_millis(-9), 1);
}

#[test]
fn retry_delays_grow_quartically_and_stay_within_a_day() {
    assert_eq!(retry_delay_seconds(0, 1), 15 + 10 + (0x9e37_79b9_7f4a_7c15u64 % 10) as i64);
    assert_eq!(retry_delay_seconds(0, 0), retry_delay_seconds(0, 1));
    for attempt in [1, 2, 5, 20, i32::MAX] {
        let seconds = retry_delay_seconds(7, attempt);
        assert!((15..=86_400).contains(&seconds));
    }
    assert_eq!(retry_delay_seconds(7, 100), 86_400);
    assert_eq!(retry_delay(7, 3).num_seconds(), retry_delay_seconds(7, 3));
}

#[test]
fn failed_handlers_retry_or_dead_letter() {
    let retry = failure_transition(&HandlerFailure::retry("later"), 9, 2);
    match retry {
        FailureTransition::Retry { delay_seconds, message } => {
            assert_eq!(delay_seconds, retry_delay_seconds(9, 2));
            assert_eq!(message, "later");
        },
        other => panic!("unexpected {other:?}"),
    }
    assert!(matches!(
        failure_transition(&HandlerFailure::permanent("never"), 9, 2),
        FailureTransition::DeadLetter(message) if message == "never"
    ));
}

#[test]
fn worker_errors_display_their_cause() {
    assert_eq!(WorkerError::Jobs("queue closed".to_owned()).message(), "queue closed");
    assert_eq!(WorkerError::ShutdownTimedOut.message(), "worker shutdown exceeded its configured deadline");
    assert_eq!(WorkerError::RegistryUnavailable.message(), "worker handler registry is unavailable");
}
