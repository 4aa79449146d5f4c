use vstd::prelude::*;
use vstd::string::StringSliceAdditionalSpecFns;
use crate::delivery::delivery_kind;
use crate::job::{JobSpec, opt_string};
use crate::json::{JsonNumber, JsonValue};
use crate::text::{int_decimal, push_decimal_i64, push_str};
use crate::media::{process_upload_kind, recover_uploads_kind};
use crate::poll_expiration::reconcile_job_kind;
use crate::registry::{HandlerRegistry, HandlerRoute, Lane, ResourceClass, WorkerError, maintenance_prune_kind};
use crate::resolution_jobs::{announce_resolve_kind, note_resolve_kind};
use crate::status_update::status_distribution_kind;

verus! {

/// A job kind with the lane and resource its handler runs with.
pub type RouteEntry = (&'static str, Lane, ResourceClass);

/// The view of a route entry.
pub open spec fn entry_view(e: RouteEntry) -> (Seq<char>, HandlerRoute) {
    (e.0@, HandlerRoute { lane: e.1, resource: e.2 })
}

/// The views of route entries.
pub open spec fn entries_view(es: Seq<RouteEntry>) -> Seq<(Seq<char>, HandlerRoute)> {
    es.map_values(|e: RouteEntry| entry_view(e))
}

/// The route of `kind` after registering `entries` in order over routes that gave
/// `before`: the last entry of that kind decides.
pub open spec fn entries_route(
    entries: Seq<(Seq<char>, HandlerRoute)>,
    kind: Seq<char>,
    before: Option<HandlerRoute>,
) -> Option<HandlerRoute>
    decreases entries.len(),
{
    if entries.len() == 0 {
        before
    } else if entries.last().0 == kind {
        Some(entries.last().1)
    } else {
        entries_route(entries.drop_last(), kind, before)
    }
}

/// Every kind is ASCII and holds 1 to 128 bytes, as the registry demands.
pub open spec fn entries_valid(es: Seq<RouteEntry>) -> bool {
    forall|i: int| 0 <= i < es.len() ==> {
        &&& vstd::string::is_ascii((#[trigger] es[i]).0)
        &&& 1 <= es[i].0@.len()
        &&& es[i].0.len() <= 128
    }
}

/// No kind occurs twice.
pub open spec fn kinds_distinct(es: Seq<(Seq<char>, HandlerRoute)>) -> bool {
    forall|i: int, j: int| 0 <= i < j < es.len() ==> (#[trigger] es[i]).0 != (#[trigger] es[j]).0
}

/// The job kind `rustodon.mastodon.cleanup_local_media`.
pub open spec fn local_media_cleanup_kind() -> Seq<char> {
    "rustodon.mastodon.cleanup_local_media"@
}

/// The job kind `rustodon.mastodon.status_notification`.
pub open spec fn status_notification_kind() -> Seq<char> {
    "rustodon.mastodon.status_notification"@
}

/// The job kind `rustodon.mastodon.create_notification`.
pub open spec fn notification_create_kind() -> Seq<char> {
    "rustodon.mastodon.create_notification"@
}

/// The job kind `rustodon.mastodon.expire_poll`.
pub open spec fn poll_expiration_kind() -> Seq<char> {
    "rustodon.mastodon.expire_poll"@
}

/// The job kind `rustodon.mastodon.unfilter_notifications`.
pub open spec fn notification_unfilter_kind() -> Seq<char> {
    "rustodon.mastodon.unfilter_notifications"@
}

/// The job kind `rustodon.mastodon.cleanup_notifications`.
pub open spec fn notification_cleanup_kind() -> Seq<char> {
    "rustodon.mastodon.cleanup_notifications"@
}

/// The job kind `rustodon.mastodon.delete_mute`.
pub open spec fn delete_mute_kind() -> Seq<char> {
    "rustodon.mastodon.delete_mute"@
}

/// The job kind `rustodon.mastodon.purge_account`.
pub open spec fn account_purge_kind() -> Seq<char> {
    "rustodon.mastodon.purge_account"@
}

/// The job kind `rustodon.mastodon.block_domain`.
pub open spec fn domain_block_kind() -> Seq<char> {
    "rustodon.mastodon.block_domain"@
}

/// The job kind `rustodon.mastodon.purge_domain`.
pub open spec fn domain_purge_kind() -> Seq<char> {
    "rustodon.mastodon.purge_domain"@
}

/// The job kind `rustodon.activitypub.resolve_thread`.
pub open spec fn thread_resolve_kind() -> Seq<char> {
    "rustodon.activitypub.resolve_thread"@
}

/// The job kind `rustodon.activitypub.fetch_profile_media`.
pub open spec fn profile_media_fetch_kind() -> Seq<char> {
    "rustodon.activitypub.fetch_profile_media"@
}

/// The job kind `rustodon.activitypub.cleanup_profile_media`.
pub open spec fn profile_media_cleanup_kind() -> Seq<char> {
    "rustodon.activitypub.cleanup_profile_media"@
}

/// The job kind `rustodon.activitypub.cleanup_emoji`.
pub open spec fn emoji_cleanup_kind() -> Seq<char> {
    "rustodon.activitypub.cleanup_emoji"@
}

/// The job kind `rustodon.activitypub.fetch_emoji`.
pub open spec fn emoji_fetch_kind() -> Seq<char> {
    "rustodon.activitypub.fetch_emoji"@
}

/// The job kind `rustodon.activitypub.fetch_media`.
pub open spec fn media_fetch_kind() -> Seq<char> {
    "rustodon.activitypub.fetch_media"@
}

/// The job kind `rustodon.activitypub.inbox`.
pub open spec fn inbox_kind() -> Seq<char> {
    "rustodon.activitypub.inbox"@
}

/// The job kind `rustodon.activitypub.account_update`.
pub open spec fn account_update_kind() -> Seq<char> {
    "rustodon.activitypub.account_update"@
}

/// The job kind `rustodon.activitypub.account_delete`.
pub open spec fn account_delete_kind() -> Seq<char> {
    "rustodon.activitypub.account_delete"@
}

/// The job kind `rustodon.mail.password_reset`.
pub open spec fn password_reset_kind() -> Seq<char> {
    "rustodon.mail.password_reset"@
}

/// The job kind `rustodon.mail.confirmation`.
pub open spec fn confirmation_kind() -> Seq<char> {
    "rustodon.mail.confirmation"@
}

/// The job kind `rustodon.mail.report`.
pub open spec fn report_mail_kind() -> Seq<char> {
    "rustodon.mail.report"@
}

/// Routes of local uploads, with a writer and a media root.
pub open spec fn upload_routes() -> Seq<(Seq<char>, HandlerRoute)> {
    seq![
        (process_upload_kind(), HandlerRoute { lane: Lane::Maintenance, resource: ResourceClass::Media }),
        (recover_uploads_kind(), HandlerRoute { lane: Lane::Maintenance, resource: ResourceClass::Media }),
        (local_media_cleanup_kind(), HandlerRoute { lane: Lane::Maintenance, resource: ResourceClass::Media }),
    ]
}

fn upload_routes_exec() -> (v: Vec<RouteEntry>)
    ensures
        entries_view(v@) == upload_routes(),
        entries_valid(v@),
{
    let mut v: Vec<RouteEntry> = Vec::new();
    v.push(("rustodon.mastodon.process_local_upload", Lane::Maintenance, ResourceClass::Media));
    v.push(("rustodon.mastodon.recover_local_uploads", Lane::Maintenance, ResourceClass::Media));
    v.push(("rustodon.mastodon.cleanup_local_media", Lane::Maintenance, ResourceClass::Media));
    proof {
        broadcast use vstd::string::is_ascii_spec_bytes;
        reveal_strlit("rustodon.mastodon.process_local_upload");
        assert(vstd::string::is_ascii("rustodon.mastodon.process_local_upload"));
        reveal_strlit("rustodon.mastodon.recover_local_uploads");
        assert(vstd::string::is_ascii("rustodon.mastodon.recover_local_uploads"));
        reveal_strlit("rustodon.mastodon.cleanup_local_media");
        assert(vstd::string::is_ascii("rustodon.mastodon.cleanup_local_media"));
    }
    assert(entries_view(v@) =~= upload_routes());
    v
}

/// Routes of the jobs that write Mastodon's tables.
pub open spec fn writer_routes() -> Seq<(Seq<char>, HandlerRoute)> {
    seq![
        (status_notification_kind(), HandlerRoute { lane: Lane::Core, resource: ResourceClass::Unlimited }),
        (notification_create_kind(), HandlerRoute { lane: Lane::Core, resource: ResourceClass::Unlimited }),
        (poll_expiration_kind(), HandlerRoute { lane: Lane::Core, resource: ResourceClass::Unlimited }),
        (reconcile_job_kind(), HandlerRoute { lane: Lane::Maintenance, resource: ResourceClass::Unlimited }),
        (notification_unfilter_kind(), HandlerRoute { lane: Lane::Core, resource: ResourceClass::Unlimited }),
        (notification_cleanup_kind(), HandlerRoute { lane: Lane::Core, resource: ResourceClass::Unlimited }),
        (delete_mute_kind(), HandlerRoute { lane: Lane::Maintenance, resource: ResourceClass::Unlimited }),
        (account_purge_kind(), HandlerRoute { lane: Lane::Maintenance, resource: ResourceClass::Media }),
        (domain_block_kind(), HandlerRoute { lane: Lane::Maintenance, resource: ResourceClass::Media }),
        (domain_purge_kind(), HandlerRoute { lane: Lane::Maintenance, resource: ResourceClass::Media }),
    ]
}

fn writer_routes_exec() -> (v: Vec<RouteEntry>)
    ensures
        entries_view(v@) == writer_routes(),
        entries_valid(v@),
{
    let mut v: Vec<RouteEntry> = Vec::new();
    v.push(("rustodon.mastodon.status_notification", Lane::Core, ResourceClass::Unlimited));
    v.push(("rustodon.mastodon.create_notification", Lane::Core, ResourceClass::Unlimited));
    v.push(("rustodon.mastodon.expire_poll", Lane::Core, ResourceClass::Unlimited));
    v.push(("rustodon.mastodon.reconcile_poll_expirations", Lane::Maintenance, ResourceClass::Unlimited));
    v.push(("rustodon.mastodon.unfilter_notifications", Lane::Core, ResourceClass::Unlimited));
    v.push(("rustodon.mastodon.cleanup_notifications", Lane::Core, ResourceClass::Unlimited));
    v.push(("rustodon.mastodon.delete_mute", Lane::Maintenance, ResourceClass::Unlimited));
    v.push(("rustodon.mastodon.purge_account", Lane::Maintenance, ResourceClass::Media));
    v.push(("rustodon.mastodon.block_domain", Lane::Maintenance, ResourceClass::Media));
    v.push(("rustodon.mastodon.purge_domain", Lane::Maintenance, ResourceClass::Media));
    proof {
        broadcast use vstd::string::is_ascii_spec_bytes;
        reveal_strlit("rustodon.mastodon.status_notification");
        assert(vstd::string::is_ascii("rustodon.mastodon.status_notification"));
        reveal_strlit("rustodon.mastodon.create_notification");
        assert(vstd::string::is_ascii("rustodon.mastodon.create_notification"));
        reveal_strlit("rustodon.mastodon.expire_poll");
        assert(vstd::string::is_ascii("rustodon.mastodon.expire_poll"));
        reveal_strlit("rustodon.mastodon.reconcile_poll_expirations");
        assert(vstd::string::is_ascii("rustodon.mastodon.reconcile_poll_expirations"));
        reveal_strlit("rustodon.mastodon.unfilter_notifications");
        assert(vstd::string::is_ascii("rustodon.mastodon.unfilter_notifications"));
        reveal_strlit("rustodon.mastodon.cleanup_notifications");
        assert(vstd::string::is_ascii("rustodon.mastodon.cleanup_notifications"));
        reveal_strlit("rustodon.mastodon.delete_mute");
        assert(vstd::string::is_ascii("rustodon.mastodon.delete_mute"));
        reveal_strlit("rustodon.mastodon.purge_account");
        assert(vstd::string::is_ascii("rustodon.mastodon.purge_account"));
        reveal_strlit("rustodon.mastodon.block_domain");
        assert(vstd::string::is_ascii("rustodon.mastodon.block_domain"));
        reveal_strlit("rustodon.mastodon.purge_domain");
        assert(vstd::string::is_ascii("rustodon.mastodon.purge_domain"));
    }
    assert(entries_view(v@) =~= writer_routes());
    v
}

/// Routes of remote resolution, with a writer and federation.
pub open spec fn resolve_routes() -> Seq<(Seq<char>, HandlerRoute)> {
    seq![
        (note_resolve_kind(), HandlerRoute { lane: Lane::Pull, resource: ResourceClass::RemoteHttp }),
        (announce_resolve_kind(), HandlerRoute { lane: Lane::Pull, resource: ResourceClass::RemoteHttp }),
        (thread_resolve_kind(), HandlerRoute { lane: Lane::Pull, resource: ResourceClass::RemoteHttp }),
    ]
}

fn resolve_routes_exec() -> (v: Vec<RouteEntry>)
    ensures
        entries_view(v@) == resolve_routes(),
        entries_valid(v@),
{
    let mut v: Vec<RouteEntry> = Vec::new();
    v.push(("rustodon.activitypub.resolve_note", Lane::Pull, ResourceClass::RemoteHttp));
    v.push(("rustodon.activitypub.resolve_announce", Lane::Pull, ResourceClass::RemoteHttp));
    v.push(("rustodon.activitypub.resolve_thread", Lane::Pull, ResourceClass::RemoteHttp));
    proof {
        broadcast use vstd::string::is_ascii_spec_bytes;
        reveal_strlit("rustodon.activitypub.resolve_note");
        assert(vstd::string::is_ascii("rustodon.activitypub.resolve_note"));
        reveal_strlit("rustodon.activitypub.resolve_announce");
        assert(vstd::string::is_ascii("rustodon.activitypub.resolve_announce"));
        reveal_strlit("rustodon.activitypub.resolve_thread");
        assert(vstd::string::is_ascii("rustodon.activitypub.resolve_thread"));
    }
    assert(entries_view(v@) =~= resolve_routes());
    v
}

/// Routes of remote media, with a writer, federation and a media root.
pub open spec fn remote_media_routes() -> Seq<(Seq<char>, HandlerRoute)> {
    seq![
        (profile_media_fetch_kind(), HandlerRoute { lane: Lane::Pull, resource: ResourceClass::Media }),
        (profile_media_cleanup_kind(), HandlerRoute { lane: Lane::Maintenance, resource: ResourceClass::Media }),
        (emoji_cleanup_kind(), HandlerRoute { lane: Lane::Maintenance, resource: ResourceClass::Media }),
        (emoji_fetch_kind(), HandlerRoute { lane: Lane::Pull, resource: ResourceClass::Media }),
        (media_fetch_kind(), HandlerRoute { lane: Lane::Pull, resource: ResourceClass::Media }),
    ]
}

fn remote_media_routes_exec() -> (v: Vec<RouteEntry>)
    ensures
        entries_view(v@) == remote_media_routes(),
        entries_valid(v@),
{
    let mut v: Vec<RouteEntry> = Vec::new();
    v.push(("rustodon.activitypub.fetch_profile_media", Lane::Pull, ResourceClass::Media));
    v.push(("rustodon.activitypub.cleanup_profile_media", Lane::Maintenance, ResourceClass::Media));
    v.push(("rustodon.activitypub.cleanup_emoji", Lane::Maintenance, ResourceClass::Media));
    v.push(("rustodon.activitypub.fetch_emoji", Lane::Pull, ResourceClass::Media));
    v.push(("rustodon.activitypub.fetch_media", Lane::Pull, ResourceClass::Media));
    proof {
        broadcast use vstd::string::is_ascii_spec_bytes;
        reveal_strlit("rustodon.activitypub.fetch_profile_media");
        assert(vstd::string::is_ascii("rustodon.activitypub.fetch_profile_media"));
        reveal_strlit("rustodon.activitypub.cleanup_profile_media");
        assert(vstd::string::is_ascii("rustodon.activitypub.cleanup_profile_media"));
        reveal_strlit("rustodon.activitypub.cleanup_emoji");
        assert(vstd::string::is_ascii("rustodon.activitypub.cleanup_emoji"));
        reveal_strlit("rustodon.activitypub.fetch_emoji");
        assert(vstd::string::is_ascii("rustodon.activitypub.fetch_emoji"));
        reveal_strlit("rustodon.activitypub.fetch_media");
        assert(vstd::string::is_ascii("rustodon.activitypub.fetch_media"));
    }
    assert(entries_view(v@) =~= remote_media_routes());
    v
}

/// Routes of inbound and outbound federation, with a writer and federation.
pub open spec fn federation_routes() -> Seq<(Seq<char>, HandlerRoute)> {
    seq![
        (inbox_kind(), HandlerRoute { lane: Lane::Ingress, resource: ResourceClass::RemoteHttp }),
        (account_update_kind(), HandlerRoute { lane: Lane::Push, resource: ResourceClass::Unlimited }),
        (account_delete_kind(), HandlerRoute { lane: Lane::Push, resource: ResourceClass::Unlimited }),
        (status_distribution_kind(), HandlerRoute { lane: Lane::Push, resource: ResourceClass::Unlimited }),
        (delivery_kind(), HandlerRoute { lane: Lane::Push, resource: ResourceClass::RemoteHttp }),
    ]
}

fn federation_routes_exec() -> (v: Vec<RouteEntry>)
    ensures
        entries_view(v@) == federation_routes(),
        entries_valid(v@),
{
    let mut v: Vec<RouteEntry> = Vec::new();
    v.push(("rustodon.activitypub.inbox", Lane::Ingress, ResourceClass::RemoteHttp));
    v.push(("rustodon.activitypub.account_update", Lane::Push, ResourceClass::Unlimited));
    v.push(("rustodon.activitypub.account_delete", Lane::Push, ResourceClass::Unlimited));
    v.push(("rustodon.activitypub.distribute_status", Lane::Push, ResourceClass::Unlimited));
    v.push(("rustodon.activitypub.deliver", Lane::Push, ResourceClass::RemoteHttp));
    proof {
        broadcast use vstd::string::is_ascii_spec_bytes;
        reveal_strlit("rustodon.activitypub.inbox");
        assert(vstd::string::is_ascii("rustodon.activitypub.inbox"));
        reveal_strlit("rustodon.activitypub.account_update");
        assert(vstd::string::is_ascii("rustodon.activitypub.account_update"));
        reveal_strlit("rustodon.activitypub.account_delete");
        assert(vstd::string::is_ascii("rustodon.activitypub.account_delete"));
        reveal_strlit("rustodon.activitypub.distribute_status");
        assert(vstd::string::is_ascii("rustodon.activitypub.distribute_status"));
        reveal_strlit("rustodon.activitypub.deliver");
        assert(vstd::string::is_ascii("rustodon.activitypub.deliver"));
    }
    assert(entries_view(v@) =~= federation_routes());
    v
}

/// Routes of outgoing mail, with a mail runtime.
pub open spec fn mail_routes() -> Seq<(Seq<char>, HandlerRoute)> {
    seq![
        (password_reset_kind(), HandlerRoute { lane: Lane::Mail, resource: ResourceClass::Unlimited }),
        (confirmation_kind(), HandlerRoute { lane: Lane::Mail, resource: ResourceClass::Unlimited }),
        (report_mail_kind(), HandlerRoute { lane: Lane::Mail, resource: ResourceClass::Unlimited }),
    ]
}

fn mail_routes_exec() -> (v: Vec<RouteEntry>)
    ensures
        entries_view(v@) == mail_routes(),
        entries_valid(v@),
{
    let mut v: Vec<RouteEntry> = Vec::new();
    v.push(("rustodon.mail.password_reset", Lane::Mail, ResourceClass::Unlimited));
    v.push(("rustodon.mail.confirmation", Lane::Mail, ResourceClass::Unlimited));
    v.push(("rustodon.mail.report", Lane::Mail, ResourceClass::Unlimited));
    proof {
        broadcast use vstd::string::is_ascii_spec_bytes;
        reveal_strlit("rustodon.mail.password_reset");
        assert(vstd::string::is_ascii("rustodon.mail.password_reset"));
        reveal_strlit("rustodon.mail.confirmation");
        assert(vstd::string::is_ascii("rustodon.mail.confirmation"));
        reveal_strlit("rustodon.mail.report");
        assert(vstd::string::is_ascii("rustodon.mail.report"));
    }
    assert(entries_view(v@) =~= mail_routes());
    v
}

/// The route that is always present: the operational cleanup.
pub open spec fn base_routes() -> Seq<(Seq<char>, HandlerRoute)> {
    seq![
        (maintenance_prune_kind(), HandlerRoute { lane: Lane::Maintenance, resource: ResourceClass::Unlimited }),
    ]
}

fn base_routes_exec() -> (v: Vec<RouteEntry>)
    ensures
        entries_view(v@) == base_routes(),
        entries_valid(v@),
{
    let mut v: Vec<RouteEntry> = Vec::new();
    v.push(("rustodon.maintenance.prune", Lane::Maintenance, ResourceClass::Unlimited));
    proof {
        broadcast use vstd::string::is_ascii_spec_bytes;
        reveal_strlit("rustodon.maintenance.prune");
        assert(vstd::string::is_ascii("rustodon.maintenance.prune"));
    }
    assert(entries_view(v@) =~= base_routes());
    v
}

/// The routes the worker registers, in registration order: local uploads (with a writer and
/// a media root), the writer's jobs, remote resolution, remote media (with a media root),
/// federation, mail, and the operational cleanup. The media root belongs to the federation
/// configuration, so it counts only with federation.
pub open spec fn infrastructure_entries(writer: bool, mail: bool, federation: bool, media_root: bool)
    -> Seq<(Seq<char>, HandlerRoute)> {
    let media = writer && federation && media_root;
    let none = Seq::<(Seq<char>, HandlerRoute)>::empty();
    (if media { upload_routes() } else { none })
        + (if writer { writer_routes() } else { none })
        + (if writer && federation { resolve_routes() } else { none })
        + (if media { remote_media_routes() } else { none })
        + (if writer && federation { federation_routes() } else { none })
        + (if mail { mail_routes() } else { none })
        + base_routes()
}

/// The route of each job kind for a configuration.
pub open spec fn infrastructure_route_spec(kind: Seq<char>, writer: bool, mail: bool, federation: bool, media_root: bool)
    -> Option<HandlerRoute> {
    entries_route(infrastructure_entries(writer, mail, federation, media_root), kind, None)
}

/// Registers route entries in order; stops at the first registration the registry refuses.
fn register_all(registry: &mut HandlerRegistry, entries: &Vec<RouteEntry>) -> (r: Result<(), WorkerError>)
    requires
        old(registry).wf(),
    ensures
        final(registry).wf(),
        r is Ok ==> forall|k: Seq<char>| #[trigger] final(registry).route_of(k)
            == entries_route(entries_view(entries@), k, old(registry).route_of(k)),
        entries_valid(entries@) && kinds_distinct(entries_view(entries@))
            && (forall|i: int| 0 <= i < entries@.len() ==> old(registry).route_of((#[trigger] entries@[i]).0@) is None)
            ==> r is Ok,
{
    let ghost before = *registry;
    let ghost promised = entries_valid(entries@) && kinds_distinct(entries_view(entries@))
        && (forall|j: int| 0 <= j < entries@.len() ==> before.route_of((#[trigger] entries@[j]).0@) is None);
    let mut i: usize = 0;
    while i < entries.len()
        invariant
            registry.wf(),
            i <= entries@.len(),
            before == *old(registry),
            promised == (entries_valid(entries@) && kinds_distinct(entries_view(entries@))
                && (forall|j: int| 0 <= j < entries@.len() ==> before.route_of((#[trigger] entries@[j]).0@) is None)),
            forall|k: Seq<char>| #[trigger] registry.route_of(k)
                == entries_route(entries_view(entries@.take(i as int)), k, before.route_of(k)),
        decreases entries@.len() - i,
    {
        let (kind, lane, resource) = entries[i];
        proof {
            broadcast use vstd::string::is_ascii_spec_bytes;
            if entries_valid(entries@) && kinds_distinct(entries_view(entries@))
                && (forall|j: int| 0 <= j < entries@.len() ==> before.route_of((#[trigger] entries@[j]).0@) is None) {
                let prefix = entries_view(entries@.take(i as int));
                assert forall|j: int| 0 <= j < prefix.len() implies (#[trigger] prefix[j]).0 != kind@ by {
                    assert(prefix[j] == entries_view(entries@)[j]);
                    assert(entries_view(entries@)[i as int].0 == kind@);
                }
                assert(before.route_of(entries@[i as int].0@) is None);
                lemma_entries_route_absent(prefix, kind@, before.route_of(kind@));
                assert(entries@[i as int].0 == kind);
                assert(vstd::string::is_ascii(kind));
                assert(kind.spec_bytes().len() == kind@.len());
            }
        }
        match registry.register(kind, lane, resource) {
            Ok(()) => {},
            Err(e) => {
                assert(!promised);
                assert(before == *old(registry));
                return Err(e);
            },
        }
        proof {
            let prefix = entries_view(entries@.take(i as int));
            assert(entries_view(entries@.take(i + 1)) =~= prefix.push(entry_view(entries@[i as int])));
            assert forall|k: Seq<char>| #[trigger] registry.route_of(k)
                == entries_route(entries_view(entries@.take(i + 1)), k, before.route_of(k)) by {
                assert(prefix.push(entry_view(entries@[i as int])).drop_last() =~= prefix);
            }
        }
        i = i + 1;
    }
    proof {
        assert(entries@.take(i as int) =~= entries@);
    }
    Ok(())
}

/// The handler routes of the worker for a configuration: which job kinds are served, on
/// which lane, holding which resource. With a writer, the Mastodon table jobs; with
/// federation too, resolution, inbox and delivery; with a media root too, media jobs;
/// with mail, the mail jobs; and always the operational cleanup.
pub fn infrastructure_routes(writer: bool, mail: bool, federation: bool, media_root: bool)
    -> (r: Result<HandlerRegistry, WorkerError>)
    ensures
        r matches Ok(registry) && registry.wf() && forall|k: Seq<char>| #[trigger] registry.route_of(k)
            == infrastructure_route_spec(k, writer, mail, federation, media_root),
{
    let media = writer && federation && media_root;
    let mut entries: Vec<RouteEntry> = Vec::new();
    let ghost none = Seq::<(Seq<char>, HandlerRoute)>::empty();
    if media {
        let mut g = upload_routes_exec();
        append_valid(&mut entries, &mut g);
    }
    assert(entries_view(entries@) =~= (if media { upload_routes() } else { none }));
    let ghost v1 = entries_view(entries@);
    if writer {
        let mut g = writer_routes_exec();
        append_valid(&mut entries, &mut g);
    }
    assert(entries_view(entries@) =~= v1 + (if writer { writer_routes() } else { none }));
    let ghost v2 = entries_view(entries@);
    if writer && federation {
        let mut g = resolve_routes_exec();
        append_valid(&mut entries, &mut g);
    }
    assert(entries_view(entries@) =~= v2 + (if writer && federation { resolve_routes() } else { none }));
    let ghost v3 = entries_view(entries@);
    if media {
        let mut g = remote_media_routes_exec();
        append_valid(&mut entries, &mut g);
    }
    assert(entries_view(entries@) =~= v3 + (if media { remote_media_routes() } else { none }));
    let ghost v4 = entries_view(entries@);
    if writer && federation {
        let mut g = federation_routes_exec();
        append_valid(&mut entries, &mut g);
    }
    assert(entries_view(entries@) =~= v4 + (if writer && federation { federation_routes() } else { none }));
    let ghost v5 = entries_view(entries@);
    if mail {
        let mut g = mail_routes_exec();
        append_valid(&mut entries, &mut g);
    }
    assert(entries_view(entries@) =~= v5 + (if mail { mail_routes() } else { none }));
    let ghost v6 = entries_view(entries@);
    let mut g = base_routes_exec();
    append_valid(&mut entries, &mut g);
    assert(entries_view(entries@) =~= v6 + base_routes());
    assert(entries_view(entries@) =~= infrastructure_entries(writer, mail, federation, media_root));
    proof {
        lemma_infrastructure_distinct(writer, mail, federation, media_root);
    }
    let mut registry = HandlerRegistry::new();
    match register_all(&mut registry, &entries) {
        Ok(()) => Ok(registry),
        Err(e) => Err(e),
    }
}

/// The lengths of the route kinds, which tell most of them apart.
proof fn lemma_kind_lengths()
    ensures
        local_media_cleanup_kind().len() == 37,
        status_notification_kind().len() == 37,
        notification_create_kind().len() == 37,
        poll_expiration_kind().len() == 29,
        notification_unfilter_kind().len() == 40,
        notification_cleanup_kind().len() == 39,
        delete_mute_kind().len() == 29,
        account_purge_kind().len() == 31,
        domain_block_kind().len() == 30,
        domain_purge_kind().len() == 30,
        thread_resolve_kind().len() == 35,
        profile_media_fetch_kind().len() == 40,
        profile_media_cleanup_kind().len() == 42,
        emoji_cleanup_kind().len() == 34,
        emoji_fetch_kind().len() == 32,
        media_fetch_kind().len() == 32,
        inbox_kind().len() == 26,
        account_update_kind().len() == 35,
        account_delete_kind().len() == 35,
        password_reset_kind().len() == 28,
        confirmation_kind().len() == 26,
        report_mail_kind().len() == 20,
        process_upload_kind().len() == 38,
        recover_uploads_kind().len() == 39,
        reconcile_job_kind().len() == 44,
        note_resolve_kind().len() == 33,
        announce_resolve_kind().len() == 37,
        status_distribution_kind().len() == 38,
        delivery_kind().len() == 28,
        maintenance_prune_kind().len() == 26,
        inbox_kind()[9] == 'a',
        confirmation_kind()[9] == 'm',
        maintenance_prune_kind()[9] == 'm',
        local_media_cleanup_kind()[18] == 'c',
        status_notification_kind()[18] == 's',
        notification_create_kind()[18] == 'c',
        local_media_cleanup_kind()[19] == 'l',
        notification_create_kind()[19] == 'r',
        local_media_cleanup_kind()[9] == 'm',
        status_notification_kind()[9] == 'm',
        notification_create_kind()[9] == 'm',
        announce_resolve_kind()[9] == 'a',
        process_upload_kind()[9] == 'm',
        status_distribution_kind()[9] == 'a',
        recover_uploads_kind()[18] == 'r',
        notification_cleanup_kind()[18] == 'c',
        poll_expiration_kind()[18] == 'e',
        delete_mute_kind()[18] == 'd',
        domain_block_kind()[18] == 'b',
        domain_purge_kind()[18] == 'p',
        thread_resolve_kind()[21] == 'r',
        account_update_kind()[21] == 'a',
        account_delete_kind()[21] == 'a',
        account_update_kind()[29] == 'u',
        account_delete_kind()[29] == 'd',
        notification_unfilter_kind()[9] == 'm',
        profile_media_fetch_kind()[9] == 'a',
        emoji_fetch_kind()[27] == 'e',
        media_fetch_kind()[27] == 'm',
        confirmation_kind()[12] == 'l',
        maintenance_prune_kind()[12] == 'n',
        delivery_kind()[9] == 'a',
        password_reset_kind()[9] == 'm',
{
    reveal_strlit("rustodon.mastodon.cleanup_local_media");
    reveal_strlit("rustodon.mastodon.status_notification");
    reveal_strlit("rustodon.mastodon.create_notification");
    reveal_strlit("rustodon.mastodon.expire_poll");
    reveal_strlit("rustodon.mastodon.unfilter_notifications");
    reveal_strlit("rustodon.mastodon.cleanup_notifications");
    reveal_strlit("rustodon.mastodon.delete_mute");
    reveal_strlit("rustodon.mastodon.purge_account");
    reveal_strlit("rustodon.mastodon.block_domain");
    reveal_strlit("rustodon.mastodon.purge_domain");
    reveal_strlit("rustodon.activitypub.resolve_thread");
    reveal_strlit("rustodon.activitypub.fetch_profile_media");
    reveal_strlit("rustodon.activitypub.cleanup_profile_media");
    reveal_strlit("rustodon.activitypub.cleanup_emoji");
    reveal_strlit("rustodon.activitypub.fetch_emoji");
    reveal_strlit("rustodon.activitypub.fetch_media");
    reveal_strlit("rustodon.activitypub.inbox");
    reveal_strlit("rustodon.activitypub.account_update");
    reveal_strlit("rustodon.activitypub.account_delete");
    reveal_strlit("rustodon.mail.password_reset");
    reveal_strlit("rustodon.mail.confirmation");
    reveal_strlit("rustodon.mail.report");
    reveal_strlit("rustodon.mastodon.process_local_upload");
    reveal_strlit("rustodon.mastodon.recover_local_uploads");
    reveal_strlit("rustodon.mastodon.reconcile_poll_expirations");
    reveal_strlit("rustodon.activitypub.resolve_note");
    reveal_strlit("rustodon.activitypub.resolve_announce");
    reveal_strlit("rustodon.activitypub.distribute_status");
    reveal_strlit("rustodon.activitypub.deliver");
    reveal_strlit("rustodon.maintenance.prune");
}

/// Routes after a concatenation are the routes of the second part over those of the first.
proof fn lemma_entries_route_concat(
    a: Seq<(Seq<char>, HandlerRoute)>,
    b: Seq<(Seq<char>, HandlerRoute)>,
    kind: Seq<char>,
    before: Option<HandlerRoute>,
)
    ensures
        entries_route(a + b, kind, before) == entries_route(b, kind, entries_route(a, kind, before)),
    decreases b.len(),
{
    if b.len() > 0 {
        assert((a + b).drop_last() =~= a + b.drop_last());
        assert((a + b).last() == b.last());
        lemma_entries_route_concat(a, b.drop_last(), kind, before);
    } else {
        assert(a + b =~= a);
    }
}

/// Entries of other kinds leave a kind's route as it was.
proof fn lemma_entries_route_absent(es: Seq<(Seq<char>, HandlerRoute)>, kind: Seq<char>, before: Option<HandlerRoute>)
    requires
        forall|i: int| 0 <= i < es.len() ==> (#[trigger] es[i]).0 != kind,
    ensures
        entries_route(es, kind, before) == before,
    decreases es.len(),
{
    if es.len() > 0 {
        assert(es.last() == es[es.len() - 1]);
        lemma_entries_route_absent(es.drop_last(), kind, before);
    }
}

/// The last entry of a kind decides its route.
proof fn lemma_entries_route_last(es: Seq<(Seq<char>, HandlerRoute)>, j: int, kind: Seq<char>, before: Option<HandlerRoute>)
    requires
        0 <= j < es.len(),
        es[j].0 == kind,
        forall|i: int| j < i < es.len() ==> (#[trigger] es[i]).0 != kind,
    ensures
        entries_route(es, kind, before) == Some(es[j].1),
    decreases es.len(),
{
    if j < es.len() - 1 {
        assert(es.last() == es[es.len() - 1]);
        assert forall|i: int| j < i < es.drop_last().len() implies (#[trigger] es.drop_last()[i]).0 != kind by {
            assert(es.drop_last()[i] == es[i]);
        }
        lemma_entries_route_last(es.drop_last(), j, kind, before);
    }
}

/// A route comes either from before or from one of the entries.
proof fn lemma_entries_route_source(es: Seq<(Seq<char>, HandlerRoute)>, kind: Seq<char>, before: Option<HandlerRoute>)
    ensures
        entries_route(es, kind, before) == before
            || exists|i: int| 0 <= i < es.len() && entries_route(es, kind, before) == Some((#[trigger] es[i]).1),
    decreases es.len(),
{
    if es.len() > 0 {
        assert(es.last() == es[es.len() - 1]);
        lemma_entries_route_source(es.drop_last(), kind, before);
        if entries_route(es.drop_last(), kind, before) != before && es.last().0 != kind {
            let i = choose|i: int| 0 <= i < es.drop_last().len()
                && entries_route(es.drop_last(), kind, before) == Some((#[trigger] es.drop_last()[i]).1);
            assert(es[i] == es.drop_last()[i]);
        }
    }
}

/// Whether a configuration should serve a lane: maintenance always, core with a writer,
/// ingress, push and pull with a writer and federation, mail with mail.
pub open spec fn lane_expected(lane: Lane, writer: bool, mail: bool, federation: bool) -> bool {
    match lane {
        Lane::Maintenance => true,
        Lane::Core => writer,
        Lane::Ingress | Lane::Push | Lane::Pull => writer && federation,
        Lane::Mail => mail,
    }
}

/// A group, when it is included.
pub open spec fn included(cond: bool, group: Seq<(Seq<char>, HandlerRoute)>) -> Seq<(Seq<char>, HandlerRoute)> {
    if cond { group } else { Seq::empty() }
}

/// Every lane of an included group is expected.
pub open spec fn lanes_expected(es: Seq<(Seq<char>, HandlerRoute)>, writer: bool, mail: bool, federation: bool) -> bool {
    forall|i: int| 0 <= i < es.len() ==> lane_expected((#[trigger] es[i]).1.lane, writer, mail, federation)
}

proof fn lemma_group_lanes(writer: bool, mail: bool, federation: bool, media_root: bool)
    ensures
        lanes_expected(included(writer && federation && media_root, upload_routes()), writer, mail, federation),
        lanes_expected(included(writer, writer_routes()), writer, mail, federation),
        lanes_expected(included(writer && federation, resolve_routes()), writer, mail, federation),
        lanes_expected(included(writer && federation && media_root, remote_media_routes()), writer, mail, federation),
        lanes_expected(included(writer && federation, federation_routes()), writer, mail, federation),
        lanes_expected(included(mail, mail_routes()), writer, mail, federation),
        lanes_expected(base_routes(), writer, mail, federation),
{
}

/// The routes of a configuration, group by group.
proof fn lemma_route_by_groups(kind: Seq<char>, writer: bool, mail: bool, federation: bool, media_root: bool)
    ensures
        infrastructure_route_spec(kind, writer, mail, federation, media_root) == {
            let media = writer && federation && media_root;
            let r0 = entries_route(included(media, upload_routes()), kind, None);
            let r1 = entries_route(included(writer, writer_routes()), kind, r0);
            let r2 = entries_route(included(writer && federation, resolve_routes()), kind, r1);
            let r3 = entries_route(included(media, remote_media_routes()), kind, r2);
            let r4 = entries_route(included(writer && federation, federation_routes()), kind, r3);
            let r5 = entries_route(included(mail, mail_routes()), kind, r4);
            entries_route(base_routes(), kind, r5)
        },
{
    let media = writer && federation && media_root;
    let g0 = included(media, upload_routes());
    let g1 = included(writer, writer_routes());
    let g2 = included(writer && federation, resolve_routes());
    let g3 = included(media, remote_media_routes());
    let g4 = included(writer && federation, federation_routes());
    let g5 = included(mail, mail_routes());
    let g6 = base_routes();
    assert(infrastructure_entries(writer, mail, federation, media_root) =~= g0 + g1 + g2 + g3 + g4 + g5 + g6);
    lemma_entries_route_concat(g0 + g1 + g2 + g3 + g4 + g5, g6, kind, None);
    lemma_entries_route_concat(g0 + g1 + g2 + g3 + g4, g5, kind, None);
    lemma_entries_route_concat(g0 + g1 + g2 + g3, g4, kind, None);
    lemma_entries_route_concat(g0 + g1 + g2, g3, kind, None);
    lemma_entries_route_concat(g0 + g1, g2, kind, None);
    lemma_entries_route_concat(g0, g1, kind, None);
}

/// A route from a group whose lanes are all expected has an expected lane.
proof fn lemma_step_expected(
    g: Seq<(Seq<char>, HandlerRoute)>,
    kind: Seq<char>,
    before: Option<HandlerRoute>,
    writer: bool,
    mail: bool,
    federation: bool,
)
    requires
        lanes_expected(g, writer, mail, federation),
        before matches Some(r) ==> lane_expected(r.lane, writer, mail, federation),
    ensures
        entries_route(g, kind, before) matches Some(r) ==> lane_expected(r.lane, writer, mail, federation),
{
    lemma_entries_route_source(g, kind, before);
}

/// The served lanes of a configuration: the maintenance lane always; the core lane with a
/// writer; the ingress, push and pull lanes with a writer and federation; the mail lane
/// with mail.
pub proof fn lemma_infrastructure_lanes(writer: bool, mail: bool, federation: bool, media_root: bool, lane: Lane)
    ensures
        (exists|kind: Seq<char>| #[trigger] infrastructure_route_spec(kind, writer, mail, federation, media_root)
            matches Some(r) && r.lane == lane) <==> lane_expected(lane, writer, mail, federation),
{
    let media = writer && federation && media_root;
    lemma_group_lanes(writer, mail, federation, media_root);
    assert forall|kind: Seq<char>| #[trigger] infrastructure_route_spec(kind, writer, mail, federation, media_root)
        matches Some(r) ==> lane_expected(r.lane, writer, mail, federation) by {
        lemma_route_by_groups(kind, writer, mail, federation, media_root);
        let r0 = entries_route(included(media, upload_routes()), kind, None);
        let r1 = entries_route(included(writer, writer_routes()), kind, r0);
        let r2 = entries_route(included(writer && federation, resolve_routes()), kind, r1);
        let r3 = entries_route(included(media, remote_media_routes()), kind, r2);
        let r4 = entries_route(included(writer && federation, federation_routes()), kind, r3);
        let r5 = entries_route(included(mail, mail_routes()), kind, r4);
        lemma_step_expected(included(media, upload_routes()), kind, None, writer, mail, federation);
        lemma_step_expected(included(writer, writer_routes()), kind, r0, writer, mail, federation);
        lemma_step_expected(included(writer && federation, resolve_routes()), kind, r1, writer, mail, federation);
        lemma_step_expected(included(media, remote_media_routes()), kind, r2, writer, mail, federation);
        lemma_step_expected(included(writer && federation, federation_routes()), kind, r3, writer, mail, federation);
        lemma_step_expected(included(mail, mail_routes()), kind, r4, writer, mail, federation);
        lemma_step_expected(base_routes(), kind, r5, writer, mail, federation);
    }
    if lane_expected(lane, writer, mail, federation) {
        let kind = match lane {
            Lane::Maintenance => maintenance_prune_kind(),
            Lane::Core => notification_cleanup_kind(),
            Lane::Ingress => inbox_kind(),
            Lane::Push => account_delete_kind(),
            Lane::Pull => announce_resolve_kind(),
            Lane::Mail => report_mail_kind(),
        };
        lemma_witness_route(kind, lane, writer, mail, federation, media_root);
    }
}

/// The kind that shows a lane is served.
proof fn lemma_witness_route(kind: Seq<char>, lane: Lane, writer: bool, mail: bool, federation: bool, media_root: bool)
    requires
        lane_expected(lane, writer, mail, federation),
        kind == match lane {
            Lane::Maintenance => maintenance_prune_kind(),
            Lane::Core => notification_cleanup_kind(),
            Lane::Ingress => inbox_kind(),
            Lane::Push => account_delete_kind(),
            Lane::Pull => announce_resolve_kind(),
            Lane::Mail => report_mail_kind(),
        },
    ensures
        infrastructure_route_spec(kind, writer, mail, federation, media_root) matches Some(r) && r.lane == lane,
{
    let media = writer && federation && media_root;
    lemma_kind_lengths();
    lemma_route_by_groups(kind, writer, mail, federation, media_root);
    let g0 = included(media, upload_routes());
    let g1 = included(writer, writer_routes());
    let g2 = included(writer && federation, resolve_routes());
    let g3 = included(media, remote_media_routes());
    let g4 = included(writer && federation, federation_routes());
    let g5 = included(mail, mail_routes());
    let g6 = base_routes();
    let r0 = entries_route(g0, kind, None);
    let r1 = entries_route(g1, kind, r0);
    let r2 = entries_route(g2, kind, r1);
    let r3 = entries_route(g3, kind, r2);
    let r4 = entries_route(g4, kind, r3);
    let r5 = entries_route(g5, kind, r4);
    assert(inbox_kind() != confirmation_kind());
    assert(inbox_kind() != maintenance_prune_kind());
    match lane {
        Lane::Maintenance => {
            lemma_entries_route_last(g6, 0, kind, r5);
        },
        Lane::Core => {
            lemma_entries_route_last(g1, 5, kind, r0);
            lemma_entries_route_absent(g2, kind, r1);
            lemma_entries_route_absent(g3, kind, r2);
            lemma_entries_route_absent(g4, kind, r3);
            lemma_entries_route_absent(g5, kind, r4);
            lemma_entries_route_absent(g6, kind, r5);
        },
        Lane::Pull => {
            lemma_entries_route_last(g2, 1, kind, r1);
            lemma_entries_route_absent(g3, kind, r2);
            lemma_entries_route_absent(g4, kind, r3);
            lemma_entries_route_absent(g5, kind, r4);
            lemma_entries_route_absent(g6, kind, r5);
        },
        Lane::Ingress => {
            lemma_entries_route_last(g4, 0, kind, r3);
            lemma_entries_route_absent(g5, kind, r4);
            lemma_entries_route_absent(g6, kind, r5);
        },
        Lane::Push => {
            lemma_entries_route_last(g4, 2, kind, r3);
            lemma_entries_route_absent(g5, kind, r4);
            lemma_entries_route_absent(g6, kind, r5);
        },
        Lane::Mail => {
            lemma_entries_route_last(g5, 2, kind, r4);
            lemma_entries_route_absent(g6, kind, r5);
        },
    }
}

/// The lanes a registry built by `infrastructure_routes` serves.
pub proof fn lemma_infrastructure_registry_lanes(
    registry: HandlerRegistry,
    writer: bool,
    mail: bool,
    federation: bool,
    media_root: bool,
    lane: Lane,
)
    requires
        forall|k: Seq<char>| #[trigger] registry.route_of(k)
            == infrastructure_route_spec(k, writer, mail, federation, media_root),
    ensures
        registry.lane_served(lane) <==> lane_expected(lane, writer, mail, federation),
{
    lemma_infrastructure_lanes(writer, mail, federation, media_root, lane);
    if registry.lane_served(lane) {
        let k = choose|k: Seq<char>| #[trigger] registry.route_of(k) matches Some(r) && r.lane == lane;
        assert(infrastructure_route_spec(k, writer, mail, federation, media_root) matches Some(r) && r.lane == lane);
    }
    if lane_expected(lane, writer, mail, federation) {
        let k = choose|k: Seq<char>| #[trigger] infrastructure_route_spec(k, writer, mail, federation, media_root)
            matches Some(r) && r.lane == lane;
        assert(registry.route_of(k) matches Some(r) && r.lane == lane);
    }
}

fn append_valid(entries: &mut Vec<RouteEntry>, more: &mut Vec<RouteEntry>)
    requires
        entries_valid(old(entries)@),
        entries_valid(old(more)@),
    ensures
        final(entries)@ == old(entries)@ + old(more)@,
        entries_valid(final(entries)@),
{
    let ghost a = entries@;
    let ghost b = more@;
    entries.append(more);
    assert forall|i: int| 0 <= i < entries@.len() implies {
        &&& vstd::string::is_ascii((#[trigger] entries@[i]).0)
        &&& 1 <= entries@[i].0@.len()
        &&& entries@[i].0.len() <= 128
    } by {
        if i < a.len() {
            assert(entries@[i] == a[i]);
        } else {
            assert(entries@[i] == b[i - a.len()]);
        }
    }
}

/// Concatenating entry lists with no kind in common keeps the kinds distinct.
proof fn lemma_distinct_concat(a: Seq<(Seq<char>, HandlerRoute)>, b: Seq<(Seq<char>, HandlerRoute)>)
    requires
        kinds_distinct(a),
        kinds_distinct(b),
        forall|i: int, j: int| 0 <= i < a.len() && 0 <= j < b.len() ==> (#[trigger] a[i]).0 != (#[trigger] b[j]).0,
    ensures
        kinds_distinct(a + b),
{
    assert forall|i: int, j: int| 0 <= i < j < (a + b).len() implies (#[trigger] (a + b)[i]).0 != (#[trigger] (a + b)[j]).0 by {
        if j < a.len() {
            assert((a + b)[i] == a[i] && (a + b)[j] == a[j]);
        } else if i < a.len() {
            assert((a + b)[i] == a[i] && (a + b)[j] == b[j - a.len()]);
        } else {
            assert((a + b)[i] == b[i - a.len()] && (a + b)[j] == b[j - a.len()]);
        }
    }
}

/// No group repeats a kind, and no two groups share one.
proof fn lemma_groups_distinct()
    ensures
        kinds_distinct(upload_routes()),
        kinds_distinct(writer_routes()),
        kinds_distinct(resolve_routes()),
        kinds_distinct(remote_media_routes()),
        kinds_distinct(federation_routes()),
        kinds_distinct(mail_routes()),
        kinds_distinct(base_routes()),
        disjoint(upload_routes(), writer_routes()),
        disjoint(upload_routes(), resolve_routes()),
        disjoint(upload_routes(), remote_media_routes()),
        disjoint(upload_routes(), federation_routes()),
        disjoint(upload_routes(), mail_routes()),
        disjoint(upload_routes(), base_routes()),
        disjoint(writer_routes(), resolve_routes()),
        disjoint(writer_routes(), remote_media_routes()),
        disjoint(writer_routes(), federation_routes()),
        disjoint(writer_routes(), mail_routes()),
        disjoint(writer_routes(), base_routes()),
        disjoint(resolve_routes(), remote_media_routes()),
        disjoint(resolve_routes(), federation_routes()),
        disjoint(resolve_routes(), mail_routes()),
        disjoint(resolve_routes(), base_routes()),
        disjoint(remote_media_routes(), federation_routes()),
        disjoint(remote_media_routes(), mail_routes()),
        disjoint(remote_media_routes(), base_routes()),
        disjoint(federation_routes(), mail_routes()),
        disjoint(federation_routes(), base_routes()),
        disjoint(mail_routes(), base_routes()),
{
    lemma_kind_lengths();
}

/// Two entry lists share no kind.
pub open spec fn disjoint(a: Seq<(Seq<char>, HandlerRoute)>, b: Seq<(Seq<char>, HandlerRoute)>) -> bool {
    forall|i: int, j: int| 0 <= i < a.len() && 0 <= j < b.len() ==> (#[trigger] a[i]).0 != (#[trigger] b[j]).0
}

proof fn lemma_disjoint_concat(a: Seq<(Seq<char>, HandlerRoute)>, b: Seq<(Seq<char>, HandlerRoute)>, c: Seq<(Seq<char>, HandlerRoute)>)
    requires
        disjoint(a, c),
        disjoint(b, c),
    ensures
        disjoint(a + b, c),
{
    assert forall|i: int, j: int| 0 <= i < (a + b).len() && 0 <= j < c.len() implies (#[trigger] (a + b)[i]).0 != (#[trigger] c[j]).0 by {
        if i < a.len() {
            assert((a + b)[i] == a[i]);
        } else {
            assert((a + b)[i] == b[i - a.len()]);
        }
    }
}

proof fn lemma_disjoint_included(a: Seq<(Seq<char>, HandlerRoute)>, b: Seq<(Seq<char>, HandlerRoute)>, ga: Seq<(Seq<char>, HandlerRoute)>, gb: Seq<(Seq<char>, HandlerRoute)>)
    requires
        disjoint(ga, gb),
        a == ga || a.len() == 0,
        b == gb || b.len() == 0,
    ensures
        disjoint(a, b),
{
}

proof fn lemma_distinct_included(a: Seq<(Seq<char>, HandlerRoute)>, ga: Seq<(Seq<char>, HandlerRoute)>)
    requires
        kinds_distinct(ga),
        a == ga || a.len() == 0,
    ensures
        kinds_distinct(a),
{
}

/// The kinds of any configuration are distinct.
proof fn lemma_infrastructure_distinct(writer: bool, mail: bool, federation: bool, media_root: bool)
    ensures
        kinds_distinct(infrastructure_entries(writer, mail, federation, media_root)),
{
    let media = writer && federation && media_root;
    lemma_groups_distinct();
    let g0 = included(media, upload_routes());
    let g1 = included(writer, writer_routes());
    let g2 = included(writer && federation, resolve_routes());
    let g3 = included(media, remote_media_routes());
    let g4 = included(writer && federation, federation_routes());
    let g5 = included(mail, mail_routes());
    let g6 = base_routes();
    lemma_distinct_included(g0, upload_routes());
    lemma_distinct_included(g1, writer_routes());
    lemma_distinct_included(g2, resolve_routes());
    lemma_distinct_included(g3, remote_media_routes());
    lemma_distinct_included(g4, federation_routes());
    lemma_distinct_included(g5, mail_routes());
    lemma_distinct_included(g6, base_routes());
    lemma_disjoint_included(g0, g1, upload_routes(), writer_routes());
    lemma_distinct_concat(g0, g1);
    lemma_disjoint_included(g0, g2, upload_routes(), resolve_routes());
    lemma_disjoint_included(g1, g2, writer_routes(), resolve_routes());
    lemma_disjoint_concat(g0, g1, g2);
    lemma_distinct_concat(g0 + g1, g2);
    lemma_disjoint_included(g0, g3, upload_routes(), remote_media_routes());
    lemma_disjoint_included(g1, g3, writer_routes(), remote_media_routes());
    lemma_disjoint_included(g2, g3, resolve_routes(), remote_media_routes());
    lemma_disjoint_concat(g0, g1, g3);
    lemma_disjoint_concat(g0 + g1, g2, g3);
    lemma_distinct_concat(g0 + g1 + g2, g3);
    lemma_disjoint_included(g0, g4, upload_routes(), federation_routes());
    lemma_disjoint_included(g1, g4, writer_routes(), federation_routes());
    lemma_disjoint_included(g2, g4, resolve_routes(), federation_routes());
    lemma_disjoint_included(g3, g4, remote_media_routes(), federation_routes());
    lemma_disjoint_concat(g0, g1, g4);
    lemma_disjoint_concat(g0 + g1, g2, g4);
    lemma_disjoint_concat(g0 + g1 + g2, g3, g4);
    lemma_distinct_concat(g0 + g1 + g2 + g3, g4);
    lemma_disjoint_included(g0, g5, upload_routes(), mail_routes());
    lemma_disjoint_included(g1, g5, writer_routes(), mail_routes());
    lemma_disjoint_included(g2, g5, resolve_routes(), mail_routes());
    lemma_disjoint_included(g3, g5, remote_media_routes(), mail_routes());
    lemma_disjoint_included(g4, g5, federation_routes(), mail_routes());
    lemma_disjoint_concat(g0, g1, g5);
    lemma_disjoint_concat(g0 + g1, g2, g5);
    lemma_disjoint_concat(g0 + g1 + g2, g3, g5);
    lemma_disjoint_concat(g0 + g1 + g2 + g3, g4, g5);
    lemma_distinct_concat(g0 + g1 + g2 + g3 + g4, g5);
    lemma_disjoint_included(g0, g6, upload_routes(), base_routes());
    lemma_disjoint_included(g1, g6, writer_routes(), base_routes());
    lemma_disjoint_included(g2, g6, resolve_routes(), base_routes());
    lemma_disjoint_included(g3, g6, remote_media_routes(), base_routes());
    lemma_disjoint_included(g4, g6, federation_routes(), base_routes());
    lemma_disjoint_included(g5, g6, mail_routes(), base_routes());
    lemma_disjoint_concat(g0, g1, g6);
    lemma_disjoint_concat(g0 + g1, g2, g6);
    lemma_disjoint_concat(g0 + g1 + g2, g3, g6);
    lemma_disjoint_concat(g0 + g1 + g2 + g3, g4, g6);
    lemma_disjoint_concat(g0 + g1 + g2 + g3 + g4, g5, g6);
    lemma_distinct_concat(g0 + g1 + g2 + g3 + g4 + g5, g6);
    assert(infrastructure_entries(writer, mail, federation, media_root) =~= g0 + g1 + g2 + g3 + g4 + g5 + g6);
}

/// The entry at a position of a configuration's routes is the route of its kind.
proof fn lemma_route_at(writer: bool, mail: bool, federation: bool, media_root: bool, j: int)
    requires
        0 <= j < infrastructure_entries(writer, mail, federation, media_root).len(),
    ensures
        infrastructure_route_spec(infrastructure_entries(writer, mail, federation, media_root)[j].0, writer, mail,
            federation, media_root) == Some(infrastructure_entries(writer, mail, federation, media_root)[j].1),
{
    let es = infrastructure_entries(writer, mail, federation, media_root);
    lemma_infrastructure_distinct(writer, mail, federation, media_root);
    assert forall|i: int| j < i < es.len() implies (#[trigger] es[i]).0 != es[j].0 by {
        assert(es[j].0 != es[i].0);
    }
    lemma_entries_route_last(es, j, es[j].0, None);
}

/// The route of every job kind when the worker has a writer, mail, federation and a media
/// root: the lane it is claimed from and the resource it holds.
pub proof fn lemma_full_route_table()
    ensures
        infrastructure_route_spec("rustodon.mastodon.process_local_upload"@, true, true, true, true)
            == Some(HandlerRoute { lane: Lane::Maintenance, resource: ResourceClass::Media }),
        infrastructure_route_spec("rustodon.mastodon.recover_local_uploads"@, true, true, true, true)
            == Some(HandlerRoute { lane: Lane::Maintenance, resource: ResourceClass::Media }),
        infrastructure_route_spec("rustodon.mastodon.cleanup_local_media"@, true, true, true, true)
            == Some(HandlerRoute { lane: Lane::Maintenance, resource: ResourceClass::Media }),
        infrastructure_route_spec("rustodon.mastodon.status_notification"@, true, true, true, true)
            == Some(HandlerRoute { lane: Lane::Core, resource: ResourceClass::Unlimited }),
        infrastructure_route_spec("rustodon.mastodon.create_notification"@, true, true, true, true)
            == Some(HandlerRoute { lane: Lane::Core, resource: ResourceClass::Unlimited }),
        infrastructure_route_spec("rustodon.mastodon.expire_poll"@, true, true, true, true)
            == Some(HandlerRoute { lane: Lane::Core, resource: ResourceClass::Unlimited }),
        infrastructure_route_spec("rustodon.mastodon.reconcile_poll_expirations"@, true, true, true, true)
            == Some(HandlerRoute { lane: Lane::Maintenance, resource: ResourceClass::Unlimited }),
        infrastructure_route_spec("rustodon.mastodon.unfilter_notifications"@, true, true, true, true)
            == Some(HandlerRoute { lane: Lane::Core, resource: ResourceClass::Unlimited }),
        infrastructure_route_spec("rustodon.mastodon.cleanup_notifications"@, true, true, true, true)
            == Some(HandlerRoute { lane: Lane::Core, resource: ResourceClass::Unlimited }),
        infrastructure_route_spec("rustodon.mastodon.delete_mute"@, true, true, true, true)
            == Some(HandlerRoute { lane: Lane::Maintenance, resource: ResourceClass::Unlimited }),
        infrastructure_route_spec("rustodon.mastodon.purge_account"@, true, true, true, true)
            == Some(HandlerRoute { lane: Lane::Maintenance, resource: ResourceClass::Media }),
        infrastructure_route_spec("rustodon.mastodon.block_domain"@, true, true, true, true)
            == Some(HandlerRoute { lane: Lane::Maintenance, resource: ResourceClass::Media }),
        infrastructure_route_spec("rustodon.mastodon.purge_domain"@, true, true, true, true)
            == Some(HandlerRoute { lane: Lane::Maintenance, resource: ResourceClass::Media }),
        infrastructure_route_spec("rustodon.activitypub.resolve_note"@, true, true, true, true)
            == Some(HandlerRoute { lane: Lane::Pull, resource: ResourceClass::RemoteHttp }),
        infrastructure_route_spec("rustodon.activitypub.resolve_announce"@, true, true, true, true)
            == Some(HandlerRoute { lane: Lane::Pull, resource: ResourceClass::RemoteHttp }),
        infrastructure_route_spec("rustodon.activitypub.resolve_thread"@, true, true, true, true)
            == Some(HandlerRoute { lane: Lane::Pull, resource: ResourceClass::RemoteHttp }),
        infrastructure_route_spec("rustodon.activitypub.fetch_profile_media"@, true, true, true, true)
            == Some(HandlerRoute { lane: Lane::Pull, resource: ResourceClass::Media }),
        infrastructure_route_spec("rustodon.activitypub.cleanup_profile_media"@, true, true, true, true)
            == Some(HandlerRoute { lane: Lane::Maintenance, resource: ResourceClass::Media }),
        infrastructure_route_spec("rustodon.activitypub.cleanup_emoji"@, true, true, true, true)
            == Some(HandlerRoute { lane: Lane::Maintenance, resource: ResourceClass::Media }),
        infrastructure_route_spec("rustodon.activitypub.fetch_emoji"@, true, true, true, true)
            == Some(HandlerRoute { lane: Lane::Pull, resource: ResourceClass::Media }),
        infrastructure_route_spec("rustodon.activitypub.fetch_media"@, true, true, true, true)
            == Some(HandlerRoute { lane: Lane::Pull, resource: ResourceClass::Media }),
        infrastructure_route_spec("rustodon.activitypub.inbox"@, true, true, true, true)
            == Some(HandlerRoute { lane: Lane::Ingress, resource: ResourceClass::RemoteHttp }),
        infrastructure_route_spec("rustodon.activitypub.account_update"@, true, true, true, true)
            == Some(HandlerRoute { lane: Lane::Push, resource: ResourceClass::Unlimited }),
        infrastructure_route_spec("rustodon.activitypub.account_delete"@, true, true, true, true)
            == Some(HandlerRoute { lane: Lane::Push, resource: ResourceClass::Unlimited }),
        infrastructure_route_spec("rustodon.activitypub.distribute_status"@, true, true, true, true)
            == Some(HandlerRoute { lane: Lane::Push, resource: ResourceClass::Unlimited }),
        infrastructure_route_spec("rustodon.activitypub.deliver"@, true, true, true, true)
            == Some(HandlerRoute { lane: Lane::Push, resource: ResourceClass::RemoteHttp }),
        infrastructure_route_spec("rustodon.mail.password_reset"@, true, true, true, true)
            == Some(HandlerRoute { lane: Lane::Mail, resource: ResourceClass::Unlimited }),
        infrastructure_route_spec("rustodon.mail.confirmation"@, true, true, true, true)
            == Some(HandlerRoute { lane: Lane::Mail, resource: ResourceClass::Unlimited }),
        infrastructure_route_spec("rustodon.mail.report"@, true, true, true, true)
            == Some(HandlerRoute { lane: Lane::Mail, resource: ResourceClass::Unlimited }),
        infrastructure_route_spec("rustodon.maintenance.prune"@, true, true, true, true)
            == Some(HandlerRoute { lane: Lane::Maintenance, resource: ResourceClass::Unlimited }),
{
    let es = infrastructure_entries(true, true, true, true);
    assert(es =~= upload_routes() + writer_routes() + resolve_routes() + remote_media_routes() + federation_routes()
        + mail_routes() + base_routes());
    lemma_route_at(true, true, true, true, 0);
    assert(es[0].0 == "rustodon.mastodon.process_local_upload"@ && es[0].1 == HandlerRoute { lane: Lane::Maintenance, resource: ResourceClass::Media });
    lemma_route_at(true, true, true, true, 1);
    assert(es[1].0 == "rustodon.mastodon.recover_local_uploads"@ && es[1].1 == HandlerRoute { lane: Lane::Maintenance, resource: ResourceClass::Media });
    lemma_route_at(true, true, true, true, 2);
    assert(es[2].0 == "rustodon.mastodon.cleanup_local_media"@ && es[2].1 == HandlerRoute { lane: Lane::Maintenance, resource: ResourceClass::Media });
    lemma_route_at(true, true, true, true, 3);
    assert(es[3].0 == "rustodon.mastodon.status_notification"@ && es[3].1 == HandlerRoute { lane: Lane::Core, resource: ResourceClass::Unlimited });
    lemma_route_at(true, true, true, true, 4);
    assert(es[4].0 == "rustodon.mastodon.create_notification"@ && es[4].1 == HandlerRoute { lane: Lane::Core, resource: ResourceClass::Unlimited });
    lemma_route_at(true, true, true, true, 5);
    assert(es[5].0 == "rustodon.mastodon.expire_poll"@ && es[5].1 == HandlerRoute { lane: Lane::Core, resource: ResourceClass::Unlimited });
    lemma_route_at(true, true, true, true, 6);
    assert(es[6].0 == "rustodon.mastodon.reconcile_poll_expirations"@ && es[6].1 == HandlerRoute { lane: Lane::Maintenance, resource: ResourceClass::Unlimited });
    lemma_route_at(true, true, true, true, 7);
    assert(es[7].0 == "rustodon.mastodon.unfilter_notifications"@ && es[7].1 == HandlerRoute { lane: Lane::Core, resource: ResourceClass::Unlimited });
    lemma_route_at(true, true, true, true, 8);
    assert(es[8].0 == "rustodon.mastodon.cleanup_notifications"@ && es[8].1 == HandlerRoute { lane: Lane::Core, resource: ResourceClass::Unlimited });
    lemma_route_at(true, true, true, true, 9);
    assert(es[9].0 == "rustodon.mastodon.delete_mute"@ && es[9].1 == HandlerRoute { lane: Lane::Maintenance, resource: ResourceClass::Unlimited });
    lemma_route_at(true, true, true, true, 10);
    assert(es[10].0 == "rustodon.mastodon.purge_account"@ && es[10].1 == HandlerRoute { lane: Lane::Maintenance, resource: ResourceClass::Media });
    lemma_route_at(true, true, true, true, 11);
    assert(es[11].0 == "rustodon.mastodon.block_domain"@ && es[11].1 == HandlerRoute { lane: Lane::Maintenance, resource: ResourceClass::Media });
    lemma_route_at(true, true, true, true, 12);
    assert(es[12].0 == "rustodon.mastodon.purge_domain"@ && es[12].1 == HandlerRoute { lane: Lane::Maintenance, resource: ResourceClass::Media });
    lemma_route_at(true, true, true, true, 13);
    assert(es[13].0 == "rustodon.activitypub.resolve_note"@ && es[13].1 == HandlerRoute { lane: Lane::Pull, resource: ResourceClass::RemoteHttp });
    lemma_route_at(true, true, true, true, 14);
    assert(es[14].0 == "rustodon.activitypub.resolve_announce"@ && es[14].1 == HandlerRoute { lane: Lane::Pull, resource: ResourceClass::RemoteHttp });
    lemma_route_at(true, true, true, true, 15);
    assert(es[15].0 == "rustodon.activitypub.resolve_thread"@ && es[15].1 == HandlerRoute { lane: Lane::Pull, resource: ResourceClass::RemoteHttp });
    lemma_route_at(true, true, true, true, 16);
    assert(es[16].0 == "rustodon.activitypub.fetch_profile_media"@ && es[16].1 == HandlerRoute { lane: Lane::Pull, resource: ResourceClass::Media });
    lemma_route_at(true, true, true, true, 17);
    assert(es[17].0 == "rustodon.activitypub.cleanup_profile_media"@ && es[17].1 == HandlerRoute { lane: Lane::Maintenance, resource: ResourceClass::Media });
    lemma_route_at(true, true, true, true, 18);
    assert(es[18].0 == "rustodon.activitypub.cleanup_emoji"@ && es[18].1 == HandlerRoute { lane: Lane::Maintenance, resource: ResourceClass::Media });
    lemma_route_at(true, true, true, true, 19);
    assert(es[19].0 == "rustodon.activitypub.fetch_emoji"@ && es[19].1 == HandlerRoute { lane: Lane::Pull, resource: ResourceClass::Media });
    lemma_route_at(true, true, true, true, 20);
    assert(es[20].0 == "rustodon.activitypub.fetch_media"@ && es[20].1 == HandlerRoute { lane: Lane::Pull, resource: ResourceClass::Media });
    lemma_route_at(true, true, true, true, 21);
    assert(es[21].0 == "rustodon.activitypub.inbox"@ && es[21].1 == HandlerRoute { lane: Lane::Ingress, resource: ResourceClass::RemoteHttp });
    lemma_route_at(true, true, true, true, 22);
    assert(es[22].0 == "rustodon.activitypub.account_update"@ && es[22].1 == HandlerRoute { lane: Lane::Push, resource: ResourceClass::Unlimited });
    lemma_route_at(true, true, true, true, 23);
    assert(es[23].0 == "rustodon.activitypub.account_delete"@ && es[23].1 == HandlerRoute { lane: Lane::Push, resource: ResourceClass::Unlimited });
    lemma_route_at(true, true, true, true, 24);
    assert(es[24].0 == "rustodon.activitypub.distribute_status"@ && es[24].1 == HandlerRoute { lane: Lane::Push, resource: ResourceClass::Unlimited });
    lemma_route_at(true, true, true, true, 25);
    assert(es[25].0 == "rustodon.activitypub.deliver"@ && es[25].1 == HandlerRoute { lane: Lane::Push, resource: ResourceClass::RemoteHttp });
    lemma_route_at(true, true, true, true, 26);
    assert(es[26].0 == "rustodon.mail.password_reset"@ && es[26].1 == HandlerRoute { lane: Lane::Mail, resource: ResourceClass::Unlimited });
    lemma_route_at(true, true, true, true, 27);
    assert(es[27].0 == "rustodon.mail.confirmation"@ && es[27].1 == HandlerRoute { lane: Lane::Mail, resource: ResourceClass::Unlimited });
    lemma_route_at(true, true, true, true, 28);
    assert(es[28].0 == "rustodon.mail.report"@ && es[28].1 == HandlerRoute { lane: Lane::Mail, resource: ResourceClass::Unlimited });
    lemma_route_at(true, true, true, true, 29);
    assert(es[29].0 == "rustodon.maintenance.prune"@ && es[29].1 == HandlerRoute { lane: Lane::Maintenance, resource: ResourceClass::Unlimited });
}

/// With a writer and federation, every resolution job (note, announce and thread) is
/// claimed from the pull lane and holds a remote HTTP permit, whatever else is configured.
pub proof fn lemma_resolution_routes(mail: bool, media_root: bool)
    ensures
        infrastructure_route_spec("rustodon.activitypub.resolve_note"@, true, mail, true, media_root)
            == Some(HandlerRoute { lane: Lane::Pull, resource: ResourceClass::RemoteHttp }),
        infrastructure_route_spec("rustodon.activitypub.resolve_announce"@, true, mail, true, media_root)
            == Some(HandlerRoute { lane: Lane::Pull, resource: ResourceClass::RemoteHttp }),
        infrastructure_route_spec("rustodon.activitypub.resolve_thread"@, true, mail, true, media_root)
            == Some(HandlerRoute { lane: Lane::Pull, resource: ResourceClass::RemoteHttp }),
{
    let es = infrastructure_entries(true, mail, true, media_root);
    let g0 = included(media_root, upload_routes());
    let g3 = included(media_root, remote_media_routes());
    let g5 = included(mail, mail_routes());
    assert(es =~= g0 + writer_routes() + resolve_routes() + g3 + federation_routes() + g5 + base_routes());
    let start: int = (g0.len() + writer_routes().len()) as int;
    assert(es[start] == resolve_routes()[0]);
    assert(es[start + 1] == resolve_routes()[1]);
    assert(es[start + 2] == resolve_routes()[2]);
    lemma_route_at(true, mail, true, media_root, start);
    lemma_route_at(true, mail, true, media_root, start + 1);
    lemma_route_at(true, mail, true, media_root, start + 2);
}

/// A kind with a route is among the entries.
proof fn lemma_entries_route_member(es: Seq<(Seq<char>, HandlerRoute)>, kind: Seq<char>)
    ensures
        entries_route(es, kind, None) is Some ==> exists|i: int| 0 <= i < es.len() && (#[trigger] es[i]).0 == kind,
    decreases es.len(),
{
    if es.len() > 0 {
        assert(es.last() == es[es.len() - 1]);
        lemma_entries_route_member(es.drop_last(), kind);
        if entries_route(es.drop_last(), kind, None) is Some && es.last().0 != kind {
            let i = choose|i: int| 0 <= i < es.drop_last().len() && (#[trigger] es.drop_last()[i]).0 == kind;
            assert(es[i] == es.drop_last()[i]);
        }
    }
}

/// Without a writer the worker routes only the operational cleanup (maintenance lane, no
/// shared resource) and, with mail, the three mail jobs (mail lane, no shared resource).
pub proof fn lemma_routes_without_writer(mail: bool, federation: bool, media_root: bool, kind: Seq<char>)
    ensures
        infrastructure_route_spec(kind, false, mail, federation, media_root) is Some ==> (kind
            == "rustodon.maintenance.prune"@ || (mail && (kind == "rustodon.mail.password_reset"@
            || kind == "rustodon.mail.confirmation"@ || kind == "rustodon.mail.report"@))),
        infrastructure_route_spec("rustodon.maintenance.prune"@, false, mail, federation, media_root)
            == Some(HandlerRoute { lane: Lane::Maintenance, resource: ResourceClass::Unlimited }),
        mail ==> infrastructure_route_spec("rustodon.mail.report"@, false, mail, federation, media_root)
            == Some(HandlerRoute { lane: Lane::Mail, resource: ResourceClass::Unlimited }),
{
    let es = infrastructure_entries(false, mail, federation, media_root);
    let g5 = included(mail, mail_routes());
    assert(es =~= g5 + base_routes());
    lemma_entries_route_member(es, kind);
    if infrastructure_route_spec(kind, false, mail, federation, media_root) is Some {
        let i = choose|i: int| 0 <= i < es.len() && (#[trigger] es[i]).0 == kind;
        if mail {
            assert(es[i] == mail_routes()[i] || es[i] == base_routes()[i - 3]);
        } else {
            assert(es[i] == base_routes()[i]);
        }
    }
    lemma_route_at(false, mail, federation, media_root, g5.len() as int);
    assert(es[g5.len() as int] == base_routes()[0]);
    if mail {
        lemma_route_at(false, mail, federation, media_root, 2);
        assert(es[2] == mail_routes()[2]);
    }
}

/// What the worker prepares before it starts executing jobs.
#[derive(Clone, Copy, Debug, PartialEq, Eq, Structural)]
pub enum PollExpirationStartup {
    /// Reconcile poll expirations with the writer first.
    Reconcile,
    /// Only establish the poll expiration activation boundary.
    Activate,
    /// Nothing to prepare for poll expirations.
    Skip,
}

/// The startup decisions of a worker.
#[derive(Clone, Copy, Debug, PartialEq, Eq, Structural)]
pub struct StartupPlan {
    /// Schedule recovery of local uploads.
    pub schedules_upload_recovery: bool,
    /// Execute local uploads (reported in the worker's heartbeat).
    pub executes_local_uploads: bool,
    pub poll_expirations: PollExpirationStartup,
}

/// The startup decisions for the configured lanes, or why the configuration is refused.
pub open spec fn startup_plan_spec(registry: HandlerRegistry, lanes: Seq<Lane>, has_poll_writer: bool)
    -> Result<StartupPlan, Seq<char>> {
    if exists|i: int| 0 <= i < lanes.len() && !registry.lane_served(#[trigger] lanes[i]) {
        Err("a configured worker lane has no registered handler"@)
    } else {
        let maintenance = lanes.contains(Lane::Maintenance);
        let recovery = maintenance && registry.has_kind(recover_uploads_kind());
        let uploads = recovery && registry.has_kind(process_upload_kind());
        let repair = maintenance && registry.has_kind(reconcile_job_kind());
        let expires = lanes.contains(Lane::Core) && registry.has_kind(poll_expiration_kind());
        if repair && !has_poll_writer {
            Err("poll expiration maintenance requires a writer pool"@)
        } else {
            Ok(StartupPlan {
                schedules_upload_recovery: recovery,
                executes_local_uploads: uploads,
                poll_expirations: if repair {
                    PollExpirationStartup::Reconcile
                } else if expires {
                    PollExpirationStartup::Activate
                } else {
                    PollExpirationStartup::Skip
                },
            })
        }
    }
}

/// Decides how a worker starts: every configured lane must have a handler, and poll
/// expiration maintenance needs a writer.
pub fn worker_startup_plan(registry: &HandlerRegistry, lanes: &Vec<Lane>, has_poll_writer: bool)
    -> (r: Result<StartupPlan, WorkerError>)
    requires
        registry.wf(),
    ensures
        match (r, startup_plan_spec(*registry, lanes@, has_poll_writer)) {
            (Ok(p), Ok(q)) => p == q,
            (Err(WorkerError::InvalidConfiguration(m)), Err(t)) => m@ == t,
            _ => false,
        },
{
    let served = registry.supported_lanes();
    let mut i: usize = 0;
    let mut maintenance = false;
    let mut core = false;
    while i < lanes.len()
        invariant
            i <= lanes@.len(),
            forall|l: Lane| served@.contains(l) <==> registry.lane_served(l),
            forall|j: int| 0 <= j < i ==> registry.lane_served(#[trigger] lanes@[j]),
            maintenance <==> lanes@.take(i as int).contains(Lane::Maintenance),
            core <==> lanes@.take(i as int).contains(Lane::Core),
        decreases lanes@.len() - i,
    {
        let lane = lanes[i];
        if !lane_listed(&served, lane) {
            return Err(WorkerError::InvalidConfiguration("a configured worker lane has no registered handler"));
        }
        proof {
            let before = lanes@.take(i as int);
            let after = lanes@.take(i + 1);
            assert(after =~= before.push(lane));
            assert(after[i as int] == lane);
            assert forall|x: Lane| after.contains(x) <==> (before.contains(x) || x == lane) by {
                if before.contains(x) {
                    let j = choose|j: int| 0 <= j < before.len() && before[j] == x;
                    assert(after[j] == x);
                }
                if after.contains(x) && x != lane {
                    let j = choose|j: int| 0 <= j < after.len() && after[j] == x;
                    assert(before[j] == x);
                }
            }
        }
        if lane == Lane::Maintenance {
            maintenance = true;
        }
        if lane == Lane::Core {
            core = true;
        }
        i = i + 1;
    }
    proof {
        assert(lanes@.take(i as int) =~= lanes@);
    }
    let recovery = maintenance && registry.get("rustodon.mastodon.recover_local_uploads").is_some();
    let uploads = recovery && registry.get("rustodon.mastodon.process_local_upload").is_some();
    let repair = maintenance && registry.get("rustodon.mastodon.reconcile_poll_expirations").is_some();
    let expires = core && registry.get("rustodon.mastodon.expire_poll").is_some();
    if repair && !has_poll_writer {
        return Err(WorkerError::InvalidConfiguration("poll expiration maintenance requires a writer pool"));
    }
    Ok(StartupPlan {
        schedules_upload_recovery: recovery,
        executes_local_uploads: uploads,
        poll_expirations: if repair {
            PollExpirationStartup::Reconcile
        } else if expires {
            PollExpirationStartup::Activate
        } else {
            PollExpirationStartup::Skip
        },
    })
}

fn lane_listed(lanes: &Vec<Lane>, lane: Lane) -> (r: bool)
    ensures
        r <==> lanes@.contains(lane),
{
    let mut i: usize = 0;
    while i < lanes.len()
        invariant
            i <= lanes@.len(),
            forall|j: int| 0 <= j < i ==> lanes@[j] != lane,
        decreases lanes@.len() - i,
    {
        if lanes[i] == lane {
            return true;
        }
        i = i + 1;
    }
    false
}

/// The minute of a Unix time in seconds, rounded toward zero.
pub open spec fn unix_minute(seconds: i64) -> int {
    if seconds >= 0 { seconds as int / 60 } else { -((-(seconds as int)) / 60) }
}

/// The operational cleanup the scheduler enqueues each minute: on the maintenance lane,
/// with arguments `{"minute": m}` and the singleton key `maintenance:m`, where `m` is the
/// current Unix minute.
pub fn maintenance_prune_job(now_seconds: i64) -> (job: JobSpec)
    ensures
        job.lane == Lane::Maintenance,
        job.kind@ == maintenance_prune_kind(),
        job.arguments matches JsonValue::Object(members) && members@.len() == 1
            && members@[0].0@ == "minute"@
            && members@[0].1 == JsonValue::Number(JsonNumber::Int(unix_minute(now_seconds) as i64)),
        opt_string(job.logical_key) == Some("maintenance:"@ + int_decimal(unix_minute(now_seconds))),
        job.max_attempts is None,
{
    let n: i128 = now_seconds as i128;
    let q: i128 = if n >= 0 { n / 60 } else { -((-n) / 60) };
    let minute: i64 = q as i64;
    let mut members: Vec<(String, JsonValue)> = Vec::new();
    members.push(("minute".to_owned(), JsonValue::Number(JsonNumber::Int(minute))));
    let mut key = String::new();
    push_str(&mut key, "maintenance:");
    push_decimal_i64(&mut key, minute);
    JobSpec::new(Lane::Maintenance, "rustodon.maintenance.prune", JsonValue::Object(members)).logical_key(key)
}

} // verus!
