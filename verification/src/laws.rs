//! What holds of every directory, whatever requests it has seen, and of a
//! client that asks it.

use crate::client::{CallView, OutcomeView};
use crate::directory::{
    applied, can_register, is_online, looked_up, refreshed, registered, registration_reply,
    unregistered, EntryView,
};
use crate::error::ErrorView;
use crate::messages::MessageView;
use crate::transport::{HEARTBEAT_INTERVAL_MS, OFFLINE_THRESHOLD_MS};
use vstd::prelude::*;

verus! {

/// A message together with the time at which it reached the registry.
pub struct Arrival {
    pub message: MessageView,
    pub at_ms: u64,
}

/// The directory after the arrivals of `trace`, in order.
pub open spec fn replayed(directory: Map<Seq<char>, EntryView>, trace: Seq<Arrival>) -> Map<
    Seq<char>,
    EntryView,
>
    decreases trace.len(),
{
    if trace.len() == 0 {
        directory
    } else {
        applied(replayed(directory, trace.drop_last()), trace.last().message, trace.last().at_ms)
    }
}

/// Whether `message` asks to register `actor_name`.
pub open spec fn registers(message: MessageView, actor_name: Seq<char>) -> bool {
    match message {
        MessageView::RegisterActor { actor_name: name, .. } => name == actor_name,
        _ => false,
    }
}

/// Whether `arrival` leaves alone the entry that `manager_id` got for
/// `actor_name` at `registered_at`: it is no heartbeat of that manager, no
/// unregistration of that name, and no registration of that name that
/// arrives when the owner has gone offline.
pub open spec fn leaves_alone(
    arrival: Arrival,
    manager_id: Seq<char>,
    actor_name: Seq<char>,
    registered_at: u64,
) -> bool {
    match arrival.message {
        MessageView::Heartbeat { manager_id: sender, .. } => sender != manager_id,
        MessageView::UnregisterActor { actor_name: name } => name != actor_name,
        MessageView::RegisterActor { actor_name: name, .. } => name != actor_name || is_online(
            registered_at,
            arrival.at_ms,
        ),
        _ => true,
    }
}

/// The answer to a lookup of a name that has no entry.
pub open spec fn not_found(actor_name: Seq<char>) -> MessageView {
    MessageView::LookupResult { actor_name, endpoint: None, online: false }
}

/// The offline threshold is three heartbeat intervals, six seconds.
pub proof fn lemma_threshold()
    ensures
        OFFLINE_THRESHOLD_MS == 3 * HEARTBEAT_INTERVAL_MS,
        OFFLINE_THRESHOLD_MS == 6000,
{
}

/// A name that no request ever asked to register is not found, whatever
/// else the registry has seen since it started empty.
pub proof fn lemma_never_registered(trace: Seq<Arrival>, actor_name: Seq<char>, now_ms: u64)
    requires
        forall|i: int| 0 <= i < trace.len() ==> !registers(#[trigger] trace[i].message, actor_name),
    ensures
        !replayed(Map::empty(), trace).contains_key(actor_name),
        looked_up(replayed(Map::empty(), trace), actor_name, now_ms) == not_found(actor_name),
    decreases trace.len(),
{
    if trace.len() > 0 {
        let front = trace.drop_last();
        assert forall|i: int| 0 <= i < front.len() implies !registers(
            #[trigger] front[i].message,
            actor_name,
        ) by {
            assert(front[i] == trace[i]);
        }
        lemma_never_registered(front, actor_name, now_ms);
        assert(!registers(trace[trace.len() - 1].message, actor_name));
    }
}

/// A registration that is accepted makes the name resolve to its endpoint,
/// and shows the owner online until the threshold has passed: in
/// particular at the moment of the registration.
pub proof fn lemma_registered_is_found(
    directory: Map<Seq<char>, EntryView>,
    manager_id: Seq<char>,
    actor_name: Seq<char>,
    actor_endpoint: Seq<char>,
    registered_at: u64,
    now_ms: u64,
)
    requires
        can_register(directory, actor_name, registered_at),
    ensures
        registration_reply(directory, actor_name, registered_at) == (MessageView::RegistrationOk {
            actor_name,
        }),
        looked_up(
            registered(directory, manager_id, actor_name, actor_endpoint, registered_at),
            actor_name,
            now_ms,
        ) == (MessageView::LookupResult {
            actor_name,
            endpoint: Some(actor_endpoint),
            online: now_ms - registered_at < OFFLINE_THRESHOLD_MS,
        }),
        looked_up(
            registered(directory, manager_id, actor_name, actor_endpoint, registered_at),
            actor_name,
            registered_at,
        ) == (MessageView::LookupResult {
            actor_name,
            endpoint: Some(actor_endpoint),
            online: true,
        }),
{
}

/// An entry stays as it was registered while every arrival leaves it alone.
pub proof fn lemma_entry_stays(
    directory: Map<Seq<char>, EntryView>,
    manager_id: Seq<char>,
    actor_name: Seq<char>,
    actor_endpoint: Seq<char>,
    registered_at: u64,
    trace: Seq<Arrival>,
)
    requires
        can_register(directory, actor_name, registered_at),
        forall|i: int|
            0 <= i < trace.len() ==> leaves_alone(
                #[trigger] trace[i],
                manager_id,
                actor_name,
                registered_at,
            ),
    ensures
        replayed(
            registered(directory, manager_id, actor_name, actor_endpoint, registered_at),
            trace,
        ).contains_key(actor_name),
        replayed(
            registered(directory, manager_id, actor_name, actor_endpoint, registered_at),
            trace,
        )[actor_name] == (EntryView {
            manager_id,
            actor_endpoint,
            last_heartbeat_ts: registered_at,
        }),
    decreases trace.len(),
{
    if trace.len() > 0 {
        let front = trace.drop_last();
        assert forall|i: int| 0 <= i < front.len() implies leaves_alone(
            #[trigger] front[i],
            manager_id,
            actor_name,
            registered_at,
        ) by {
            assert(front[i] == trace[i]);
        }
        lemma_entry_stays(
            directory,
            manager_id,
            actor_name,
            actor_endpoint,
            registered_at,
            front,
        );
        assert(leaves_alone(trace[trace.len() - 1], manager_id, actor_name, registered_at));
    }
}

/// An owner that sends no heartbeat for the threshold's length after its
/// registration shows offline, and the name still resolves to the endpoint
/// it was registered with; whatever else arrives meanwhile, as long as it
/// leaves the entry alone.
pub proof fn lemma_silent_owner_goes_offline(
    directory: Map<Seq<char>, EntryView>,
    manager_id: Seq<char>,
    actor_name: Seq<char>,
    actor_endpoint: Seq<char>,
    registered_at: u64,
    trace: Seq<Arrival>,
    now_ms: u64,
)
    requires
        can_register(directory, actor_name, registered_at),
        forall|i: int|
            0 <= i < trace.len() ==> leaves_alone(
                #[trigger] trace[i],
                manager_id,
                actor_name,
                registered_at,
            ),
        now_ms - registered_at >= OFFLINE_THRESHOLD_MS,
    ensures
        looked_up(
            replayed(
                registered(directory, manager_id, actor_name, actor_endpoint, registered_at),
                trace,
            ),
            actor_name,
            now_ms,
        ) == (MessageView::LookupResult {
            actor_name,
            endpoint: Some(actor_endpoint),
            online: false,
        }),
{
    lemma_entry_stays(directory, manager_id, actor_name, actor_endpoint, registered_at, trace);
}

/// A heartbeat of the owner makes it show online again until the threshold
/// has passed anew, and changes neither the owner nor the endpoint.
pub proof fn lemma_heartbeat_keeps_online(
    directory: Map<Seq<char>, EntryView>,
    actor_name: Seq<char>,
    heard_at: u64,
    now_ms: u64,
)
    requires
        directory.contains_key(actor_name),
    ensures
        looked_up(
            refreshed(directory, directory[actor_name].manager_id, heard_at),
            actor_name,
            now_ms,
        ) == (MessageView::LookupResult {
            actor_name,
            endpoint: Some(directory[actor_name].actor_endpoint),
            online: now_ms - heard_at < OFFLINE_THRESHOLD_MS,
        }),
{
}

/// A second registration of a name is refused, and changes nothing, while
/// the owner is online; once the owner is offline it is accepted, and the
/// entry goes to the new manager and endpoint.
pub proof fn lemma_second_registration(
    directory: Map<Seq<char>, EntryView>,
    actor_name: Seq<char>,
    manager_id: Seq<char>,
    actor_endpoint: Seq<char>,
    now_ms: u64,
)
    requires
        directory.contains_key(actor_name),
    ensures
        is_online(directory[actor_name].last_heartbeat_ts, now_ms) ==> {
            &&& registration_reply(directory, actor_name, now_ms)
                == (MessageView::RegistrationFailed {
                actor_name,
                reason: "name already registered"@,
            })
            &&& registered(directory, manager_id, actor_name, actor_endpoint, now_ms) == directory
        },
        !is_online(directory[actor_name].last_heartbeat_ts, now_ms) ==> {
            &&& registration_reply(directory, actor_name, now_ms) == (MessageView::RegistrationOk {
                actor_name,
            })
            &&& registered(directory, manager_id, actor_name, actor_endpoint, now_ms)
                == directory.insert(
                actor_name,
                EntryView { manager_id, actor_endpoint, last_heartbeat_ts: now_ms },
            )
            &&& looked_up(
                registered(directory, manager_id, actor_name, actor_endpoint, now_ms),
                actor_name,
                now_ms,
            ) == (MessageView::LookupResult {
                actor_name,
                endpoint: Some(actor_endpoint),
                online: true,
            })
        },
{
}

/// Unregistering is idempotent: a second unregistration changes nothing,
/// the name stays unknown, and no other entry is touched.
pub proof fn lemma_unregister_idempotent(
    directory: Map<Seq<char>, EntryView>,
    actor_name: Seq<char>,
    now_ms: u64,
)
    ensures
        unregistered(unregistered(directory, actor_name), actor_name) == unregistered(
            directory,
            actor_name,
        ),
        looked_up(unregistered(directory, actor_name), actor_name, now_ms) == not_found(
            actor_name,
        ),
        forall|other: Seq<char>|
            other != actor_name ==> #[trigger] looked_up(
                unregistered(directory, actor_name),
                other,
                now_ms,
            ) == looked_up(directory, other, now_ms),
{
    assert(unregistered(unregistered(directory, actor_name), actor_name) =~= unregistered(
        directory,
        actor_name,
    ));
}

/// What a lookup ends in at the client follows from the directory alone: an
/// unknown name is not found, a name whose owner is offline is reported
/// offline, and any other name resolves to its endpoint.
pub proof fn lemma_lookup_outcome(
    directory: Map<Seq<char>, EntryView>,
    actor_name: Seq<char>,
    now_ms: u64,
)
    ensures
        (CallView::Lookup { actor_name }).answer(looked_up(directory, actor_name, now_ms))
            == OutcomeView::Lookup(
            if !directory.contains_key(actor_name) {
                Err(ErrorView::NotFound(actor_name))
            } else if is_online(directory[actor_name].last_heartbeat_ts, now_ms) {
                Ok(directory[actor_name].actor_endpoint)
            } else {
                Err(ErrorView::Offline(actor_name))
            },
        ),
        (CallView::LookupAllowOffline { actor_name }).answer(
            looked_up(directory, actor_name, now_ms),
        ) == OutcomeView::LookupAllowOffline(
            if directory.contains_key(actor_name) {
                Ok(
                    (
                        directory[actor_name].actor_endpoint,
                        is_online(directory[actor_name].last_heartbeat_ts, now_ms),
                    ),
                )
            } else {
                Err(ErrorView::NotFound(actor_name))
            },
        ),
{
}

/// What a registration ends in at the client follows from the directory
/// alone: it succeeds exactly where the name can be registered, and fails
/// with the directory's reason elsewhere.
pub proof fn lemma_register_outcome(
    directory: Map<Seq<char>, EntryView>,
    actor_name: Seq<char>,
    now_ms: u64,
)
    ensures
        (CallView::Register { actor_name }).answer(
            registration_reply(directory, actor_name, now_ms),
        ) == OutcomeView::Register(
            if can_register(directory, actor_name, now_ms) {
                Ok(())
            } else {
                Err(
                    ErrorView::RegistrationFailed {
                        actor_name,
                        reason: "name already registered"@,
                    },
                )
            },
        ),
{
}

} // verus!
