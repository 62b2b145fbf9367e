use actor_registry::directory::{online_at, Directory};
use actor_registry::messages::{
    Heartbeat, HeartbeatAck, LookupActor, LookupResult, Message, RegisterActor,
    RegistrationFailed, RegistrationOk, UnregisterActor,
};

fn register(manager_id: &str, actor_name: &str, endpoint: &str) -> RegisterActor {
    RegisterActor {
        manager_id: manager_id.to_string(),
        actor_name: actor_name.to_string(),
        actor_endpoint: endpoint.to_string(),
    }
}

fn lookup(directory: &Directory, actor_name: &str, now_ms: u64) -> (Option<String>, bool) {
    let reply = directory.lookup(&LookupActor { actor_name: actor_name.to_string() }, now_ms);
    assert_eq!(reply.actor_name, actor_name);
    (reply.endpoint, reply.online)
}

fn unregister(directory: &mut Directory, actor_name: &str) {
    directory.unregister(&UnregisterActor { actor_name: actor_name.to_string() });
}

#[test]
fn online_means_heard_of_less_than_six_seconds_ago() {
    assert!(online_at(1000, 1000));
    assert!(online_at(1000, 6999));
    assert!(!online_at(1000, 7000));
    assert!(!online_at(1000, u64::MAX));
    assert!(online_at(0, 5999));
    assert!(!online_at(0, 6000));
    // A clock that stepped back does not take anyone offline.
    assert!(online_at(1000, 999));
    assert!(online_at(u64::MAX, 0));
}

#[test]
fn a_name_never_registered_is_not_found() {
    let mut directory = Directory::new();
    assert_eq!(directory.len(), 0);
    assert_eq!(
        directory.lookup(&LookupActor { actor_name: "pong".to_string() }, 5),
        LookupResult { actor_name: "pong".to_string(), endpoint: None, online: false }
    );
    directory.register(&register("mgrA", "ping", "tcp://h:1"), 0).unwrap();
    directory.heartbeat(&Heartbeat::at("mgrA".to_string(), 1), 1);
    assert_eq!(lookup(&directory, "pong", 2), (None, false));
}

#[test]
fn a_registered_name_is_found_online() {
    let mut directory = Directory::new();
    assert_eq!(
        directory.register(&register("mgrA", "pong", "tcp://localhost:5001"), 1000),
        Ok(RegistrationOk { actor_name: "pong".to_string() })
    );
    assert_eq!(directory.len(), 1);
    assert_eq!(
        directory.lookup(&LookupActor { actor_name: "pong".to_string() }, 1000),
        LookupResult {
            actor_name: "pong".to_string(),
            endpoint: Some("tcp://localhost:5001".to_string()),
            online: true,
        }
    );
    assert_eq!(lookup(&directory, "pong", 6999), (Some("tcp://localhost:5001".to_string()), true));
}

#[test]
fn a_silent_owner_goes_offline_but_stays_resolvable() {
    let mut directory = Directory::new();
    directory.register(&register("mgrA", "pong", "tcp://localhost:5001"), 1000).unwrap();
    directory.register(&register("mgrB", "ping", "tcp://localhost:5002"), 2000).unwrap();
    directory.heartbeat(&Heartbeat::at("mgrB".to_string(), 0), 5000);
    assert_eq!(lookup(&directory, "pong", 7000), (Some("tcp://localhost:5001".to_string()), false));
    assert_eq!(lookup(&directory, "pong", 1_000_000), (Some("tcp://localhost:5001".to_string()), false));
    assert_eq!(lookup(&directory, "ping", 7000), (Some("tcp://localhost:5002".to_string()), true));
    assert_eq!(directory.len(), 2);
}

#[test]
fn a_heartbeat_refreshes_every_entry_of_its_manager_and_no_other() {
    let mut directory = Directory::new();
    directory.register(&register("mgrA", "a1", "tcp://a:1"), 0).unwrap();
    directory.register(&register("mgrB", "b1", "tcp://b:1"), 0).unwrap();
    directory.register(&register("mgrA", "a2", "tcp://a:2"), 0).unwrap();
    directory.heartbeat(&Heartbeat::at("mgrA".to_string(), 123), 4000);
    assert_eq!(lookup(&directory, "a1", 9999), (Some("tcp://a:1".to_string()), true));
    assert_eq!(lookup(&directory, "a2", 9999), (Some("tcp://a:2".to_string()), true));
    assert_eq!(lookup(&directory, "b1", 9999), (Some("tcp://b:1".to_string()), false));
    assert_eq!(lookup(&directory, "a1", 10000), (Some("tcp://a:1".to_string()), false));
}

#[test]
fn the_directory_goes_by_the_arrival_of_a_heartbeat_not_by_its_stamp() {
    let mut directory = Directory::new();
    directory.register(&register("mgrA", "pong", "tcp://h:1"), 0).unwrap();
    directory.heartbeat(&Heartbeat::at("mgrA".to_string(), 999_999), 3000);
    assert_eq!(lookup(&directory, "pong", 8999), (Some("tcp://h:1".to_string()), true));
    assert_eq!(lookup(&directory, "pong", 9000), (Some("tcp://h:1".to_string()), false));
}

#[test]
fn a_heartbeat_of_a_stranger_changes_nothing() {
    let mut directory = Directory::new();
    directory.heartbeat(&Heartbeat::at("nobody".to_string(), 0), 10);
    assert_eq!(directory.len(), 0);
    directory.register(&register("mgrA", "pong", "tcp://h:1"), 0).unwrap();
    directory.heartbeat(&Heartbeat::at("mgra".to_string(), 0), 5000);
    assert_eq!(lookup(&directory, "pong", 6000), (Some("tcp://h:1".to_string()), false));
}

#[test]
fn a_second_registration_is_refused_while_the_owner_is_online() {
    let mut directory = Directory::new();
    directory.register(&register("mgrA", "pong", "tcp://a:1"), 1000).unwrap();
    assert_eq!(
        directory.register(&register("mgrB", "pong", "tcp://b:1"), 6999),
        Err(RegistrationFailed {
            actor_name: "pong".to_string(),
            reason: "name already registered".to_string(),
        })
    );
    // Its own owner is refused as well, and the entry is not refreshed.
    assert!(directory.register(&register("mgrA", "pong", "tcp://a:2"), 6999).is_err());
    assert_eq!(lookup(&directory, "pong", 6999), (Some("tcp://a:1".to_string()), true));
    assert_eq!(lookup(&directory, "pong", 7000), (Some("tcp://a:1".to_string()), false));
    assert_eq!(directory.len(), 1);
}

#[test]
fn a_second_registration_replaces_the_entry_of_an_offline_owner() {
    let mut directory = Directory::new();
    directory.register(&register("mgrA", "pong", "tcp://a:1"), 1000).unwrap();
    assert_eq!(
        directory.register(&register("mgrB", "pong", "tcp://b:1"), 7000),
        Ok(RegistrationOk { actor_name: "pong".to_string() })
    );
    assert_eq!(directory.len(), 1);
    assert_eq!(lookup(&directory, "pong", 7000), (Some("tcp://b:1".to_string()), true));
    // The entry now belongs to the new manager.
    directory.heartbeat(&Heartbeat::at("mgrA".to_string(), 0), 12000);
    assert_eq!(lookup(&directory, "pong", 13000), (Some("tcp://b:1".to_string()), false));
    directory.heartbeat(&Heartbeat::at("mgrB".to_string(), 0), 13000);
    assert_eq!(lookup(&directory, "pong", 13000), (Some("tcp://b:1".to_string()), true));
}

#[test]
fn unregistering_is_idempotent() {
    let mut directory = Directory::new();
    directory.register(&register("mgrA", "pong", "tcp://a:1"), 0).unwrap();
    directory.register(&register("mgrA", "ping", "tcp://a:2"), 0).unwrap();
    unregister(&mut directory, "pong");
    assert_eq!(lookup(&directory, "pong", 0), (None, false));
    assert_eq!(directory.len(), 1);
    unregister(&mut directory, "pong");
    unregister(&mut directory, "pong");
    assert_eq!(lookup(&directory, "pong", 0), (None, false));
    assert_eq!(lookup(&directory, "ping", 0), (Some("tcp://a:2".to_string()), true));
    assert_eq!(directory.len(), 1);
    // A heartbeat of the former owner does not bring the entry back.
    directory.heartbeat(&Heartbeat::at("mgrA".to_string(), 0), 1);
    assert_eq!(lookup(&directory, "pong", 1), (None, false));
}

#[test]
fn unregistering_an_unknown_name_changes_nothing() {
    let mut directory = Directory::new();
    unregister(&mut directory, "ghost");
    assert_eq!(directory.len(), 0);
    directory.register(&register("mgrA", "pong", "tcp://a:1"), 0).unwrap();
    unregister(&mut directory, "ghost");
    assert_eq!(lookup(&directory, "pong", 0), (Some("tcp://a:1".to_string()), true));
}

#[test]
fn an_unregistered_name_is_free_at_once_even_if_its_owner_is_online() {
    let mut directory = Directory::new();
    directory.register(&register("mgrA", "pong", "tcp://a:1"), 0).unwrap();
    unregister(&mut directory, "pong");
    assert!(directory.register(&register("mgrB", "pong", "tcp://b:1"), 1).is_ok());
    assert_eq!(lookup(&directory, "pong", 1), (Some("tcp://b:1".to_string()), true));
}

#[test]
fn names_are_compared_exactly() {
    let mut directory = Directory::new();
    directory.register(&register("mgrA", "pong", "tcp://a:1"), 0).unwrap();
    assert!(directory.register(&register("mgrA", "Pong", "tcp://a:2"), 0).is_ok());
    assert!(directory.register(&register("mgrA", "pong ", "tcp://a:3"), 0).is_ok());
    assert!(directory.register(&register("mgrA", "", "tcp://a:4"), 0).is_ok());
    assert_eq!(directory.len(), 4);
    assert_eq!(lookup(&directory, "Pong", 0), (Some("tcp://a:2".to_string()), true));
    assert_eq!(lookup(&directory, "", 0), (Some("tcp://a:4".to_string()), true));
}

#[test]
fn handle_answers_each_request_and_acts_on_it() {
    let mut directory = Directory::new();
    assert_eq!(
        directory.handle(&Message::RegisterActor(register("mgrA", "pong", "tcp://a:1")), 100),
        Some(Message::RegistrationOk(RegistrationOk { actor_name: "pong".to_string() }))
    );
    assert_eq!(
        directory.handle(&Message::RegisterActor(register("mgrB", "pong", "tcp://b:1")), 200),
        Some(Message::RegistrationFailed(RegistrationFailed {
            actor_name: "pong".to_string(),
            reason: "name already registered".to_string(),
        }))
    );
    assert_eq!(
        directory.handle(&Message::LookupActor(LookupActor { actor_name: "pong".to_string() }), 6100),
        Some(Message::LookupResult(LookupResult {
            actor_name: "pong".to_string(),
            endpoint: Some("tcp://a:1".to_string()),
            online: false,
        }))
    );
    assert_eq!(
        directory.handle(&Message::Heartbeat(Heartbeat::at("mgrA".to_string(), 0)), 6100),
        Some(Message::HeartbeatAck(HeartbeatAck))
    );
    assert_eq!(lookup(&directory, "pong", 6100), (Some("tcp://a:1".to_string()), true));
    assert_eq!(
        directory.handle(
            &Message::UnregisterActor(UnregisterActor { actor_name: "pong".to_string() }),
            6100
        ),
        None
    );
    assert_eq!(directory.len(), 0);
}

#[test]
fn handle_passes_over_what_is_no_request() {
    let mut directory = Directory::new();
    directory.register(&register("mgrA", "pong", "tcp://a:1"), 0).unwrap();
    let replies = vec![
        Message::RegistrationOk(RegistrationOk { actor_name: "pong".to_string() }),
        Message::RegistrationFailed(RegistrationFailed {
            actor_name: "pong".to_string(),
            reason: "x".to_string(),
        }),
        Message::LookupResult(LookupResult {
            actor_name: "pong".to_string(),
            endpoint: None,
            online: false,
        }),
        Message::HeartbeatAck(HeartbeatAck),
    ];
    for reply in replies {
        assert_eq!(directory.handle(&reply, 1), None);
    }
    assert_eq!(lookup(&directory, "pong", 1), (Some("tcp://a:1".to_string()), true));
    assert_eq!(directory.len(), 1);
}
