use actor_registry::client::{Outcome, RegistryClient, Step};
use actor_registry::codec::{decode, encode};
use actor_registry::directory::Directory;
use actor_registry::error::RegistryError;
use actor_registry::heartbeat::HeartbeatLoop;
use actor_registry::text::{same, utf8_text};
use actor_registry::transport::{copy_bytes, take_first_frame, Action, Event};

/// A registry in the same process: it answers one request text at a time.
struct Registry {
    directory: Directory,
    now_ms: u64,
}

impl Registry {
    fn answer(&mut self, request: &[u8]) -> Vec<Vec<u8>> {
        let text = std::str::from_utf8(request).unwrap();
        let message = decode(text).unwrap();
        match self.directory.handle(&message, self.now_ms) {
            Some(reply) => vec![encode(&reply).into_bytes()],
            None => vec![],
        }
    }
}

/// Performs the actions of one call against the registry.
fn run(client: &mut RegistryClient, registry: &mut Registry, first: Option<Action>) -> Outcome {
    let mut action = first.unwrap();
    let mut pending: Vec<Vec<u8>> = vec![];
    loop {
        let event = match action {
            Action::Connect(_) => Event::Connected,
            Action::Pause(_) => Event::Paused,
            Action::Send(payload) => {
                pending = registry.answer(&payload);
                Event::Sent
            }
            Action::Receive => Event::Received(std::mem::take(&mut pending)),
        };
        match client.advance(event) {
            Step::Continue(next) => action = next,
            Step::Done(outcome) => return outcome,
            Step::Idle => panic!("a call was in flight"),
        }
    }
}

#[test]
fn two_managers_meet_through_the_registry() {
    let mut registry = Registry { directory: Directory::new(), now_ms: 10_000 };
    let mut pong = RegistryClient::new("PongManager", "tcp://localhost:5555");
    let mut ping = RegistryClient::new("PingManager", "tcp://localhost:5555");

    let first = ping.lookup("pong");
    assert_eq!(
        run(&mut ping, &mut registry, first),
        Outcome::Lookup(Err(RegistryError::NotFound("pong".to_string())))
    );

    let first = pong.register("pong", "tcp://localhost:5001");
    assert_eq!(run(&mut pong, &mut registry, first), Outcome::Register(Ok(())));

    let first = ping.lookup("pong");
    assert_eq!(
        run(&mut ping, &mut registry, first),
        Outcome::Lookup(Ok("tcp://localhost:5001".to_string()))
    );

    let first = ping.register("pong", "tcp://localhost:5002");
    assert_eq!(
        run(&mut ping, &mut registry, first),
        Outcome::Register(Err(RegistryError::RegistrationFailed {
            actor_name: "pong".to_string(),
            reason: "name already registered".to_string(),
        }))
    );

    // Six seconds without a heartbeat of PongManager.
    registry.now_ms = 16_000;
    let first = ping.lookup("pong");
    assert_eq!(
        run(&mut ping, &mut registry, first),
        Outcome::Lookup(Err(RegistryError::Offline("pong".to_string())))
    );
    let first = ping.lookup_allow_offline("pong");
    assert_eq!(
        run(&mut ping, &mut registry, first),
        Outcome::LookupAllowOffline(Ok(("tcp://localhost:5001".to_string(), false)))
    );

    let first = ping.register("pong", "tcp://localhost:5002");
    assert_eq!(run(&mut ping, &mut registry, first), Outcome::Register(Ok(())));
    let first = pong.lookup_allow_offline("pong");
    assert_eq!(
        run(&mut pong, &mut registry, first),
        Outcome::LookupAllowOffline(Ok(("tcp://localhost:5002".to_string(), true)))
    );
}

#[test]
fn heartbeats_keep_a_manager_online() {
    let mut registry = Registry { directory: Directory::new(), now_ms: 0 };
    let mut pong = RegistryClient::new("PongManager", "tcp://localhost:5555");
    let mut ping = RegistryClient::new("PingManager", "tcp://localhost:5555");
    let first = pong.register("pong", "tcp://localhost:5001");
    run(&mut pong, &mut registry, first);

    let (mut beat, action) = pong.start_heartbeat().unwrap();
    let mut next = Some(action);
    let mut beats = 0;
    // Drive the loop; after ten seconds of registry time the manager wants no more.
    while let Some(action) = next {
        let event = match action {
            Action::Connect(_) => Event::Connected,
            Action::Pause(millis) => {
                registry.now_ms += millis;
                Event::Paused
            }
            Action::Send(payload) => {
                registry.answer(&payload);
                beats += 1;
                Event::Sent
            }
            Action::Receive => Event::Received(vec![]),
        };
        if registry.now_ms >= 10_000 {
            pong.stop_heartbeat();
        }
        next = beat.advance(event, pong.heartbeat_running());
    }
    // Beats went out at 50, 2050, 4050, 6050 and 8050; the loop ended at 10050.
    assert_eq!(beats, 5);
    assert_eq!(registry.now_ms, 10_050);
    assert!(beat.is_stopped());
    let first = ping.lookup("pong");
    assert_eq!(
        run(&mut ping, &mut registry, first),
        Outcome::Lookup(Ok("tcp://localhost:5001".to_string()))
    );

    registry.now_ms = 8_050 + 6_000;
    let first = ping.lookup("pong");
    assert_eq!(
        run(&mut ping, &mut registry, first),
        Outcome::Lookup(Err(RegistryError::Offline("pong".to_string())))
    );
}

#[test]
fn a_loop_can_be_driven_without_a_client() {
    let (mut beat, action) = HeartbeatLoop::start("m", "tcp://h:1");
    assert_eq!(action, Action::Connect("tcp://h:1".to_string()));
    assert_eq!(beat.advance(Event::ConnectFailed("no".to_string()), true), None);
}

#[test]
fn the_first_frame_is_the_payload() {
    assert_eq!(take_first_frame(vec![vec![1, 2], vec![3]]), vec![1, 2]);
    assert_eq!(take_first_frame(vec![vec![], vec![3]]), Vec::<u8>::new());
    assert_eq!(take_first_frame(vec![]), Vec::<u8>::new());
    assert_eq!(copy_bytes(&vec![7, 8, 9]), vec![7, 8, 9]);
}

#[test]
fn bytes_read_as_text_only_if_they_are_utf8() {
    assert_eq!(utf8_text(b"pong".to_vec()), Ok("pong".to_string()));
    assert_eq!(utf8_text(vec![]), Ok(String::new()));
    assert_eq!(utf8_text(vec![0xc3, 0xa9]), Ok("\u{e9}".to_string()));
    assert_eq!(
        utf8_text(vec![b'a', 0xc3]),
        Err("incomplete utf-8 byte sequence from index 1".to_string())
    );
    assert_eq!(
        utf8_text(vec![0xff]),
        Err("invalid utf-8 sequence of 1 bytes from index 0".to_string())
    );
}

#[test]
fn texts_are_the_same_only_if_every_character_is() {
    assert!(same("pong", "pong"));
    assert!(same("", ""));
    assert!(!same("pong", "Pong"));
    assert!(!same("pong", "pong "));
}
