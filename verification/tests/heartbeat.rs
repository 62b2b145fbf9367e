use actor_registry::codec::decode;
use actor_registry::heartbeat::HeartbeatLoop;
use actor_registry::messages::{Heartbeat, Message};
use actor_registry::transport::{
    Action, Event, CONNECT_SETTLE_MS, HEARTBEAT_INTERVAL_MS, OFFLINE_THRESHOLD_MS,
};

fn heartbeat_bytes(manager_id: &str, timestamp_ms: u64) -> Vec<u8> {
    format!(
        "{{\"manager_id\":\"{}\",\"message_type\":\"Heartbeat\",\"timestamp_ms\":{}}}",
        manager_id, timestamp_ms
    )
    .into_bytes()
}

#[test]
fn the_protocol_times_are_fixed() {
    assert_eq!(CONNECT_SETTLE_MS, 50);
    assert_eq!(HEARTBEAT_INTERVAL_MS, 2000);
    assert_eq!(OFFLINE_THRESHOLD_MS, 6000);
}

#[test]
fn the_loop_connects_settles_and_beats_every_two_seconds() {
    let (mut beat, first) = HeartbeatLoop::start("PingManager", "tcp://localhost:5555");
    assert_eq!(first, Action::Connect("tcp://localhost:5555".to_string()));
    assert_eq!(beat.advance_at(Event::Connected, true, 1000), Some(Action::Pause(50)));
    assert_eq!(
        beat.advance_at(Event::Paused, true, 1050),
        Some(Action::Send(heartbeat_bytes("PingManager", 1050)))
    );
    assert_eq!(beat.advance_at(Event::Sent, true, 1051), Some(Action::Receive));
    assert_eq!(
        beat.advance_at(Event::Received(vec![b"{\"message_type\":\"HeartbeatAck\"}".to_vec()]), true, 1052),
        Some(Action::Pause(2000))
    );
    assert_eq!(
        beat.advance_at(Event::Paused, true, 3052),
        Some(Action::Send(heartbeat_bytes("PingManager", 3052)))
    );
    assert!(!beat.is_stopped());
}

#[test]
fn the_loop_ends_at_the_top_once_heartbeats_are_unwanted() {
    let (mut beat, _) = HeartbeatLoop::start("m", "tcp://localhost:5555");
    beat.advance_at(Event::Connected, true, 0);
    beat.advance_at(Event::Paused, true, 0);
    // Told to stop in mid-beat: the beat is finished first.
    assert_eq!(beat.advance_at(Event::Sent, false, 0), Some(Action::Receive));
    assert_eq!(beat.advance_at(Event::Received(vec![]), false, 0), Some(Action::Pause(2000)));
    assert!(!beat.is_stopped());
    assert_eq!(beat.advance_at(Event::Paused, false, 0), None);
    assert!(beat.is_stopped());
    assert_eq!(beat.advance_at(Event::Paused, true, 0), None);
    assert_eq!(beat.advance_at(Event::Connected, true, 0), None);
}

#[test]
fn the_loop_ends_before_its_first_beat_if_unwanted_by_then() {
    let (mut beat, _) = HeartbeatLoop::start("m", "tcp://localhost:5555");
    beat.advance_at(Event::Connected, true, 0);
    assert_eq!(beat.advance_at(Event::Paused, false, 0), None);
    assert!(beat.is_stopped());
}

#[test]
fn the_loop_ends_when_it_cannot_connect() {
    let (mut beat, _) = HeartbeatLoop::start("m", "tcp://localhost:5555");
    assert_eq!(beat.advance_at(Event::ConnectFailed("refused".to_string()), true, 0), None);
    assert!(beat.is_stopped());
}

#[test]
fn a_beat_that_fails_is_skipped() {
    let (mut beat, _) = HeartbeatLoop::start("m", "tcp://localhost:5555");
    beat.advance_at(Event::Connected, true, 0);
    beat.advance_at(Event::Paused, true, 10);
    assert_eq!(
        beat.advance_at(Event::SendFailed("broken".to_string()), true, 11),
        Some(Action::Pause(2000))
    );
    assert_eq!(
        beat.advance_at(Event::Paused, true, 2011),
        Some(Action::Send(heartbeat_bytes("m", 2011)))
    );
    beat.advance_at(Event::Sent, true, 2012);
    assert_eq!(
        beat.advance_at(Event::ReceiveFailed("reset".to_string()), true, 2013),
        Some(Action::Pause(2000))
    );
    assert!(!beat.is_stopped());
}

#[test]
fn the_reply_to_a_beat_is_not_read() {
    let (mut beat, _) = HeartbeatLoop::start("m", "tcp://localhost:5555");
    beat.advance_at(Event::Connected, true, 0);
    beat.advance_at(Event::Paused, true, 0);
    beat.advance_at(Event::Sent, true, 0);
    assert_eq!(
        beat.advance_at(Event::Received(vec![vec![0xff, 0xfe]]), true, 0),
        Some(Action::Pause(2000))
    );
}

#[test]
fn an_event_the_loop_did_not_ask_for_repeats_the_pending_action() {
    let (mut beat, _) = HeartbeatLoop::start("m", "tcp://localhost:5555");
    assert_eq!(
        beat.advance_at(Event::Paused, true, 0),
        Some(Action::Connect("tcp://localhost:5555".to_string()))
    );
    beat.advance_at(Event::Connected, true, 0);
    assert_eq!(beat.advance_at(Event::Sent, true, 0), Some(Action::Pause(50)));
    beat.advance_at(Event::Paused, true, 7);
    assert_eq!(
        beat.advance_at(Event::Paused, true, 99),
        Some(Action::Send(heartbeat_bytes("m", 7)))
    );
    beat.advance_at(Event::Sent, true, 0);
    assert_eq!(beat.advance_at(Event::Sent, true, 0), Some(Action::Receive));
    beat.advance_at(Event::Received(vec![]), true, 0);
    assert_eq!(beat.advance_at(Event::Connected, true, 0), Some(Action::Pause(2000)));
}

#[test]
fn advance_stamps_the_beat_with_the_clock() {
    let (mut beat, _) = HeartbeatLoop::start("mgr1", "tcp://localhost:5555");
    beat.advance(Event::Connected, true);
    let before = Heartbeat::new("x".to_string()).timestamp_ms;
    let sent = match beat.advance(Event::Paused, true) {
        Some(Action::Send(payload)) => payload,
        other => panic!("expected a send, got {:?}", other),
    };
    let after = Heartbeat::new("x".to_string()).timestamp_ms;
    match decode(std::str::from_utf8(&sent).unwrap()) {
        Ok(Message::Heartbeat(heartbeat)) => {
            assert_eq!(heartbeat.manager_id, "mgr1");
            assert!(before <= heartbeat.timestamp_ms && heartbeat.timestamp_ms <= after);
        }
        other => panic!("expected a heartbeat, got {:?}", other),
    }
}
