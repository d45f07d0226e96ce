use rust_usecases::channel::{DeliveryChannel, SendOutcome, DEFAULT_CHANNEL_CAPACITY};
use rust_usecases::server::{BroadcastMessage, ConnectUser, DisconnectUser, UserMessage, WsServer};

const U1: u128 = 0x1111;
const U2: u128 = 0x2222;
const U3: u128 = 0x3333;

fn drain(server: &mut WsServer, sink: usize) -> Vec<String> {
    let mut out = Vec::new();
    while let Some(m) = server.take_outbound(sink) {
        out.push(m);
    }
    out
}

fn connected(server: &mut WsServer, user: u128) -> usize {
    let sink = server.open_channel(user, DEFAULT_CHANNEL_CAPACITY);
    server.register(user, sink);
    sink
}

#[test]
fn scenario_route_to_registered_and_unknown_user() {
    let mut server = WsServer::new();
    let s1 = connected(&mut server, U1);
    server.send_message_to_user(U1, "hello".to_string());
    assert_eq!(drain(&mut server, s1), vec!["hello".to_string()]);
    server.send_message_to_user(U2, "hello".to_string());
    assert!(drain(&mut server, s1).is_empty());
    assert_eq!(server.session_of(U2), None);
}

#[test]
fn scenario_broadcast_then_unregister() {
    let mut server = WsServer::new();
    let s1 = connected(&mut server, U1);
    let s2 = connected(&mut server, U2);
    let s3 = connected(&mut server, U3);
    server.broadcast("ping".to_string());
    assert_eq!(drain(&mut server, s1), vec!["ping".to_string()]);
    assert_eq!(drain(&mut server, s2), vec!["ping".to_string()]);
    assert_eq!(drain(&mut server, s3), vec!["ping".to_string()]);
    server.unregister(U2);
    server.broadcast("pong".to_string());
    assert_eq!(drain(&mut server, s1), vec!["pong".to_string()]);
    assert!(drain(&mut server, s2).is_empty());
    assert_eq!(drain(&mut server, s3), vec!["pong".to_string()]);
}

#[test]
fn second_registration_replaces_first() {
    let mut server = WsServer::new();
    let s1 = connected(&mut server, U1);
    let s2 = connected(&mut server, U1);
    server.send_message_to_user(U1, "m".to_string());
    assert!(drain(&mut server, s1).is_empty());
    assert_eq!(drain(&mut server, s2), vec!["m".to_string()]);
    assert_eq!(server.session_of(U1), Some(s2));
}

#[test]
fn unregister_twice_is_harmless() {
    let mut server = WsServer::new();
    connected(&mut server, U1);
    server.unregister(U1);
    server.unregister(U1);
    assert_eq!(server.session_of(U1), None);
    server.disconnect(DisconnectUser { user_id: U3 });
    assert_eq!(server.session_of(U3), None);
}

#[test]
fn offline_user_gets_nothing() {
    let mut server = WsServer::new();
    let s1 = connected(&mut server, U1);
    server.handle_user_message(UserMessage { user_id: U2, message: "x".to_string() });
    assert!(drain(&mut server, s1).is_empty());
}

#[test]
fn broadcast_reaches_each_user_once() {
    let mut server = WsServer::new();
    let sinks: Vec<usize> = (1u128..=5).map(|u| connected(&mut server, u)).collect();
    server.handle_broadcast(BroadcastMessage("all".to_string()));
    for s in sinks {
        assert_eq!(drain(&mut server, s), vec!["all".to_string()]);
    }
}

#[test]
fn broadcast_skips_abandoned_sink() {
    let mut server = WsServer::new();
    let old = connected(&mut server, U1);
    let new = connected(&mut server, U1);
    server.broadcast("b".to_string());
    assert!(drain(&mut server, old).is_empty());
    assert_eq!(drain(&mut server, new), vec!["b".to_string()]);
}

#[test]
fn messages_keep_their_order_per_session() {
    let mut server = WsServer::new();
    let s1 = connected(&mut server, U1);
    server.send_message_to_user(U1, "m1".to_string());
    server.broadcast("m2".to_string());
    server.send_message_to_user(U1, "m3".to_string());
    assert_eq!(
        drain(&mut server, s1),
        vec!["m1".to_string(), "m2".to_string(), "m3".to_string()]
    );
}

#[test]
fn connect_message_registers_sink() {
    let mut server = WsServer::new();
    let sink = server.open_channel(U2, 4);
    server.connect(ConnectUser { user_id: U2, sink });
    assert_eq!(server.session_of(U2), Some(sink));
    assert_eq!(server.channel_count(), 1);
}

#[test]
fn full_channel_drops_newest() {
    let mut server = WsServer::new();
    let sink = server.open_channel(U1, 2);
    server.register(U1, sink);
    for m in ["a", "b", "c"] {
        server.send_message_to_user(U1, m.to_string());
    }
    assert_eq!(drain(&mut server, sink), vec!["a".to_string(), "b".to_string()]);
}

#[test]
fn closed_channel_drops_everything() {
    let mut server = WsServer::new();
    let sink = connected(&mut server, U1);
    server.send_message_to_user(U1, "before".to_string());
    server.close_channel(sink);
    server.send_message_to_user(U1, "after".to_string());
    assert!(drain(&mut server, sink).is_empty());
}

#[test]
fn channel_outcomes() {
    let mut c = DeliveryChannel::new(U1, 1);
    assert_eq!(c.owner(), U1);
    assert_eq!(c.capacity(), 1);
    assert_eq!(c.send("a".to_string()), SendOutcome::Queued);
    assert_eq!(c.send("b".to_string()), SendOutcome::Full);
    assert_eq!(c.len(), 1);
    assert_eq!(c.recv(), Some("a".to_string()));
    assert_eq!(c.recv(), None);
    c.close();
    assert!(!c.is_open());
    assert_eq!(c.send("c".to_string()), SendOutcome::Closed);
    assert_eq!(c.len(), 0);
}

#[test]
fn default_capacity_holds_that_many() {
    let mut c = DeliveryChannel::new(U1, DEFAULT_CHANNEL_CAPACITY);
    for i in 0..DEFAULT_CHANNEL_CAPACITY {
        assert_eq!(c.send(i.to_string()), SendOutcome::Queued);
    }
    assert_eq!(c.send("over".to_string()), SendOutcome::Full);
    assert_eq!(c.recv(), Some("0".to_string()));
}

#[test]
fn sink_owner_reports_channel_owner() {
    let mut server = WsServer::new();
    let sink = server.open_channel(U3, 1);
    assert_eq!(server.sink_owner(sink), Some(U3));
    assert_eq!(server.sink_owner(sink + 1), None);
}
