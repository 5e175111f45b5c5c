use journal::relay::{
    Notification, ReconnectPolicy, Relay, RelayError, Upstream, UpstreamStep,
};

fn note(p: &str) -> Notification {
    Notification { channel: "documents".to_string(), payload: p.to_string() }
}

#[test]
fn a_publication_reaches_both_connected_clients_and_not_a_late_one() {
    let mut relay = Relay::new();
    let a = relay.subscribe().unwrap();
    let b = relay.subscribe().unwrap();
    assert_ne!(a, b);
    relay.publish(&note("{\"id\":1}"));
    let late = relay.subscribe().unwrap();
    assert_eq!(relay.take(a), vec![note("{\"id\":1}")]);
    assert_eq!(relay.take(b), vec![note("{\"id\":1}")]);
    assert_eq!(relay.take(late), Vec::<Notification>::new());
    relay.publish(&note("second"));
    assert_eq!(relay.take(late), vec![note("second")]);
    assert_eq!(relay.take(a), vec![note("second")]);
    assert_eq!(relay.take(a), Vec::<Notification>::new());
}

#[test]
fn a_disconnected_client_gets_nothing_more() {
    let mut relay = Relay::new();
    let a = relay.subscribe().unwrap();
    let b = relay.subscribe().unwrap();
    assert!(relay.unsubscribe(a));
    assert!(!relay.unsubscribe(a));
    assert_eq!(relay.client_count(), 1);
    relay.publish(&note("x"));
    assert_eq!(relay.take(a), Vec::<Notification>::new());
    assert_eq!(relay.take(b), vec![note("x")]);
    let c = relay.subscribe().unwrap();
    assert_ne!(c, a);
    assert_ne!(c, b);
}

#[test]
fn notifications_queue_in_order() {
    let mut relay = Relay::new();
    let a = relay.subscribe().unwrap();
    relay.publish(&note("1"));
    relay.publish(&note("2"));
    relay.publish(&note("3"));
    assert_eq!(relay.take(a), vec![note("1"), note("2"), note("3")]);
}

#[test]
fn backoff_doubles_up_to_the_cap_then_gives_up() {
    let p = ReconnectPolicy::standard();
    let delays: Vec<Option<u64>> = (0..9).map(|k| p.delay_for(k)).collect();
    assert_eq!(
        delays,
        vec![
            Some(250),
            Some(500),
            Some(1000),
            Some(2000),
            Some(4000),
            Some(8000),
            Some(16000),
            Some(30000),
            None
        ]
    );
    let huge = ReconnectPolicy { base_delay_ms: u64::MAX / 2, max_delay_ms: u64::MAX, max_attempts: 70 };
    assert_eq!(huge.delay_for(0), Some(u64::MAX / 2));
    assert_eq!(huge.delay_for(1), Some(u64::MAX - 1));
    assert_eq!(huge.delay_for(69), Some(u64::MAX));
    let never = ReconnectPolicy { base_delay_ms: 10, max_delay_ms: 5, max_attempts: 2 };
    assert_eq!(never.delay_for(0), Some(5));
}

#[test]
fn the_upstream_reconnects_then_fails_with_a_distinct_error() {
    let p = ReconnectPolicy { base_delay_ms: 100, max_delay_ms: 1000, max_attempts: 2 };
    let mut up = Upstream::new();
    assert_eq!(up.connection_lost(&p), UpstreamStep::Reconnect(100));
    assert_eq!(up.connection_lost(&p), UpstreamStep::Reconnect(200));
    assert_eq!(up.connection_lost(&p), UpstreamStep::GiveUp(RelayError::UpstreamLost(2)));
    up.connected();
    assert_eq!(up.connection_lost(&p), UpstreamStep::Reconnect(100));
}
